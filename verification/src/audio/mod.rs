//! Between the machine and the sound device: how much sound waits, and when it is played.
//!
//! The machine makes sound frame by frame, and the device takes it whenever it needs some. What
//! waits in between is kept near a target of 50 ms. The device is silent until that much has
//! gathered; when it runs dry, it is silent until as much has gathered again. No more than three
//! times the target may wait, so a machine that catches up does not leave a lasting delay: what is
//! beyond is dropped.
//!
//! Here samples are counted. [`queue`] holds them, one end for the machine and one for the device.

use vstd::prelude::*;

pub mod queue;

verus! {

/// How much sound should wait, in milliseconds.
pub const TARGET_LATENCY_MS: u32 = 50;

/// How many times the target may wait.
pub const MAX_FILL_FACTOR: usize = 3;

/// How many times the target fit into the queue.
pub const CAPACITY_FACTOR: usize = 5;

/// How many samples it takes to come in at full volume.
pub const FADE_IN_SAMPLES: u32 = 512;

/// The target in samples: 50 ms at the rate of the device, rounded.
pub open spec fn target_at(device_rate: u32) -> nat {
    ((device_rate * 50 + 500) / 1000) as nat
}

pub fn target_fill(device_rate: u32) -> (samples: usize)
    ensures
        samples == target_at(device_rate),
{
    ((device_rate as u64 * 50 + 500) / 1000) as usize
}

/// How many samples the queue holds, at the rate of the device. There is room for one at least.
pub fn ring_capacity(device_rate: u32) -> (samples: usize)
    ensures
        samples == if device_rate < 10 { 1 } else { target_at(device_rate) * CAPACITY_FACTOR },
{
    let samples: usize = target_fill(device_rate) * CAPACITY_FACTOR;
    if samples == 0 {
        1
    } else {
        samples
    }
}

/// What both sides know of the sound.
#[derive(Debug, Clone, Copy, PartialEq, Eq, Structural)]
pub struct AudioShared {
    /// Samples per second that the device plays, 0 without a device.
    pub device_rate: u32,
    /// How many samples the queue holds.
    pub capacity: usize,
    /// The machine is paused, so the device is silent.
    pub paused: bool,
    /// How often the device ran dry.
    pub underruns: u64,
    /// How many samples were dropped.
    pub dropped: u64,
    /// How often the queue was to be emptied.
    pub flush_generation: u32,
    /// How many samples wait, as seen by whoever looked last.
    pub fill: usize,
}

impl AudioShared {
    pub fn new(device_rate: u32, capacity: usize) -> (shared: Self)
        ensures
            shared == (AudioShared {
                device_rate,
                capacity,
                paused: false,
                underruns: 0,
                dropped: 0,
                flush_generation: 0,
                fill: 0,
            }),
    {
        AudioShared {
            device_rate,
            capacity,
            paused: false,
            underruns: 0,
            dropped: 0,
            flush_generation: 0,
            fill: 0,
        }
    }

    /// There is a device.
    pub fn is_active(&self) -> (active: bool)
        ensures
            active == (self.device_rate > 0),
    {
        self.device_rate > 0
    }

    pub fn device_rate(&self) -> (rate: u32)
        ensures
            rate == self.device_rate,
    {
        self.device_rate
    }

    /// How many samples should wait.
    pub fn target_fill(&self) -> (samples: usize)
        ensures
            samples == target_at(self.device_rate),
    {
        target_fill(self.device_rate)
    }

    /// How many samples may wait.
    pub open spec fn cap(self) -> nat {
        target_at(self.device_rate) * MAX_FILL_FACTOR as nat
    }

    pub fn max_fill(&self) -> (samples: usize)
        ensures
            samples == self.cap(),
    {
        self.target_fill() * MAX_FILL_FACTOR
    }

    pub fn fill(&self) -> (samples: usize)
        ensures
            samples == self.fill,
    {
        self.fill
    }

    pub fn underruns(&self) -> (count: u64)
        ensures
            count == self.underruns,
    {
        self.underruns
    }

    pub fn dropped(&self) -> (samples: u64)
        ensures
            samples == self.dropped,
    {
        self.dropped
    }

    /// How many of so many samples may join `fill` that wait.
    pub open spec fn admitted(self, fill: nat, samples: nat) -> nat {
        if self.device_rate == 0 || fill >= self.cap() {
            0
        } else if samples < self.cap() - fill {
            samples
        } else {
            (self.cap() - fill) as nat
        }
    }

    pub fn accepts(&self, fill: usize, samples: usize) -> (n: usize)
        ensures
            n == self.admitted(fill as nat, samples as nat),
    {
        let most: usize = self.max_fill();
        if !self.is_active() || fill >= most {
            0
        } else if samples < most - fill {
            samples
        } else {
            most - fill
        }
    }

    /// Samples were offered and so many accepted, and `fill` wait now. Without a device nothing is
    /// counted.
    pub open spec fn pushed(self, samples: nat, accepted: nat, fill: usize) -> AudioShared {
        if self.device_rate == 0 || samples == 0 {
            self
        } else {
            AudioShared {
                dropped: self.dropped.wrapping_add((samples - accepted) as u64),
                fill,
                ..self
            }
        }
    }

    pub fn note_pushed(&mut self, samples: usize, accepted: usize, fill: usize)
        requires
            accepted <= samples,
        ensures
            *final(self) == old(self).pushed(samples as nat, accepted as nat, fill),
    {
        if self.is_active() && samples > 0 {
            self.dropped = self.dropped.wrapping_add((samples - accepted) as u64);
            self.fill = fill;
        }
    }

    /// The machine is paused, or goes on.
    pub fn set_paused(&mut self, paused: bool)
        ensures
            *final(self) == (AudioShared { paused, ..*old(self) }),
    {
        self.paused = paused;
    }

    /// Asks the device to empty the queue.
    pub fn flush(&mut self)
        ensures
            *final(self) == (AudioShared {
                flush_generation: old(self).flush_generation.wrapping_add(1),
                ..*old(self)
            }),
    {
        self.flush_generation = self.flush_generation.wrapping_add(1);
    }
}

/// What the device knows of its own playing.
#[derive(Debug, Clone, Copy, PartialEq, Eq, Structural)]
pub struct Playback {
    /// Enough had gathered, and it has not run dry since.
    pub playing: bool,
    /// How many samples came in so far, up to full volume.
    pub fade: u32,
    /// How many requests to empty the queue were met.
    pub flush_seen: u32,
}

impl Playback {
    pub open spec fn silent() -> Playback {
        Playback { playing: false, fade: 0, flush_seen: 0 }
    }

    pub fn new() -> (playback: Self)
        ensures
            playback == Playback::silent(),
    {
        Playback { playing: false, fade: 0, flush_seen: 0 }
    }

    /// The queue is to be emptied: someone asked for it, or the machine is paused.
    pub open spec fn interrupted(self, shared: AudioShared) -> bool {
        shared.flush_generation != self.flush_seen || shared.paused
    }

    /// The playback after it looked whether it is interrupted.
    pub open spec fn heeding(self, shared: AudioShared) -> Playback {
        Playback {
            playing: self.playing && !self.interrupted(shared),
            flush_seen: shared.flush_generation,
            ..self
        }
    }

    /// Heeds pauses and requests to empty the queue. Returns whether the queue is to be emptied.
    pub fn heed(&mut self, shared: &AudioShared) -> (clear: bool)
        ensures
            clear == old(self).interrupted(*shared),
            *final(self) == old(self).heeding(*shared),
    {
        let clear: bool = shared.flush_generation != self.flush_seen || shared.paused;
        self.flush_seen = shared.flush_generation;
        if clear {
            self.playing = false;
        }
        clear
    }

    /// Enough has gathered to begin.
    pub open spec fn enough(shared: AudioShared, slots: nat) -> bool {
        slots >= target_at(shared.device_rate) && slots > 0
    }

    /// The playback is heard where `slots` samples wait.
    pub open spec fn heard(self, shared: AudioShared, slots: nat) -> bool {
        !shared.paused && (self.playing || Playback::enough(shared, slots))
    }

    /// The playback after it began, if enough has gathered.
    pub open spec fn begun(self, shared: AudioShared, slots: nat) -> Playback {
        if self.heard(shared, slots) && !self.playing {
            Playback { playing: true, fade: 0, ..self }
        } else {
            self
        }
    }

    /// Begins if enough has gathered. Returns whether anything is heard; if not, `slots` samples
    /// wait on, or none while the machine is paused.
    pub fn begin(&mut self, shared: &mut AudioShared, slots: usize) -> (heard: bool)
        ensures
            heard == old(self).heard(*old(shared), slots as nat),
            *final(self) == old(self).begun(*old(shared), slots as nat),
            *final(shared) == if heard {
                *old(shared)
            } else {
                AudioShared {
                    fill: if old(shared).paused { 0 } else { slots },
                    ..*old(shared)
                }
            },
    {
        if shared.paused {
            shared.fill = 0;
            return false;
        }
        if !self.playing {
            let target: usize = shared.target_fill();
            if slots < target || slots == 0 {
                shared.fill = slots;
                return false;
            }
            self.playing = true;
            self.fade = 0;
        }
        true
    }

    /// Comes in for one sample. Returns how far, out of [`FADE_IN_SAMPLES`].
    pub fn fade_in(&mut self) -> (level: u32)
        requires
            old(self).fade <= FADE_IN_SAMPLES,
        ensures
            level == if old(self).fade < FADE_IN_SAMPLES {
                old(self).fade + 1
            } else {
                FADE_IN_SAMPLES as int
            },
            *final(self) == (Playback { fade: level, ..*old(self) }),
    {
        if self.fade < FADE_IN_SAMPLES {
            self.fade = self.fade + 1;
        }
        self.fade
    }

    /// The playback after the device took its samples.
    pub open spec fn ended(self, ran_dry: bool) -> Playback {
        Playback { playing: self.playing && !ran_dry, ..self }
    }

    /// Ends what the device asked for. If the queue ran dry, that is counted, and nothing is heard
    /// until enough has gathered again.
    pub fn end(&mut self, shared: &mut AudioShared, slots: usize, ran_dry: bool)
        ensures
            *final(self) == old(self).ended(ran_dry),
            *final(shared) == (AudioShared {
                fill: slots,
                underruns: if ran_dry {
                    old(shared).underruns.wrapping_add(1)
                } else {
                    old(shared).underruns
                },
                ..*old(shared)
            }),
    {
        shared.fill = slots;
        if ran_dry {
            shared.underruns = shared.underruns.wrapping_add(1);
            self.playing = false;
        }
    }
}

/// What is admitted never makes more samples wait than may wait, and leaves none out that could
/// join.
pub proof fn law_no_more_waits_than_may_wait(shared: AudioShared, fill: nat, samples: nat)
    ensures
        fill <= shared.cap() ==> fill + shared.admitted(fill, samples) <= shared.cap(),
        shared.admitted(fill, samples) <= samples,
        shared.device_rate > 0 && shared.admitted(fill, samples) < samples ==> fill
            + shared.admitted(fill, samples) >= shared.cap(),
{
}

/// What is admitted fits into the queue.
pub proof fn law_what_is_admitted_fits(shared: AudioShared, fill: nat, samples: nat)
    requires
        fill <= shared.cap(),
    ensures
        fill + shared.admitted(fill, samples) <= target_at(shared.device_rate)
            * CAPACITY_FACTOR,
{
}

/// A queue that ran dry is silent until enough has gathered, and so is one that was paused or
/// emptied.
pub proof fn law_silence_lasts_until_enough_has_gathered(
    playback: Playback,
    shared: AudioShared,
    slots: nat,
)
    requires
        !Playback::enough(shared, slots),
    ensures
        !playback.ended(true).heard(shared, slots),
        playback.interrupted(shared) ==> !playback.heeding(shared).heard(shared, slots),
        shared.paused ==> !playback.heard(shared, slots),
{
}

/// The machine's frame rate is 60.0988 Hz: the time for a frame, in nanoseconds.
pub const FRAME_NANOS: u64 = 16_639_267;

/// Counts time and deals it out in frames.
#[derive(Debug, Clone, Copy, PartialEq, Eq, Structural)]
pub struct FrameClock {
    /// Nanoseconds that passed and were not dealt out.
    pub saved: u64,
}

impl FrameClock {
    pub fn new() -> (clock: Self)
        ensures
            clock.saved == 0,
    {
        FrameClock { saved: 0 }
    }

    /// Time passed.
    pub fn pass(&mut self, nanos: u64)
        ensures
            final(self).saved == if old(self).saved + nanos <= u64::MAX {
                old(self).saved + nanos
            } else {
                u64::MAX as int
            },
    {
        if nanos <= u64::MAX - self.saved {
            self.saved = self.saved + nanos;
        } else {
            self.saved = u64::MAX;
        }
    }

    /// Deals out the time for a frame, if that much has passed.
    pub fn take(&mut self, period: u64) -> (due: bool)
        ensures
            due == (old(self).saved >= period),
            final(self).saved == if due { old(self).saved - period } else { old(self).saved as int },
    {
        if self.saved >= period {
            self.saved = self.saved - period;
            true
        } else {
            false
        }
    }

    /// Forgets the time that passed.
    pub fn clear(&mut self)
        ensures
            final(self).saved == 0,
    {
        self.saved = 0;
    }
}

} // verus!
