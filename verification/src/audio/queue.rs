//! The queue between the machine and the sound device, one thread at each end.
//!
//! A sample is a `f32` as its bits. Either end may be used while the other is, so what the other
//! end does in between is not known here. What is known is what an end has seen: room that the
//! filling end saw stays room until it is filled, and samples that the playing end saw stay until
//! they are taken.

use rtrb::{Consumer, Producer, RingBuffer};
use vstd::prelude::*;

use super::{ring_capacity, target_at, AudioShared, Playback, CAPACITY_FACTOR, FADE_IN_SAMPLES};

verus! {

#[verifier::external_type_specification]
#[verifier::external_body]
#[verifier::reject_recursive_types(T)]
pub struct ExProducer<T>(Producer<T>);

#[verifier::external_type_specification]
#[verifier::external_body]
#[verifier::reject_recursive_types(T)]
pub struct ExConsumer<T>(Consumer<T>);

/// The capacity of the ring, `rtrb::RingBuffer::capacity`.
pub uninterp spec fn capacity_of(producer: Producer<u32>) -> nat;

/// The samples that the producer queued and has not seen taken, the oldest first: the slots from
/// its cached head to its tail.
pub uninterp spec fn queued_of(producer: Producer<u32>) -> Seq<u32>;

/// The samples that the consumer has seen and not taken since, the next one first. There are
/// `rtrb::Consumer::cached_slots` of them.
pub uninterp spec fn seen_of(consumer: Consumer<u32>) -> Seq<u32>;

/// The free slots that the producer has seen and not filled since,
/// `rtrb::Producer::cached_slots`.
pub open spec fn room_of(producer: Producer<u32>) -> int {
    capacity_of(producer) - queued_of(producer).len()
}

/// `later` is `sooner` with `more` behind it, and some taken from the front.
pub open spec fn goes_on(sooner: Seq<u32>, later: Seq<u32>, more: Seq<u32>) -> bool {
    exists|taken: int|
        0 <= taken <= sooner.len() + more.len() && later == #[trigger] (sooner + more).skip(taken)
}

/// Where nothing is queued before or after, what went on does so all the way.
proof fn lemma_goes_on(a: Seq<u32>, b: Seq<u32>, more: Seq<u32>, c: Seq<u32>, d: Seq<u32>)
    requires
        goes_on(a, b, Seq::empty()),
        goes_on(b, c, more),
        goes_on(c, d, Seq::empty()),
    ensures
        goes_on(a, d, more),
{
    let none = Seq::<u32>::empty();
    let i = choose|taken: int|
        0 <= taken <= a.len() + none.len() && b == #[trigger] (a + none).skip(taken);
    let j = choose|taken: int|
        0 <= taken <= b.len() + more.len() && c == #[trigger] (b + more).skip(taken);
    let k = choose|taken: int|
        0 <= taken <= c.len() + none.len() && d == #[trigger] (c + none).skip(taken);
    assert(d =~= (a + more).skip(i + j + k));
}

/// Calls `rtrb::RingBuffer::new`: an empty ring of this capacity. It panics where the slots would
/// take more than `isize::MAX` bytes.
#[verifier::external_body]
fn new_ring(capacity: usize) -> (ends: (Producer<u32>, Consumer<u32>))
    requires
        capacity * 4 <= isize::MAX,
    ensures
        capacity_of(ends.0) == capacity,
        queued_of(ends.0) == Seq::<u32>::empty(),
        seen_of(ends.1) == Seq::<u32>::empty(),
{
    RingBuffer::new(capacity)
}

/// Calls `rtrb::Producer::slots`: looks how many slots are free now. The consumer can only have
/// taken more from the front of what was queued.
#[verifier::external_body]
fn free_slots(producer: &mut Producer<u32>) -> (free: usize)
    ensures
        free == room_of(*final(producer)),
        goes_on(queued_of(*old(producer)), queued_of(*final(producer)), Seq::empty()),
        capacity_of(*final(producer)) == capacity_of(*old(producer)),
{
    producer.slots()
}

/// Calls `rtrb::Producer::push_partial_slice`: queues a part from the beginning of the slice, in
/// its order, and returns it. Where the room that was seen does not suffice, it looks again, and
/// queues as much as then fits.
#[verifier::external_body]
fn push_partial<'a>(producer: &mut Producer<u32>, samples: &'a [u32]) -> (pushed: &'a [u32])
    ensures
        pushed@ == samples@.take(pushed@.len() as int),
        pushed@.len() <= samples@.len(),
        goes_on(queued_of(*old(producer)), queued_of(*final(producer)), pushed@),
        room_of(*old(producer)) >= samples@.len() ==> pushed@ == samples@ && queued_of(
            *final(producer),
        ) == queued_of(*old(producer)) + samples@,
        room_of(*old(producer)) < samples@.len() ==> pushed@.len() >= room_of(*old(producer)) && (
        pushed@.len() < samples@.len() ==> room_of(*final(producer)) == 0),
        queued_of(*final(producer)).len() >= pushed@.len(),
        queued_of(*final(producer)).len() <= capacity_of(*final(producer)),
        capacity_of(*final(producer)) == capacity_of(*old(producer)),
{
    producer.push_partial_slice(samples).0
}

/// Calls `rtrb::Consumer::slots`: looks how many samples wait now. The producer can only have added
/// behind what was seen before.
#[verifier::external_body]
fn waiting_slots(consumer: &mut Consumer<u32>) -> (waiting: usize)
    ensures
        waiting == seen_of(*final(consumer)).len(),
        seen_of(*old(consumer)).is_prefix_of(seen_of(*final(consumer))),
{
    consumer.slots()
}

/// Calls `rtrb::Consumer::pop`: takes the first of the samples that were seen. Where none was, it
/// looks again, and fails if none waits. Which sample is taken then depends on what the other end
/// has queued meanwhile, and is not stated.
#[verifier::external_body]
fn pop(consumer: &mut Consumer<u32>) -> (sample: Option<u32>)
    ensures
        seen_of(*old(consumer)).len() > 0 ==> sample == Some(seen_of(*old(consumer))[0])
            && seen_of(*final(consumer)) == seen_of(*old(consumer)).skip(1),
        sample is None ==> seen_of(*final(consumer)).len() == 0,
{
    consumer.pop().ok()
}

/// The end that the machine fills.
#[derive(Debug)]
pub struct AudioProducer {
    producer: Producer<u32>,
    capacity: usize,
}

/// The end that the device plays.
#[derive(Debug)]
pub struct CallbackState {
    consumer: Consumer<u32>,
    playback: Playback,
}

/// A queue fits into memory.
pub open spec fn queue_fits(device_rate: u32) -> bool {
    (target_at(device_rate) * CAPACITY_FACTOR + 1) * 4 <= isize::MAX
}

/// A queue for a device of this rate: five times what should wait.
pub fn audio_channel(device_rate: u32) -> (ends: (AudioShared, AudioProducer, CallbackState))
    requires
        queue_fits(device_rate),
    ensures
        ends.0.device_rate == device_rate,
        ends.0.capacity == ends.1.size(),
        !ends.0.paused && ends.0.underruns == 0 && ends.0.dropped == 0 && ends.0.fill == 0,
        ends.0.flush_generation == 0,
        ends.1.wf(),
        ends.1.size() == if device_rate < 10 {
            1
        } else {
            target_at(device_rate) * CAPACITY_FACTOR
        },
        ends.1.size() >= ends.0.cap(),
        ends.1.queued() == Seq::<u32>::empty(),
        ends.2.playback() == Playback::silent(),
        ends.2.seen() == Seq::<u32>::empty(),
{
    let capacity: usize = ring_capacity(device_rate);
    let (producer, consumer): (Producer<u32>, Consumer<u32>) = new_ring(capacity);
    (
        AudioShared::new(device_rate, capacity),
        AudioProducer { producer, capacity },
        CallbackState { consumer, playback: Playback::new() },
    )
}

/// What was accepted is what the rules admit beside what waited at some moment of the call.
pub open spec fn rightly_accepted(
    shared: AudioShared,
    size: nat,
    room: nat,
    samples: nat,
    accepted: nat,
) -> bool {
    exists|free: nat|
        room <= free <= size && accepted == #[trigger] shared.admitted(
            (size - free) as nat,
            samples,
        )
}

impl AudioProducer {
    /// How many samples the queue holds.
    pub closed spec fn size(self) -> nat {
        self.capacity as nat
    }

    /// The samples that are queued, as far as is known here, the oldest first.
    pub closed spec fn queued(self) -> Seq<u32> {
        queued_of(self.producer)
    }

    /// How many more it is sure to hold.
    pub open spec fn room(self) -> nat {
        (self.size() - self.queued().len()) as nat
    }

    pub closed spec fn wf(self) -> bool {
        capacity_of(self.producer) == self.capacity && queued_of(self.producer).len()
            <= self.capacity
    }

    /// How many samples wait, as seen from here. The device may have taken some since.
    pub fn fill(&mut self) -> (samples: usize)
        requires
            old(self).wf(),
        ensures
            final(self).wf(),
            final(self).size() == old(self).size(),
            goes_on(old(self).queued(), final(self).queued(), Seq::empty()),
            samples == final(self).queued().len(),
            samples <= old(self).queued().len(),
    {
        self.capacity - free_slots(&mut self.producer)
    }

    /// Queues as many samples as may wait, from the first on and in their order, and counts the
    /// others as dropped. Without a device nothing happens.
    pub fn push_samples(&mut self, shared: &mut AudioShared, samples: &[u32]) -> (accepted: usize)
        requires
            old(self).wf(),
            old(shared).cap() <= old(self).size(),
        ensures
            final(self).wf(),
            final(self).size() == old(self).size(),
            if old(shared).device_rate == 0 || samples@.len() == 0 {
                accepted == 0 && *final(shared) == *old(shared) && *final(self) == *old(self)
            } else {
                &&& rightly_accepted(
                    *old(shared),
                    old(self).size(),
                    old(self).room(),
                    samples@.len(),
                    accepted as nat,
                )
                &&& goes_on(
                    old(self).queued(),
                    final(self).queued(),
                    samples@.take(accepted as int),
                )
                &&& *final(shared) == old(shared).pushed(
                    samples@.len(),
                    accepted as nat,
                    final(shared).fill,
                )
                &&& final(shared).fill == final(self).queued().len()
            },
    {
        if !shared.is_active() || samples.len() == 0 {
            return 0;
        }
        let ghost size = self.size();
        let ghost before = self.queued();
        let waiting: usize = self.fill();
        let ghost seen = self.queued();
        let ghost free = self.room();
        let n: usize = shared.accepts(waiting, samples.len());
        let offered: &[u32] = vstd::slice::slice_subrange(samples, 0, n);
        let accepted: usize = push_partial(&mut self.producer, offered).len();
        assert(accepted == shared.admitted((size - free) as nat, samples@.len()));
        let ghost pushed = self.queued();
        let fill: usize = self.fill();
        proof {
            assert(offered@.take(accepted as int) =~= samples@.take(accepted as int));
            lemma_goes_on(before, seen, samples@.take(accepted as int), pushed, self.queued());
        }
        shared.note_pushed(samples.len(), accepted, fill);
        accepted
    }
}

impl CallbackState {
    pub closed spec fn playback(self) -> Playback {
        self.playback
    }

    /// The samples that are sure to wait, the next one first.
    pub closed spec fn seen(self) -> Seq<u32> {
        seen_of(self.consumer)
    }

    /// How many samples are sure to wait.
    pub open spec fn waiting(self) -> nat {
        self.seen().len()
    }

    /// How many samples wait, as seen from here. The machine may have queued more since.
    pub fn slots(&mut self) -> (samples: usize)
        ensures
            samples == final(self).waiting(),
            old(self).seen().is_prefix_of(final(self).seen()),
            final(self).playback() == old(self).playback(),
    {
        waiting_slots(&mut self.consumer)
    }

    /// Empties the queue of what waits now.
    pub fn clear(&mut self)
        ensures
            final(self).waiting() == 0,
            final(self).playback() == old(self).playback(),
    {
        let mut left: usize = waiting_slots(&mut self.consumer);
        while left > 0
            invariant
                left == seen_of(self.consumer).len(),
                self.playback == old(self).playback,
            decreases left,
        {
            let _ = pop(&mut self.consumer);
            left = left - 1;
        }
    }

    /// Begins to fill the buffer of the device. The queue is emptied first if it is to be. Returns
    /// whether anything is heard.
    pub fn begin(&mut self, shared: &mut AudioShared) -> (heard: bool)
        ensures
            ({
                let heeding = old(self).playback().heeding(*old(shared));
                let slots = final(self).waiting();
                &&& heard == heeding.heard(*old(shared), slots)
                &&& final(self).playback() == heeding.begun(*old(shared), slots)
                &&& *final(shared) == if heard {
                    *old(shared)
                } else {
                    AudioShared {
                        fill: if old(shared).paused { 0 } else { slots as usize },
                        ..*old(shared)
                    }
                }
                &&& !old(self).playback().interrupted(*old(shared)) ==> (
                old(self).seen()).is_prefix_of(final(self).seen())
            }),
    {
        if self.playback.heed(shared) {
            self.clear();
        }
        let slots: usize = self.slots();
        self.playback.begin(shared, slots)
    }

    /// The next sample, and how far it has come in, out of [`FADE_IN_SAMPLES`]. `None` means that
    /// the queue ran dry.
    pub fn next(&mut self) -> (next: (Option<u32>, u32))
        requires
            old(self).playback().fade <= FADE_IN_SAMPLES,
        ensures
            old(self).waiting() > 0 ==> next.0 == Some(old(self).seen()[0]) && final(self).seen()
                == old(self).seen().skip(1),
            next.0 is None ==> final(self).waiting() == 0,
            next.1 == if old(self).playback().fade < FADE_IN_SAMPLES {
                old(self).playback().fade + 1
            } else {
                FADE_IN_SAMPLES as int
            },
            final(self).playback() == (Playback { fade: next.1, ..old(self).playback() }),
    {
        let sample: Option<u32> = pop(&mut self.consumer);
        (sample, self.playback.fade_in())
    }

    /// Ends filling the buffer of the device.
    pub fn end(&mut self, shared: &mut AudioShared, ran_dry: bool)
        ensures
            final(self).playback() == old(self).playback().ended(ran_dry),
            *final(shared) == (AudioShared {
                fill: final(self).waiting() as usize,
                underruns: if ran_dry {
                    old(shared).underruns.wrapping_add(1)
                } else {
                    old(shared).underruns
                },
                ..*old(shared)
            }),
            old(self).seen().is_prefix_of(final(self).seen()),
    {
        let slots: usize = self.slots();
        self.playback.end(shared, slots, ran_dry);
    }
}

} // verus!
