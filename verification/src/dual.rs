//! Two machines side by side, to find the first frame in which they differ.
//!
//! - [`run_both`] gives two machines the same inputs.
//! - [`DualRunner`] gives each its own, and can take over machines that already exist.
//! - [`fingerprint_trace`] and [`first_divergence`] are for two machines that run apart, each
//!   collecting its fingerprints.
//!
//! Frames are counted from 1: frame 1 is over when both machines ran once.

use vstd::prelude::*;

use crate::cartridge::RomId;
use crate::error::RomError;
use crate::fingerprint::{xxh3_128_of, xxh3_64_of};
use crate::input::FrameInput;
use crate::nes::{boot_refusal, Nes, NesModel};

verus! {

/// The first frame after which the fingerprints differ.
#[derive(Debug, Clone, Copy, PartialEq, Eq, Structural)]
pub struct Divergence {
    pub frame: u64,
    pub a: u64,
    pub b: u64,
}

/// What is known of the first divergence after another frame.
pub open spec fn noted(first: Option<Divergence>, frame: u64, a: u64, b: u64) -> Option<
    Divergence,
> {
    if first is None && a != b { Some(Divergence { frame, a, b }) } else { first }
}

/// Takes note of the fingerprints after a frame.
pub fn note(first: Option<Divergence>, frame: u64, a: u64, b: u64) -> (known: Option<Divergence>)
    ensures
        known == noted(first, frame, a, b),
{
    match first {
        Some(divergence) => Some(divergence),
        None => if a != b {
            Some(Divergence { frame, a, b })
        } else {
            None
        },
    }
}

/// Runs two machines, and remembers the first frame in which they differ.
#[derive(Debug, Clone)]
pub struct DualRunner {
    pub a: Nes,
    pub b: Nes,
    pub frames: u64,
    pub first: Option<Divergence>,
}

impl DualRunner {
    pub open spec fn wf(self) -> bool {
        self.a@.wf() && self.b@.wf()
    }

    /// Two machines just switched on.
    pub fn new(rom: &[u8]) -> (result: Result<Self, RomError>)
        ensures
            match boot_refusal(rom@) {
                Some(error) => result == Err::<DualRunner, RomError>(error),
                None => {
                    &&& result is Ok
                    &&& result->Ok_0.wf()
                    &&& result->Ok_0.a@ == NesModel::booted(
                        rom@,
                        RomId { hash: xxh3_128_of(rom@) },
                    )
                    &&& result->Ok_0.b@ == result->Ok_0.a@
                    &&& result->Ok_0.frames == 0
                    &&& result->Ok_0.first is None
                },
            },
    {
        let a: Nes = match Nes::from_rom(rom) {
            Ok(nes) => nes,
            Err(error) => return Err(error),
        };
        let b: Nes = match Nes::from_rom(rom) {
            Ok(nes) => nes,
            Err(error) => return Err(error),
        };
        Ok(DualRunner::from_instances(a, b))
    }

    /// Takes over two machines. Frames are counted from here.
    pub fn from_instances(a: Nes, b: Nes) -> (runner: Self)
        ensures
            runner == (DualRunner { a, b, frames: 0, first: None }),
    {
        DualRunner { a, b, frames: 0, first: None }
    }

    pub fn a(&self) -> (nes: &Nes)
        ensures
            *nes == self.a,
    {
        &self.a
    }

    pub fn b(&self) -> (nes: &Nes)
        ensures
            *nes == self.b,
    {
        &self.b
    }

    pub fn a_mut(&mut self) -> (nes: &mut Nes)
        ensures
            *nes == old(self).a,
            *final(self) == (DualRunner { a: *final(nes), ..*old(self) }),
    {
        &mut self.a
    }

    pub fn b_mut(&mut self) -> (nes: &mut Nes)
        ensures
            *nes == old(self).b,
            *final(self) == (DualRunner { b: *final(nes), ..*old(self) }),
    {
        &mut self.b
    }

    /// Switches the output of each machine.
    pub fn set_output(&mut self, a: bool, b: bool)
        requires
            old(self).wf(),
        ensures
            final(self).a@ == old(self).a@.with_output(a),
            final(self).b@ == old(self).b@.with_output(b),
            final(self).frames == old(self).frames,
            final(self).first == old(self).first,
            final(self).wf(),
    {
        broadcast use crate::bus::group_leads_to;

        self.a.set_output_enabled(a);
        self.b.set_output_enabled(b);
    }

    /// How many frames both machines ran.
    pub fn frames(&self) -> (frames: u64)
        ensures
            frames == self.frames,
    {
        self.frames
    }

    /// Both machines run a frame, each with its own input. Returns the first divergence; once
    /// there is one, it stays.
    pub fn step(&mut self, a: FrameInput, b: FrameInput) -> (first: Option<Divergence>)
        requires
            old(self).wf(),
        ensures
            final(self).a@ == old(self).a@.ran_frame(a),
            final(self).b@ == old(self).b@.ran_frame(b),
            final(self).frames == old(self).frames.wrapping_add(1),
            final(self).first == noted(
                old(self).first,
                final(self).frames,
                xxh3_64_of(final(self).a@.stamp()),
                xxh3_64_of(final(self).b@.stamp()),
            ),
            first == final(self).first,
            final(self).wf(),
    {
        self.a.run_frame(a);
        self.b.run_frame(b);
        self.frames = self.frames.wrapping_add(1);
        let fa: u64 = self.a.behavior_fingerprint();
        let fb: u64 = self.b.behavior_fingerprint();
        self.first = note(self.first, self.frames, fa, fb);
        self.first
    }

    pub fn first_divergence(&self) -> (first: Option<Divergence>)
        ensures
            first == self.first,
    {
        self.first
    }
}

/// Runs two machines with the same inputs, up to the first divergence. Since a machine does
/// nothing but follow its inputs, there is none.
pub fn run_both(rom: &[u8], inputs: &[FrameInput]) -> (result: Result<Option<Divergence>, RomError>)
    ensures
        match boot_refusal(rom@) {
            Some(error) => result == Err::<Option<Divergence>, RomError>(error),
            None => result == Ok::<Option<Divergence>, RomError>(None),
        },
{
    let mut runner: DualRunner = match DualRunner::new(rom) {
        Ok(runner) => runner,
        Err(error) => return Err(error),
    };
    let mut i: usize = 0;
    while i < inputs.len()
        invariant
            boot_refusal(rom@) is None,
            i <= inputs.len(),
            runner.wf(),
            runner.a@ == runner.b@,
            runner.first is None,
        decreases inputs.len() - i,
    {
        if let Some(divergence) = runner.step(inputs[i], inputs[i]) {
            return Ok(Some(divergence));
        }
        i = i + 1;
    }
    Ok(None)
}

/// The fingerprints of `m` after each of the inputs.
pub open spec fn trace_of(m: NesModel, inputs: Seq<FrameInput>) -> Seq<u64> {
    Seq::new(inputs.len(), |i: int| xxh3_64_of(m.ran_frames(inputs.take(i + 1)).stamp()))
}

/// Runs the inputs and collects the fingerprint after each.
pub fn fingerprint_trace(nes: &mut Nes, inputs: &[FrameInput]) -> (trace: Vec<u64>)
    requires
        old(nes)@.wf(),
    ensures
        trace@ == trace_of(old(nes)@, inputs@),
        final(nes)@ == old(nes)@.ran_frames(inputs@),
        final(nes)@.wf(),
{
    let ghost start = nes@;
    let mut trace: Vec<u64> = Vec::new();
    let mut i: usize = 0;
    assert(inputs@.take(0).len() == 0);
    while i < inputs.len()
        invariant
            i <= inputs.len(),
            nes@.wf(),
            nes@ == start.ran_frames(inputs@.take(i as int)),
            trace@.len() == i,
            forall|k: int|
                0 <= k < i ==> #[trigger] trace@[k] == xxh3_64_of(
                    start.ran_frames(inputs@.take(k + 1)).stamp(),
                ),
        decreases inputs.len() - i,
    {
        proof {
            assert(inputs@.take(i + 1).drop_last() =~= inputs@.take(i as int));
        }
        nes.run_frame(inputs[i]);
        trace.push(nes.behavior_fingerprint());
        i = i + 1;
    }
    assert(inputs@.take(inputs@.len() as int) =~= inputs@);
    assert(trace@ =~= trace_of(start, inputs@));
    trace
}

/// The first frame in which two lists of fingerprints differ, as far as both go.
pub fn first_divergence(a: &[u64], b: &[u64]) -> (result: Option<Divergence>)
    ensures
        match result {
            None => forall|i: int| 0 <= i < a@.len() && i < b@.len() ==> #[trigger] a@[i] == b@[i],
            Some(d) => {
                let i = d.frame - 1;
                &&& 0 <= i < a@.len()
                &&& i < b@.len()
                &&& d.a == a@[i]
                &&& d.b == b@[i]
                &&& d.a != d.b
                &&& forall|k: int| 0 <= k < i ==> #[trigger] a@[k] == b@[k]
            },
        },
{
    let mut i: usize = 0;
    while i < a.len() && i < b.len()
        invariant
            i <= a.len(),
            i <= b.len(),
            forall|k: int| 0 <= k < i ==> #[trigger] a@[k] == b@[k],
        decreases a.len() - i,
    {
        if a[i] != b[i] {
            return Some(Divergence { frame: i as u64 + 1, a: a[i], b: b[i] });
        }
        i = i + 1;
    }
    None
}

} // verus!
