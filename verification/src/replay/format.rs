//! Replay files.
//!
//! A file is a header of eight bytes, then the numbers of the replay in the format of
//! [`crate::state::wire`]. The header is `NESR`, the version of the format and the version of the
//! machine, the lower byte first.

use vstd::prelude::*;

use super::{Checkpoint, InputRun, Replay, ReplayError, ReplayModel};
use crate::cartridge::RomId;
use crate::fingerprint::{put_bool, put_u16, put_u8};
use crate::input::FrameInput;
use crate::joypad::Buttons;
use crate::state::wire::{group_read_back, put_number, put_raw, Reader, Tape, Writer};

verus! {

/// The first four bytes of a replay: `NESR`.
pub const REPLAY_MAGIC: [u8; 4] = [0x4E, 0x45, 0x53, 0x52];

/// The version of the file format.
pub const REPLAY_FORMAT_VERSION: u16 = 1;

const HEADER_LEN: usize = 8;

impl InputRun {
    pub open spec fn saved(self, rest: Seq<u8>) -> Seq<u8> {
        put_u8(
            self.input.p1.raw,
            put_u8(
                self.input.p2.raw,
                put_bool(self.input.reset, put_number(self.frames as nat, rest)),
            ),
        )
    }

    pub open spec fn restored(t: Tape) -> (InputRun, Tape) {
        let (p1, t) = t.byte();
        let (p2, t) = t.byte();
        let (reset, t) = t.flag();
        let (frames, t) = t.long();
        (
            InputRun {
                input: FrameInput { p1: Buttons { raw: p1 }, p2: Buttons { raw: p2 }, reset },
                frames,
            },
            t,
        )
    }

    fn save(&self, w: &mut Writer)
        ensures
            forall|rest: Seq<u8>| #[trigger] (final(w)@ + rest) == old(w)@ + self.saved(rest),
    {
        w.byte(self.input.p1.raw);
        w.byte(self.input.p2.raw);
        w.flag(self.input.reset);
        w.long(self.frames);
    }

    fn restore(r: &mut Reader<'_>) -> (run: InputRun)
        ensures
            (run, final(r)@) == InputRun::restored(old(r)@),
    {
        let p1: u8 = r.byte();
        let p2: u8 = r.byte();
        let reset: bool = r.flag();
        let frames: u32 = r.long();
        InputRun {
            input: FrameInput { p1: Buttons { raw: p1 }, p2: Buttons { raw: p2 }, reset },
            frames,
        }
    }
}

impl Checkpoint {
    pub open spec fn saved(self, rest: Seq<u8>) -> Seq<u8> {
        put_number(self.frame as nat, put_number(self.fingerprint as nat, rest))
    }

    pub open spec fn restored(t: Tape) -> (Checkpoint, Tape) {
        let (frame, t) = t.long();
        let (fingerprint, t) = t.quad();
        (Checkpoint { frame, fingerprint }, t)
    }

    fn save(&self, w: &mut Writer)
        ensures
            forall|rest: Seq<u8>| #[trigger] (final(w)@ + rest) == old(w)@ + self.saved(rest),
    {
        w.long(self.frame);
        w.quad(self.fingerprint);
    }

    fn restore(r: &mut Reader<'_>) -> (checkpoint: Checkpoint)
        ensures
            (checkpoint, final(r)@) == Checkpoint::restored(old(r)@),
    {
        let frame: u32 = r.long();
        let fingerprint: u64 = r.quad();
        Checkpoint { frame, fingerprint }
    }
}

/// The runs one after another, then `rest`.
pub open spec fn put_runs(runs: Seq<InputRun>, rest: Seq<u8>) -> Seq<u8>
    decreases runs.len(),
{
    if runs.len() == 0 { rest } else { put_runs(runs.drop_last(), runs.last().saved(rest)) }
}

/// As many runs as are asked for, or as can be read.
pub open spec fn runs_at(t: Tape, n: nat) -> (Seq<InputRun>, Tape)
    decreases n,
{
    if n == 0 || !t.good() {
        (Seq::empty(), t)
    } else {
        let (run, u) = InputRun::restored(t);
        let (more, v) = runs_at(u, (n - 1) as nat);
        (seq![run] + more, v)
    }
}

/// The checkpoints one after another, then `rest`.
pub open spec fn put_checkpoints(checkpoints: Seq<Checkpoint>, rest: Seq<u8>) -> Seq<u8>
    decreases checkpoints.len(),
{
    if checkpoints.len() == 0 {
        rest
    } else {
        put_checkpoints(checkpoints.drop_last(), checkpoints.last().saved(rest))
    }
}

/// As many checkpoints as are asked for, or as can be read.
pub open spec fn checkpoints_at(t: Tape, n: nat) -> (Seq<Checkpoint>, Tape)
    decreases n,
{
    if n == 0 || !t.good() {
        (Seq::empty(), t)
    } else {
        let (checkpoint, u) = Checkpoint::restored(t);
        let (more, v) = checkpoints_at(u, (n - 1) as nat);
        (seq![checkpoint] + more, v)
    }
}

proof fn lemma_runs_first(runs: Seq<InputRun>, rest: Seq<u8>)
    requires
        runs.len() > 0,
    ensures
        put_runs(runs, rest) == runs[0].saved(put_runs(runs.skip(1), rest)),
    decreases runs.len(),
{
    reveal_with_fuel(put_runs, 2);
    if runs.len() == 1 {
        assert(runs.drop_last() =~= Seq::empty());
        assert(runs.skip(1) =~= Seq::empty());
    } else {
        lemma_runs_first(runs.drop_last(), runs.last().saved(rest));
        assert(runs.skip(1).drop_last() =~= runs.drop_last().skip(1));
    }
}

proof fn lemma_runs_read(runs: Seq<InputRun>, rest: Seq<u8>)
    ensures
        runs_at(Tape::at(put_runs(runs, rest)), runs.len()) == (runs, Tape::at(rest)),
    decreases runs.len(),
{
    broadcast use group_read_back;

    if runs.len() == 0 {
        assert(runs =~= Seq::empty());
    } else {
        lemma_runs_first(runs, rest);
        lemma_runs_read(runs.skip(1), rest);
        assert(seq![runs[0]] + runs.skip(1) =~= runs);
    }
}

proof fn lemma_checkpoints_first(checkpoints: Seq<Checkpoint>, rest: Seq<u8>)
    requires
        checkpoints.len() > 0,
    ensures
        put_checkpoints(checkpoints, rest) == checkpoints[0].saved(
            put_checkpoints(checkpoints.skip(1), rest),
        ),
    decreases checkpoints.len(),
{
    reveal_with_fuel(put_checkpoints, 2);
    if checkpoints.len() == 1 {
        assert(checkpoints.drop_last() =~= Seq::empty());
        assert(checkpoints.skip(1) =~= Seq::empty());
    } else {
        lemma_checkpoints_first(checkpoints.drop_last(), checkpoints.last().saved(rest));
        assert(checkpoints.skip(1).drop_last() =~= checkpoints.drop_last().skip(1));
    }
}

proof fn lemma_checkpoints_read(checkpoints: Seq<Checkpoint>, rest: Seq<u8>)
    ensures
        checkpoints_at(Tape::at(put_checkpoints(checkpoints, rest)), checkpoints.len()) == (
            checkpoints,
            Tape::at(rest),
        ),
    decreases checkpoints.len(),
{
    broadcast use group_read_back;

    if checkpoints.len() == 0 {
        assert(checkpoints =~= Seq::empty());
    } else {
        lemma_checkpoints_first(checkpoints, rest);
        lemma_checkpoints_read(checkpoints.skip(1), rest);
        assert(seq![checkpoints[0]] + checkpoints.skip(1) =~= checkpoints);
    }
}

fn save_runs(runs: &Vec<InputRun>, w: &mut Writer)
    ensures
        forall|rest: Seq<u8>| #[trigger] (final(w)@ + rest) == old(w)@ + put_runs(runs@, rest),
{
    let mut i: usize = 0;
    assert(runs@.take(0) =~= Seq::empty());
    while i < runs.len()
        invariant
            i <= runs@.len(),
            forall|rest: Seq<u8>|
                #[trigger] (w@ + rest) == old(w)@ + put_runs(runs@.take(i as int), rest),
        decreases runs@.len() - i,
    {
        let run: InputRun = runs[i];
        run.save(w);
        i = i + 1;
        assert(runs@.take(i as int).drop_last() =~= runs@.take(i - 1));
    }
    assert(runs@.take(i as int) =~= runs@);
}

fn save_checkpoints(checkpoints: &Vec<Checkpoint>, w: &mut Writer)
    ensures
        forall|rest: Seq<u8>|
            #[trigger] (final(w)@ + rest) == old(w)@ + put_checkpoints(checkpoints@, rest),
{
    let mut i: usize = 0;
    assert(checkpoints@.take(0) =~= Seq::empty());
    while i < checkpoints.len()
        invariant
            i <= checkpoints@.len(),
            forall|rest: Seq<u8>|
                #[trigger] (w@ + rest) == old(w)@ + put_checkpoints(
                    checkpoints@.take(i as int),
                    rest,
                ),
        decreases checkpoints@.len() - i,
    {
        let checkpoint: Checkpoint = checkpoints[i];
        checkpoint.save(w);
        i = i + 1;
        assert(checkpoints@.take(i as int).drop_last() =~= checkpoints@.take(i - 1));
    }
    assert(checkpoints@.take(i as int) =~= checkpoints@);
}

fn restore_runs(r: &mut Reader<'_>, n: u64) -> (runs: Vec<InputRun>)
    ensures
        (runs@, final(r)@) == runs_at(old(r)@, n as nat),
{
    let mut runs: Vec<InputRun> = Vec::new();
    let mut left: u64 = n;
    let ghost all = runs_at(r@, n as nat);
    assert(runs@ + all.0 =~= all.0);
    while left > 0 && !r.failed()
        invariant
            all.0 == runs@ + runs_at(r@, left as nat).0,
            all.1 == runs_at(r@, left as nat).1,
        decreases left,
    {
        let ghost before = runs@;
        let ghost t = r@;
        let run: InputRun = InputRun::restore(r);
        runs.push(run);
        left = left - 1;
        assert(before + runs_at(t, left as nat + 1).0 =~= runs@ + runs_at(r@, left as nat).0);
    }
    assert(runs@ + Seq::<InputRun>::empty() =~= runs@);
    runs
}

fn restore_checkpoints(r: &mut Reader<'_>, n: u64) -> (checkpoints: Vec<Checkpoint>)
    ensures
        (checkpoints@, final(r)@) == checkpoints_at(old(r)@, n as nat),
{
    let mut checkpoints: Vec<Checkpoint> = Vec::new();
    let mut left: u64 = n;
    let ghost all = checkpoints_at(r@, n as nat);
    assert(checkpoints@ + all.0 =~= all.0);
    while left > 0 && !r.failed()
        invariant
            all.0 == checkpoints@ + checkpoints_at(r@, left as nat).0,
            all.1 == checkpoints_at(r@, left as nat).1,
        decreases left,
    {
        let ghost before = checkpoints@;
        let ghost t = r@;
        let checkpoint: Checkpoint = Checkpoint::restore(r);
        checkpoints.push(checkpoint);
        left = left - 1;
        assert(before + checkpoints_at(t, left as nat + 1).0 =~= checkpoints@ + checkpoints_at(
            r@,
            left as nat,
        ).0);
    }
    assert(checkpoints@ + Seq::<Checkpoint>::empty() =~= checkpoints@);
    checkpoints
}

impl ReplayModel {
    /// What follows the header.
    pub open spec fn body(self, rest: Seq<u8>) -> Seq<u8> {
        put_number(
            self.rom_id.high() as nat,
            put_number(
                self.rom_id.low() as nat,
                put_number(
                    self.total_frames as nat,
                    put_number(
                        self.runs.len(),
                        put_runs(
                            self.runs,
                            put_number(
                                self.checkpoints.len(),
                                put_checkpoints(self.checkpoints, rest),
                            ),
                        ),
                    ),
                ),
            ),
        )
    }

    /// The file of a replay.
    pub open spec fn file(self) -> Seq<u8> {
        put_raw(
            REPLAY_MAGIC@,
            put_u16(REPLAY_FORMAT_VERSION, put_u16(self.core_version, self.body(Seq::empty()))),
        )
    }
}

/// The version of the format in a file.
pub open spec fn format_of(bytes: Seq<u8>) -> int {
    bytes[4] + 256 * bytes[5]
}

/// The replay in a file, and whether the bytes held one. What follows it is not looked at.
pub open spec fn replay_in(bytes: Seq<u8>) -> (ReplayModel, bool) {
    let t = Tape::at(bytes.skip(8));
    let (high, t) = t.quad();
    let (low, t) = t.quad();
    let (total_frames, t) = t.long();
    let (n, t) = t.quad();
    let (runs, t) = runs_at(t, n as nat);
    let (k, t) = t.quad();
    let (checkpoints, t) = checkpoints_at(t, k as nat);
    (
        ReplayModel {
            core_version: (bytes[6] + 256 * bytes[7]) as u16,
            rom_id: RomId { hash: (high * 0x1_0000_0000_0000_0000 + low) as u128 },
            total_frames,
            runs,
            checkpoints,
        },
        t.good(),
    )
}

/// Why a file is not a replay.
pub open spec fn file_refusal(bytes: Seq<u8>) -> Option<ReplayError> {
    if bytes.len() < 8 || bytes.take(4) != REPLAY_MAGIC@ {
        Some(ReplayError::NotAReplay)
    } else if format_of(bytes) != REPLAY_FORMAT_VERSION {
        Some(
            ReplayError::FormatMismatch {
                expected: REPLAY_FORMAT_VERSION,
                found: format_of(bytes) as u16,
            },
        )
    } else if !replay_in(bytes).1 || !replay_in(bytes).0.consistent() {
        Some(ReplayError::Malformed)
    } else {
        None
    }
}

impl Replay {
    /// The file of the replay.
    pub fn encode(&self) -> (bytes: Vec<u8>)
        ensures
            bytes@ == self@.file(),
    {
        let mut w: Writer = Writer::new();
        w.raw(REPLAY_MAGIC.as_slice());
        w.byte((REPLAY_FORMAT_VERSION % 256) as u8);
        w.byte((REPLAY_FORMAT_VERSION / 256) as u8);
        w.byte((self.core_version % 256) as u8);
        w.byte((self.core_version / 256) as u8);
        w.quad((self.rom_id.hash / 0x1_0000_0000_0000_0000) as u64);
        w.quad((self.rom_id.hash % 0x1_0000_0000_0000_0000) as u64);
        w.long(self.total_frames);
        w.quad(self.runs.len() as u64);
        save_runs(&self.runs, &mut w);
        w.quad(self.checkpoints.len() as u64);
        save_checkpoints(&self.checkpoints, &mut w);
        assert(w@ + Seq::<u8>::empty() =~= w@);
        assert(w@ =~= self@.file());
        w.bytes
    }

    /// Reads the file of a replay.
    pub fn decode(bytes: &[u8]) -> (result: Result<Self, ReplayError>)
        ensures
            match file_refusal(bytes@) {
                Some(error) => result == Err::<Replay, ReplayError>(error),
                None => result is Ok && result->Ok_0@ == replay_in(bytes@).0
                    && result->Ok_0@.consistent(),
            },
    {
        if bytes.len() < HEADER_LEN {
            return Err(ReplayError::NotAReplay);
        }
        let known: bool = bytes[0] == REPLAY_MAGIC[0] && bytes[1] == REPLAY_MAGIC[1] && bytes[2]
            == REPLAY_MAGIC[2] && bytes[3] == REPLAY_MAGIC[3];
        assert(known == (bytes@.take(4) == REPLAY_MAGIC@)) by {
            if known {
                assert(bytes@.take(4) =~= REPLAY_MAGIC@);
            } else {
                assert(bytes@.take(4)[0] == bytes@[0] && bytes@.take(4)[1] == bytes@[1]
                    && bytes@.take(4)[2] == bytes@[2] && bytes@.take(4)[3] == bytes@[3]);
            }
        }
        if !known {
            return Err(ReplayError::NotAReplay);
        }
        let found: u16 = bytes[4] as u16 + 256 * bytes[5] as u16;
        if found != REPLAY_FORMAT_VERSION {
            return Err(
                ReplayError::FormatMismatch { expected: REPLAY_FORMAT_VERSION, found },
            );
        }
        let core_version: u16 = bytes[6] as u16 + 256 * bytes[7] as u16;
        let body: &[u8] = vstd::slice::slice_subrange(bytes, HEADER_LEN, bytes.len());
        assert(body@ =~= bytes@.skip(8));
        let mut r: Reader<'_> = Reader::new(body);
        let high: u64 = r.quad();
        let low: u64 = r.quad();
        let total_frames: u32 = r.long();
        let n: u64 = r.quad();
        let runs: Vec<InputRun> = restore_runs(&mut r, n);
        let k: u64 = r.quad();
        let checkpoints: Vec<Checkpoint> = restore_checkpoints(&mut r, k);
        if r.failed() {
            return Err(ReplayError::Malformed);
        }
        let hash: u128 = high as u128 * 0x1_0000_0000_0000_0000 + low as u128;
        let replay: Replay = Replay {
            core_version,
            rom_id: RomId { hash },
            total_frames,
            runs,
            checkpoints,
        };
        if !replay.is_consistent() {
            return Err(ReplayError::Malformed);
        }
        Ok(replay)
    }
}

/// The file of a consistent replay is read back as that replay.
pub proof fn law_a_replay_file_is_read_back(replay: ReplayModel)
    requires
        replay.consistent(),
        replay.runs.len() <= u64::MAX,
    ensures
        file_refusal(replay.file()) is None,
        replay_in(replay.file()).0 == replay,
{
    broadcast use group_read_back;

    let bytes = replay.file();
    assert(bytes.take(4) =~= REPLAY_MAGIC@);
    assert(bytes.skip(8) =~= replay.body(Seq::empty()));
    lemma_runs_read(
        replay.runs,
        put_number(replay.checkpoints.len(), put_checkpoints(replay.checkpoints, Seq::empty())),
    );
    lemma_checkpoints_read(replay.checkpoints, Seq::empty());
    let t = Tape::at(bytes.skip(8));
    assert(replay_in(bytes).0 == replay);
}

} // verus!
