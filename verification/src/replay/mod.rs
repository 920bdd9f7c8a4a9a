//! Replays: the inputs of a run from power-on, and fingerprints to check it by.
//!
//! A replay holds no save state. It begins with a machine just switched on, and everything that
//! follows is in its inputs: the buttons of each frame, and the resets. Equal inputs in a row are
//! kept once, with their number.
//!
//! A checkpoint is the fingerprint of the machine after so many frames. There is one before the
//! first frame, one every so many frames, and one at the end. Frames are counted from 1: frame `n`
//! is over when the machine ran `n` times.

use vstd::prelude::*;
use vstd::string::*;

use crate::cartridge::RomId;
use crate::error::RomError;
use crate::fingerprint::{xxh3_128_of, xxh3_64_of};
use crate::input::FrameInput;
use crate::nes::{boot_refusal, Nes, NesModel};
use crate::state::CORE_BEHAVIOR_VERSION;
use crate::text::{dec, low_hex, push_dec, push_low_hex};

pub mod format;

verus! {

/// How many frames lie between two checkpoints, unless someone asks for another number.
pub const DEFAULT_CHECKPOINT_INTERVAL: u32 = 60;

/// The most frames that a replay can hold.
pub const MAX_REPLAY_FRAMES: u32 = 0xFFFF_FFFE;

/// The same input, in so many frames in a row.
#[derive(Debug, Clone, Copy, PartialEq, Eq, Structural)]
pub struct InputRun {
    pub input: FrameInput,
    pub frames: u32,
}

/// The fingerprint of the machine after so many frames.
#[derive(Debug, Clone, Copy, PartialEq, Eq, Structural)]
pub struct Checkpoint {
    pub frame: u32,
    pub fingerprint: u64,
}

/// A replay.
#[derive(Debug, Clone)]
pub struct Replay {
    /// The version of the machine that it was recorded with.
    pub core_version: u16,
    /// The ROM that it was recorded with.
    pub rom_id: RomId,
    pub total_frames: u32,
    pub runs: Vec<InputRun>,
    pub checkpoints: Vec<Checkpoint>,
}

/// A replay as a value.
pub struct ReplayModel {
    pub core_version: u16,
    pub rom_id: RomId,
    pub total_frames: u32,
    pub runs: Seq<InputRun>,
    pub checkpoints: Seq<Checkpoint>,
}

impl View for Replay {
    type V = ReplayModel;

    open spec fn view(&self) -> ReplayModel {
        ReplayModel {
            core_version: self.core_version,
            rom_id: self.rom_id,
            total_frames: self.total_frames,
            runs: self.runs@,
            checkpoints: self.checkpoints@,
        }
    }
}

/// Why a replay is not recorded, read or played.
#[allow(inconsistent_fields)]
#[derive(Debug, Clone, Copy, PartialEq, Eq, Structural)]
pub enum ReplayError {
    /// The bytes do not begin like a replay.
    NotAReplay,
    /// The file has another format.
    FormatMismatch { expected: u16, found: u16 },
    /// The file ends too early, or its numbers contradict one another.
    Malformed,
    /// It was recorded with a machine that behaves differently.
    CoreMismatch { expected: u16, found: u16 },
    /// It was recorded with another ROM.
    RomMismatch { expected: RomId, found: RomId },
    /// The machine already ran, so it is not where replays begin.
    NotAtPowerOn { frames: u64 },
    /// The machine just switched on is not the one that was recorded.
    StartMismatch { expected: u64, actual: u64 },
    /// Checkpoints cannot follow every zero frames.
    ZeroInterval,
    /// The machine ran other frames than were recorded.
    FrameMismatch { expected: u64, actual: u64 },
    /// More frames than a replay can count.
    TooLong,
}

impl ReplayError {
    /// The message for the user.
    pub open spec fn text(self) -> Seq<char> {
        match self {
            ReplayError::NotAReplay => "不是 replay 檔案"@,
            ReplayError::FormatMismatch { expected, found } => "replay 格式版本不符（目前 "@ + dec(
                expected as nat,
            ) + "，檔案 "@ + dec(found as nat) + "）"@,
            ReplayError::Malformed => "replay 資料已損毀"@,
            ReplayError::CoreMismatch { expected, found } => "核心版本不符（目前 "@ + dec(
                expected as nat,
            ) + "，replay "@ + dec(found as nat) + "）"@,
            ReplayError::RomMismatch { expected, found } => "replay 屬於另一份 ROM（目前 "@
                + low_hex(expected.high() as nat, 16) + "，replay "@ + low_hex(
                found.high() as nat,
                16,
            ) + "）"@,
            ReplayError::NotAtPowerOn { frames } => "必須從開機狀態開始（已經執行了 "@ + dec(
                frames as nat,
            ) + " 幀）"@,
            ReplayError::StartMismatch { expected, actual } => "開機狀態的指紋不符（預期 0x"@
                + low_hex(expected as nat, 16) + "，實際 0x"@ + low_hex(actual as nat, 16) + "）"@,
            ReplayError::ZeroInterval => "檢查點間隔不能是 0"@,
            ReplayError::FrameMismatch { expected, actual } => "幀數對不上（預期 "@ + dec(
                expected as nat,
            ) + "，實際 "@ + dec(actual as nat) + "）"@,
            ReplayError::TooLong => "超過 replay 的幀數上限"@,
        }
    }

    pub fn message(&self) -> (message: String)
        ensures
            message@ == self.text(),
    {
        match self {
            ReplayError::NotAReplay => "不是 replay 檔案".to_owned(),
            ReplayError::FormatMismatch { expected, found } => between(
                "replay 格式版本不符（目前 ",
                *expected as u64,
                "，檔案 ",
                *found as u64,
                "）",
            ),
            ReplayError::Malformed => "replay 資料已損毀".to_owned(),
            ReplayError::CoreMismatch { expected, found } => between(
                "核心版本不符（目前 ",
                *expected as u64,
                "，replay ",
                *found as u64,
                "）",
            ),
            ReplayError::RomMismatch { expected, found } => {
                let mut text: String = "replay 屬於另一份 ROM（目前 ".to_owned();
                text.append(expected.short().as_str());
                text.append("，replay ");
                text.append(found.short().as_str());
                text.append("）");
                text
            },
            ReplayError::NotAtPowerOn { frames } => {
                let mut text: String = "必須從開機狀態開始（已經執行了 ".to_owned();
                push_dec(&mut text, *frames);
                text.append(" 幀）");
                text
            },
            ReplayError::StartMismatch { expected, actual } => {
                let mut text: String = "開機狀態的指紋不符（預期 0x".to_owned();
                push_low_hex(&mut text, *expected, 16);
                text.append("，實際 0x");
                push_low_hex(&mut text, *actual, 16);
                text.append("）");
                text
            },
            ReplayError::ZeroInterval => "檢查點間隔不能是 0".to_owned(),
            ReplayError::FrameMismatch { expected, actual } => between(
                "幀數對不上（預期 ",
                *expected,
                "，實際 ",
                *actual,
                "）",
            ),
            ReplayError::TooLong => "超過 replay 的幀數上限".to_owned(),
        }
    }
}

/// Two decimal numbers in a sentence.
fn between(before: &str, a: u64, middle: &str, b: u64, after: &str) -> (text: String)
    ensures
        text@ == before@ + dec(a as nat) + middle@ + dec(b as nat) + after@,
{
    let mut text: String = before.to_owned();
    push_dec(&mut text, a);
    text.append(middle);
    push_dec(&mut text, b);
    text.append(after);
    text
}

/// A checkpoint that the machine did not meet.
#[derive(Debug, Clone, Copy, PartialEq, Eq, Structural)]
pub struct ReplayMismatch {
    /// The frame of the checkpoint.
    pub frame: u32,
    /// The last checkpoint before it that was met.
    pub last_good_frame: Option<u32>,
    pub expected: u64,
    pub actual: u64,
}

impl ReplayMismatch {
    /// The first of the frames in which the run may have gone astray.
    pub open spec fn first_suspect(self) -> int {
        match self.last_good_frame {
            Some(good) => if good < self.frame { good + 1 } else { self.frame as int },
            None => 0,
        }
    }

    /// The first of the frames in which the run may have gone astray.
    pub fn suspect_from(&self) -> (first: u32)
        ensures
            first == self.first_suspect(),
    {
        match self.last_good_frame {
            Some(good) => if good < self.frame {
                good + 1
            } else {
                self.frame
            },
            None => 0,
        }
    }

    /// The frames in which the run may have gone astray: those after the last checkpoint that was
    /// met, up to this one.
    pub fn suspect_frames(&self) -> (frames: core::ops::RangeInclusive<u32>)
        ensures
            frames@.start == self.first_suspect(),
            frames@.end == self.frame,
            !frames@.exhausted,
    {
        core::ops::RangeInclusive::new(self.suspect_from(), self.frame)
    }

    /// The message for the user.
    pub open spec fn text(self) -> Seq<char> {
        "第 "@ + dec(self.frame as nat) + " 幀的檢查點不符：分歧發生在第 "@ + dec(
            self.first_suspect() as nat,
        ) + "–"@ + dec(self.frame as nat) + " 幀之間"@
    }

    pub fn message(&self) -> (message: String)
        ensures
            message@ == self.text(),
    {
        let mut text: String = "第 ".to_owned();
        push_dec(&mut text, self.frame as u64);
        text.append(" 幀的檢查點不符：分歧發生在第 ");
        push_dec(&mut text, self.suspect_from() as u64);
        text.append("–");
        push_dec(&mut text, self.frame as u64);
        text.append(" 幀之間");
        text
    }
}

/// The inputs, frame by frame.
pub open spec fn expanded(runs: Seq<InputRun>) -> Seq<FrameInput>
    decreases runs.len(),
{
    if runs.len() == 0 {
        Seq::empty()
    } else {
        expanded(runs.drop_last()) + Seq::new(
            runs.last().frames as nat,
            |i: int| runs.last().input,
        )
    }
}

/// How many frames the runs hold.
pub open spec fn frames_in(runs: Seq<InputRun>) -> nat
    decreases runs.len(),
{
    if runs.len() == 0 { 0 } else { frames_in(runs.drop_last()) + runs.last().frames as nat }
}

/// The runs with one more input.
pub open spec fn joined(runs: Seq<InputRun>, input: FrameInput) -> Seq<InputRun> {
    if runs.len() > 0 && runs.last().input == input && runs.last().frames < u32::MAX {
        runs.drop_last().push(InputRun { input, frames: (runs.last().frames + 1) as u32 })
    } else {
        runs.push(InputRun { input, frames: 1 })
    }
}

/// The runs of a sequence of inputs.
pub open spec fn compressed(inputs: Seq<FrameInput>) -> Seq<InputRun>
    decreases inputs.len(),
{
    if inputs.len() == 0 {
        Seq::empty()
    } else {
        joined(compressed(inputs.drop_last()), inputs.last())
    }
}

/// No run is empty.
pub open spec fn runs_count(runs: Seq<InputRun>) -> bool {
    forall|i: int| 0 <= i < runs.len() ==> (#[trigger] runs[i]).frames > 0
}

pub proof fn lemma_expanded_len(runs: Seq<InputRun>)
    ensures
        expanded(runs).len() == frames_in(runs),
    decreases runs.len(),
{
    if runs.len() > 0 {
        lemma_expanded_len(runs.drop_last());
    }
}

pub proof fn lemma_joined(runs: Seq<InputRun>, input: FrameInput)
    ensures
        expanded(joined(runs, input)) == expanded(runs).push(input),
        frames_in(joined(runs, input)) == frames_in(runs) + 1,
        runs_count(runs) ==> runs_count(joined(runs, input)),
{
    let more = joined(runs, input);
    assert(expanded(more) == expanded(more.drop_last()) + Seq::new(
        more.last().frames as nat,
        |i: int| more.last().input,
    ));
    if runs.len() > 0 && runs.last().input == input && runs.last().frames < u32::MAX {
        assert(more.drop_last() =~= runs.drop_last());
    } else {
        assert(more.drop_last() =~= runs);
    }
    assert(expanded(more) =~= expanded(runs).push(input));
}

/// What runs hold is not changed by compressing it again.
pub proof fn lemma_compressed(inputs: Seq<FrameInput>)
    ensures
        expanded(compressed(inputs)) == inputs,
        runs_count(compressed(inputs)),
    decreases inputs.len(),
{
    if inputs.len() > 0 {
        lemma_compressed(inputs.drop_last());
        lemma_joined(compressed(inputs.drop_last()), inputs.last());
        assert(inputs.drop_last().push(inputs.last()) =~= inputs);
    }
}

/// Where the runs before the `k`th end, and what follows there.
proof fn lemma_run_at(runs: Seq<InputRun>, k: int, used: int)
    requires
        0 <= k < runs.len(),
        0 <= used < runs[k].frames,
    ensures
        frames_in(runs.take(k)) + used < frames_in(runs),
        expanded(runs)[frames_in(runs.take(k)) + used] == runs[k].input,
        frames_in(runs.take(k + 1)) == frames_in(runs.take(k)) + runs[k].frames,
    decreases runs.len() - k,
{
    lemma_prefix(runs, k + 1);
    lemma_expanded_len(runs);
    lemma_expanded_len(runs.take(k));
    lemma_expanded_len(runs.take(k + 1));
    assert(runs.take(k + 1).drop_last() =~= runs.take(k));
    assert(expanded(runs.take(k + 1)).len() <= expanded(runs).len());
}

proof fn lemma_prefix(runs: Seq<InputRun>, k: int)
    requires
        0 <= k <= runs.len(),
    ensures
        expanded(runs.take(k)).len() <= expanded(runs).len(),
        forall|i: int|
            0 <= i < expanded(runs.take(k)).len() ==> #[trigger] expanded(runs)[i] == expanded(
                runs.take(k),
            )[i],
    decreases runs.len(),
{
    if k == runs.len() {
        assert(runs.take(k) =~= runs);
    } else {
        lemma_prefix(runs.drop_last(), k);
        assert(runs.drop_last().take(k) =~= runs.take(k));
    }
}

/// Adds one input to the runs.
fn push_input(runs: &mut Vec<InputRun>, input: FrameInput)
    ensures
        final(runs)@ == joined(old(runs)@, input),
{
    let n: usize = runs.len();
    if n > 0 && runs[n - 1].input == input && runs[n - 1].frames < u32::MAX {
        let frames: u32 = runs[n - 1].frames + 1;
        runs.set(n - 1, InputRun { input, frames });
        assert(runs@ =~= joined(old(runs)@, input));
    } else {
        runs.push(InputRun { input, frames: 1 });
    }
}

impl ReplayModel {
    /// The inputs, frame by frame.
    pub open spec fn inputs(self) -> Seq<FrameInput> {
        expanded(self.runs)
    }

    /// The numbers agree: no run is empty, the runs hold as many frames as the replay says, and
    /// the checkpoints lead in order from power-on to the end.
    pub open spec fn consistent(self) -> bool {
        let n = self.checkpoints.len();
        &&& runs_count(self.runs)
        &&& frames_in(self.runs) == self.total_frames
        &&& 0 < n <= u32::MAX
        &&& self.checkpoints[0].frame == 0
        &&& self.checkpoints[n - 1].frame == self.total_frames
        &&& in_order(self.checkpoints)
    }
}

/// Later checkpoints belong to later frames.
pub open spec fn in_order(checkpoints: Seq<Checkpoint>) -> bool {
    forall|i: int, j: int|
        0 <= i < j < checkpoints.len() ==> (#[trigger] checkpoints[i]).frame < (
        #[trigger] checkpoints[j]).frame
}

/// Whether later checkpoints belong to later frames.
fn is_in_order(checkpoints: &Vec<Checkpoint>) -> (yes: bool)
    ensures
        yes == in_order(checkpoints@),
{
    let mut i: usize = 1;
    while i < checkpoints.len()
        invariant
            1 <= i,
            forall|j: int, k: int|
                0 <= j < k < i && k < checkpoints@.len() ==> (#[trigger] checkpoints@[j]).frame < (
                #[trigger] checkpoints@[k]).frame,
        decreases checkpoints@.len() - i,
    {
        if checkpoints[i - 1].frame >= checkpoints[i].frame {
            assert(!in_order(checkpoints@)) by {
                assert(checkpoints@[i - 1].frame >= checkpoints@[i as int].frame);
            }
            return false;
        }
        i = i + 1;
    }
    true
}

impl Replay {
    /// The runs of a sequence of inputs: they hold the same inputs.
    pub fn compress(inputs: &[FrameInput]) -> (runs: Vec<InputRun>)
        ensures
            runs@ == compressed(inputs@),
            expanded(runs@) == inputs@,
    {
        let mut runs: Vec<InputRun> = Vec::new();
        let mut i: usize = 0;
        while i < inputs.len()
            invariant
                i <= inputs@.len(),
                runs@ == compressed(inputs@.take(i as int)),
            decreases inputs@.len() - i,
        {
            push_input(&mut runs, inputs[i]);
            i = i + 1;
            assert(inputs@.take(i as int).drop_last() =~= inputs@.take(i - 1));
        }
        proof {
            assert(inputs@.take(i as int) =~= inputs@);
            lemma_compressed(inputs@);
        }
        runs
    }

    /// The inputs, frame by frame.
    pub fn inputs(&self) -> (inputs: Vec<FrameInput>)
        ensures
            inputs@ == self@.inputs(),
    {
        let mut inputs: Vec<FrameInput> = Vec::new();
        let mut i: usize = 0;
        while i < self.runs.len()
            invariant
                i <= self.runs@.len(),
                inputs@ == expanded(self.runs@.take(i as int)),
            decreases self.runs@.len() - i,
        {
            let run: InputRun = self.runs[i];
            let ghost before = inputs@;
            let mut k: u32 = 0;
            while k < run.frames
                invariant
                    k <= run.frames,
                    inputs@ == before + Seq::new(k as nat, |j: int| run.input),
                decreases run.frames - k,
            {
                inputs.push(run.input);
                k = k + 1;
                assert(inputs@ =~= before + Seq::new(k as nat, |j: int| run.input));
            }
            i = i + 1;
            assert(self.runs@.take(i as int).drop_last() =~= self.runs@.take(i - 1));
        }
        assert(self.runs@.take(i as int) =~= self.runs@);
        inputs
    }

    /// Whether the numbers agree.
    pub fn is_consistent(&self) -> (yes: bool)
        ensures
            yes == self@.consistent(),
    {
        let mut sum: u32 = 0;
        let mut i: usize = 0;
        while i < self.runs.len()
            invariant
                i <= self.runs@.len(),
                runs_count(self.runs@.take(i as int)),
                sum == frames_in(self.runs@.take(i as int)),
            decreases self.runs@.len() - i,
        {
            proof {
                lemma_prefix(self.runs@, i + 1);
                lemma_expanded_len(self.runs@);
                lemma_expanded_len(self.runs@.take(i + 1));
                assert(self.runs@.take(i + 1).drop_last() =~= self.runs@.take(i as int));
            }
            let frames: u32 = self.runs[i].frames;
            if frames == 0 || frames > u32::MAX - sum {
                assert(self.runs@[i as int].frames == frames);
                return false;
            }
            sum = sum + frames;
            i = i + 1;
            assert forall|j: int| 0 <= j < i implies (#[trigger] self.runs@.take(
                i as int,
            )[j]).frames > 0 by {
                if j < i - 1 {
                    assert(self.runs@.take(i as int)[j] == self.runs@.take(i - 1)[j]);
                }
            }
        }
        assert(self.runs@.take(i as int) =~= self.runs@);
        let n: usize = self.checkpoints.len();
        if sum != self.total_frames || n == 0 || n as u64 > u32::MAX as u64 {
            return false;
        }
        self.checkpoints[0].frame == 0 && self.checkpoints[n - 1].frame == self.total_frames
            && is_in_order(&self.checkpoints)
    }
}

/// Records a run.
#[derive(Debug, Clone)]
pub struct ReplayRecorder {
    pub rom_id: RomId,
    pub interval: u32,
    pub frames: u32,
    pub runs: Vec<InputRun>,
    pub checkpoints: Vec<Checkpoint>,
}

/// A recording as a value.
pub struct RecorderModel {
    pub rom_id: RomId,
    pub interval: u32,
    pub frames: u32,
    pub runs: Seq<InputRun>,
    pub checkpoints: Seq<Checkpoint>,
}

impl View for ReplayRecorder {
    type V = RecorderModel;

    open spec fn view(&self) -> RecorderModel {
        RecorderModel {
            rom_id: self.rom_id,
            interval: self.interval,
            frames: self.frames,
            runs: self.runs@,
            checkpoints: self.checkpoints@,
        }
    }
}

impl RecorderModel {
    /// A recording of nothing yet.
    pub open spec fn begun(rom_id: RomId, interval: u32, fingerprint: u64) -> RecorderModel {
        RecorderModel {
            rom_id,
            interval,
            frames: 0,
            runs: Seq::empty(),
            checkpoints: seq![Checkpoint { frame: 0, fingerprint }],
        }
    }

    /// The recording after one more frame.
    pub open spec fn recorded(self, input: FrameInput, fingerprint: u64) -> RecorderModel {
        let frame = (self.frames + 1) as u32;
        RecorderModel {
            frames: frame,
            runs: joined(self.runs, input),
            checkpoints: if frame % self.interval == 0 {
                self.checkpoints.push(Checkpoint { frame, fingerprint })
            } else {
                self.checkpoints
            },
            ..self
        }
    }

    /// The replay of what was recorded.
    pub open spec fn finished(self, fingerprint: u64) -> ReplayModel {
        ReplayModel {
            core_version: CORE_BEHAVIOR_VERSION,
            rom_id: self.rom_id,
            total_frames: self.frames,
            runs: self.runs,
            checkpoints: if self.checkpoints.last().frame == self.frames {
                self.checkpoints
            } else {
                self.checkpoints.push(Checkpoint { frame: self.frames, fingerprint })
            },
        }
    }

    pub open spec fn wf(self) -> bool {
        self.interval > 0 && self.checkpoints.len() > 0
    }
}

/// Why a recording does not begin.
pub open spec fn recording_refusal(m: NesModel, interval: u32) -> Option<ReplayError> {
    if interval == 0 {
        Some(ReplayError::ZeroInterval)
    } else if m.frame_count != 0 {
        Some(ReplayError::NotAtPowerOn { frames: m.frame_count })
    } else {
        None
    }
}

impl RecorderModel {
    /// Why a frame is not recorded: the machine ran another number of frames, or there are too
    /// many.
    pub open spec fn frame_refusal(self, m: NesModel) -> Option<ReplayError> {
        if self.frames >= MAX_REPLAY_FRAMES {
            Some(ReplayError::TooLong)
        } else if m.frame_count != self.frames + 1 {
            Some(
                ReplayError::FrameMismatch {
                    expected: (self.frames + 1) as u64,
                    actual: m.frame_count,
                },
            )
        } else {
            None
        }
    }

    /// Why a recording does not end well: the machine ran another number of frames.
    pub open spec fn end_refusal(self, m: NesModel) -> Option<ReplayError> {
        if m.frame_count != self.frames {
            Some(
                ReplayError::FrameMismatch {
                    expected: self.frames as u64,
                    actual: m.frame_count,
                },
            )
        } else {
            None
        }
    }
}

impl ReplayRecorder {
    /// Begins to record a machine that was just switched on.
    pub fn new(nes: &Nes, interval: u32) -> (result: Result<Self, ReplayError>)
        ensures
            match recording_refusal(nes@, interval) {
                Some(error) => result == Err::<ReplayRecorder, ReplayError>(error),
                None => result is Ok && result->Ok_0@ == RecorderModel::begun(
                    nes@.cpu.bus.cart().rom_id,
                    interval,
                    xxh3_64_of(nes@.stamp()),
                ),
            },
    {
        if interval == 0 {
            return Err(ReplayError::ZeroInterval);
        }
        if nes.frame_count() != 0 {
            return Err(ReplayError::NotAtPowerOn { frames: nes.frame_count() });
        }
        let first: Checkpoint = Checkpoint {
            frame: 0,
            fingerprint: nes.behavior_fingerprint(),
        };
        let mut checkpoints: Vec<Checkpoint> = Vec::new();
        checkpoints.push(first);
        let recorder: ReplayRecorder = ReplayRecorder {
            rom_id: nes.rom_id(),
            interval,
            frames: 0,
            runs: Vec::new(),
            checkpoints,
        };
        assert(recorder@.checkpoints =~= seq![first]);
        Ok(recorder)
    }

    /// How many frames are recorded.
    pub fn frames(&self) -> (frames: u32)
        ensures
            frames == self@.frames,
    {
        self.frames
    }

    /// Records the frame that the machine just ran with this input. A frame that is refused
    /// leaves the recording as it was.
    pub fn record_frame(&mut self, input: FrameInput, nes: &Nes) -> (result: Result<
        (),
        ReplayError,
    >)
        requires
            old(self)@.wf(),
        ensures
            match old(self)@.frame_refusal(nes@) {
                Some(error) => result == Err::<(), ReplayError>(error) && final(self)@ == old(self)@,
                None => result is Ok && final(self)@ == old(self)@.recorded(
                    input,
                    xxh3_64_of(nes@.stamp()),
                ),
            },
            final(self)@.wf(),
    {
        if self.frames >= MAX_REPLAY_FRAMES {
            return Err(ReplayError::TooLong);
        }
        let frame: u32 = self.frames + 1;
        if nes.frame_count() != frame as u64 {
            return Err(
                ReplayError::FrameMismatch { expected: frame as u64, actual: nes.frame_count() },
            );
        }
        self.frames = frame;
        push_input(&mut self.runs, input);
        if frame % self.interval == 0 {
            let fingerprint: u64 = nes.behavior_fingerprint();
            self.checkpoints.push(Checkpoint { frame, fingerprint });
        }
        Ok(())
    }

    /// Ends the recording.
    pub fn finish(self, nes: &Nes) -> (result: Result<Replay, ReplayError>)
        requires
            self@.wf(),
        ensures
            match self@.end_refusal(nes@) {
                Some(error) => result == Err::<Replay, ReplayError>(error),
                None => result is Ok && result->Ok_0@ == self@.finished(
                    xxh3_64_of(nes@.stamp()),
                ),
            },
    {
        if nes.frame_count() != self.frames as u64 {
            return Err(
                ReplayError::FrameMismatch {
                    expected: self.frames as u64,
                    actual: nes.frame_count(),
                },
            );
        }
        let frame: u32 = self.frames;
        let mut checkpoints: Vec<Checkpoint> = self.checkpoints;
        let n: usize = checkpoints.len();
        if checkpoints[n - 1].frame != frame {
            let fingerprint: u64 = nes.behavior_fingerprint();
            checkpoints.push(Checkpoint { frame, fingerprint });
        }
        Ok(
            Replay {
                core_version: CORE_BEHAVIOR_VERSION,
                rom_id: self.rom_id,
                total_frames: frame,
                runs: self.runs,
                checkpoints,
            },
        )
    }
}

/// Plays a replay and checks it.
#[derive(Debug, Clone)]
pub struct ReplayPlayer {
    replay: Replay,
    frame: u32,
    /// The run that the next input is from, and how many of its frames were played.
    run: usize,
    used: u32,
    /// The checkpoint that is next.
    next: usize,
    verified: u32,
    last_good: Option<u32>,
}

/// A player as a value.
pub struct PlayerModel {
    pub replay: ReplayModel,
    /// How many frames were played.
    pub frame: u32,
    /// How many checkpoints were looked at, and how many of them were met.
    pub next: nat,
    pub verified: u32,
    /// The last checkpoint that was met.
    pub last_good: Option<u32>,
}

impl View for ReplayPlayer {
    type V = PlayerModel;

    closed spec fn view(&self) -> PlayerModel {
        PlayerModel {
            replay: self.replay@,
            frame: self.frame,
            next: self.next as nat,
            verified: self.verified,
            last_good: self.last_good,
        }
    }
}

/// Why a replay is not played on the machine `m`.
pub open spec fn playing_refusal(replay: ReplayModel, m: NesModel) -> Option<ReplayError> {
    let rom_id = m.cpu.bus.cart().rom_id;
    let actual = xxh3_64_of(m.stamp());
    if !replay.consistent() {
        Some(ReplayError::Malformed)
    } else if replay.core_version != CORE_BEHAVIOR_VERSION {
        Some(
            ReplayError::CoreMismatch {
                expected: CORE_BEHAVIOR_VERSION,
                found: replay.core_version,
            },
        )
    } else if replay.rom_id != rom_id {
        Some(ReplayError::RomMismatch { expected: rom_id, found: replay.rom_id })
    } else if m.frame_count != 0 {
        Some(ReplayError::NotAtPowerOn { frames: m.frame_count })
    } else if replay.checkpoints[0].fingerprint != actual {
        Some(
            ReplayError::StartMismatch { expected: replay.checkpoints[0].fingerprint, actual },
        )
    } else {
        None
    }
}

impl PlayerModel {
    /// A player that played nothing yet. The checkpoint of the machine just switched on is met.
    pub open spec fn started(replay: ReplayModel) -> PlayerModel {
        PlayerModel { replay, frame: 0, next: 1, verified: 1, last_good: Some(0) }
    }

    /// The checkpoints before `next` are those of the frames that were played.
    pub open spec fn valid(self) -> bool {
        let checkpoints = self.replay.checkpoints;
        &&& self.replay.consistent()
        &&& self.frame <= self.replay.total_frames
        &&& 0 < self.next <= checkpoints.len()
        &&& checkpoints[self.next - 1].frame <= self.frame
        &&& self.next < checkpoints.len() ==> self.frame < checkpoints[self.next as int].frame
        &&& self.verified <= self.next
    }

    /// Everything was played.
    pub open spec fn over(self) -> bool {
        self.frame == self.replay.total_frames
    }

    /// The input of the next frame.
    pub open spec fn input(self) -> FrameInput {
        self.replay.inputs()[self.frame as int]
    }

    /// The checkpoint after the next frame, if there is one.
    pub open spec fn due(self) -> Option<Checkpoint> {
        if self.next < self.replay.checkpoints.len() && self.replay.checkpoints[self.next as int].frame
            == self.frame + 1 {
            Some(self.replay.checkpoints[self.next as int])
        } else {
            None
        }
    }

    /// The player after a frame that left the machine with this fingerprint.
    pub open spec fn played(self, actual: u64) -> PlayerModel {
        let frame = (self.frame + 1) as u32;
        match self.due() {
            None => PlayerModel { frame, ..self },
            Some(checkpoint) => if checkpoint.fingerprint == actual {
                PlayerModel {
                    frame,
                    next: self.next + 1,
                    verified: (self.verified + 1) as u32,
                    last_good: Some(frame),
                    ..self
                }
            } else {
                PlayerModel { frame, next: self.next + 1, ..self }
            },
        }
    }

    /// The mismatch of a frame that left the machine with this fingerprint.
    pub open spec fn mismatch(self, actual: u64) -> Option<ReplayMismatch> {
        match self.due() {
            Some(checkpoint) => if checkpoint.fingerprint != actual {
                Some(
                    ReplayMismatch {
                        frame: checkpoint.frame,
                        last_good_frame: self.last_good,
                        expected: checkpoint.fingerprint,
                        actual,
                    },
                )
            } else {
                None
            },
            None => None,
        }
    }
}

impl ReplayPlayer {
    /// The player is where its numbers say.
    pub closed spec fn wf(self) -> bool {
        let runs = self.replay.runs@;
        &&& self@.valid()
        &&& self.run <= runs.len()
        &&& self.frame == frames_in(runs.take(self.run as int)) + self.used
        &&& if self.run < runs.len() {
            self.used < runs[self.run as int].frames
        } else {
            self.used == 0
        }
    }

    /// Begins to play on a machine that was just switched on.
    pub fn new(replay: Replay, nes: &Nes) -> (result: Result<Self, ReplayError>)
        ensures
            match playing_refusal(replay@, nes@) {
                Some(error) => result == Err::<ReplayPlayer, ReplayError>(error),
                None => result is Ok && result->Ok_0@ == PlayerModel::started(replay@)
                    && result->Ok_0.wf() && result->Ok_0@.valid(),
            },
    {
        if !replay.is_consistent() {
            return Err(ReplayError::Malformed);
        }
        if replay.core_version != CORE_BEHAVIOR_VERSION {
            return Err(
                ReplayError::CoreMismatch {
                    expected: CORE_BEHAVIOR_VERSION,
                    found: replay.core_version,
                },
            );
        }
        let rom_id: RomId = nes.rom_id();
        if replay.rom_id != rom_id {
            return Err(ReplayError::RomMismatch { expected: rom_id, found: replay.rom_id });
        }
        if nes.frame_count() != 0 {
            return Err(ReplayError::NotAtPowerOn { frames: nes.frame_count() });
        }
        let actual: u64 = nes.behavior_fingerprint();
        let expected: u64 = replay.checkpoints[0].fingerprint;
        if expected != actual {
            return Err(ReplayError::StartMismatch { expected, actual });
        }
        let player: ReplayPlayer = ReplayPlayer {
            replay,
            frame: 0,
            run: 0,
            used: 0,
            next: 1,
            verified: 1,
            last_good: Some(0),
        };
        proof {
            let runs = player.replay.runs@;
            assert(runs.take(0) =~= Seq::empty());
            if runs.len() > 0 {
                assert(runs[0].frames > 0);
            }
        }
        Ok(player)
    }

    pub fn frame(&self) -> (frame: u32)
        ensures
            frame == self@.frame,
    {
        self.frame
    }

    pub fn total_frames(&self) -> (frames: u32)
        ensures
            frames == self@.replay.total_frames,
    {
        self.replay.total_frames
    }

    /// How many checkpoints were met.
    pub fn verified_checkpoints(&self) -> (count: u32)
        ensures
            count == self@.verified,
    {
        self.verified
    }

    pub fn checkpoint_count(&self) -> (count: u32)
        requires
            self.wf(),
        ensures
            count == self@.replay.checkpoints.len(),
    {
        self.replay.checkpoints.len() as u32
    }

    /// Everything was played.
    pub fn is_finished(&self) -> (yes: bool)
        ensures
            yes == self@.over(),
    {
        self.frame == self.replay.total_frames
    }

    /// The input of the next frame.
    fn next_input(&mut self) -> (input: FrameInput)
        requires
            old(self).wf(),
            !old(self)@.over(),
        ensures
            input == old(self)@.input(),
            final(self).replay == old(self).replay,
            final(self).next == old(self).next,
            final(self).verified == old(self).verified,
            final(self).last_good == old(self).last_good,
            final(self).frame == old(self).frame + 1,
            ({
                let runs = final(self).replay.runs@;
                &&& final(self).run <= runs.len()
                &&& final(self).frame == frames_in(runs.take(final(self).run as int)) + final(self).used
                &&& if final(self).run < runs.len() {
                    final(self).used < runs[final(self).run as int].frames
                } else {
                    final(self).used == 0
                }
            }),
    {
        let ghost runs = self.replay.runs@;
        proof {
            if self.run == runs.len() {
                assert(runs.take(self.run as int) =~= runs);
            } else {
                lemma_run_at(runs, self.run as int, self.used as int);
            }
            assert(self.run < self.replay.runs.len());
        }
        let run: InputRun = self.replay.runs[self.run];
        self.frame = self.frame + 1;
        self.used = self.used + 1;
        if self.used == run.frames {
            self.run = self.run + 1;
            self.used = 0;
            proof {
                if self.run < runs.len() {
                    assert(runs[self.run as int].frames > 0);
                }
            }
        }
        run.input
    }

    /// Plays one frame on the machine and checks it, if there is a checkpoint. `Ok(false)` means
    /// that everything was played before, and nothing happens.
    pub fn step(&mut self, nes: &mut Nes) -> (result: Result<bool, ReplayMismatch>)
        requires
            old(self).wf(),
            old(nes)@.wf(),
        ensures
            final(self).wf(),
            final(self)@.valid(),
            final(nes)@.wf(),
            old(nes)@.sound() ==> final(nes)@.sound(),
            if old(self)@.over() {
                result == Ok::<bool, ReplayMismatch>(false) && final(self)@ == old(self)@ && final(nes)@ == old(nes)@
            } else {
                &&& final(nes)@ == old(nes)@.ran_frame(old(self)@.input())
                &&& final(self)@ == old(self)@.played(xxh3_64_of(final(nes)@.stamp()))
                &&& match old(self)@.mismatch(xxh3_64_of(final(nes)@.stamp())) {
                    Some(m) => result == Err::<bool, ReplayMismatch>(m),
                    None => result == Ok::<bool, ReplayMismatch>(true),
                }
            },
    {
        if self.is_finished() {
            return Ok(false);
        }
        let input: FrameInput = self.next_input();
        let _ = nes.run_frame(input);
        let ghost checkpoints = self.replay.checkpoints@;
        if self.next < self.replay.checkpoints.len() && self.replay.checkpoints[self.next].frame
            == self.frame {
            let checkpoint: Checkpoint = self.replay.checkpoints[self.next];
            let actual: u64 = nes.behavior_fingerprint();
            let last_good: Option<u32> = self.last_good;
            proof {
                if self.next + 1 < checkpoints.len() {
                    assert(checkpoints[self.next as int].frame < checkpoints[self.next + 1].frame);
                }
            }
            self.next = self.next + 1;
            if checkpoint.fingerprint != actual {
                return Err(
                    ReplayMismatch {
                        frame: checkpoint.frame,
                        last_good_frame: last_good,
                        expected: checkpoint.fingerprint,
                        actual,
                    },
                );
            }
            self.verified = self.verified + 1;
            self.last_good = Some(self.frame);
        }
        Ok(true)
    }
}

/// Why a replay does not verify.
#[allow(inconsistent_fields)]
#[derive(Debug, Clone, Copy, PartialEq, Eq, Structural)]
pub enum VerifyError {
    Rom(RomError),
    Replay(ReplayError),
    Mismatch(ReplayMismatch),
}

impl PlayerModel {
    /// What comes of playing on to the end on the machine `m`: how many checkpoints were met, or
    /// the first that was not.
    pub open spec fn outcome(self, m: NesModel) -> Result<u32, ReplayMismatch>
        decreases self.replay.total_frames - self.frame,
    {
        if self.frame >= self.replay.total_frames {
            Ok(self.verified)
        } else {
            let n = m.ran_frame(self.input());
            let actual = xxh3_64_of(n.stamp());
            match self.mismatch(actual) {
                Some(e) => Err(e),
                None => self.played(actual).outcome(n),
            }
        }
    }
}

/// What comes of verifying a replay with a ROM.
pub open spec fn verdict(rom: Seq<u8>, replay: ReplayModel) -> Result<u32, VerifyError> {
    let m = NesModel::booted(rom, RomId { hash: xxh3_128_of(rom) });
    match boot_refusal(rom) {
        Some(error) => Err(VerifyError::Rom(error)),
        None => match playing_refusal(replay, m) {
            Some(error) => Err(VerifyError::Replay(error)),
            None => match PlayerModel::started(replay).outcome(m) {
                Ok(count) => Ok(count),
                Err(e) => Err(VerifyError::Mismatch(e)),
            },
        },
    }
}

/// Plays a whole replay, and returns how many checkpoints were met.
pub fn verify(rom: &[u8], replay: Replay) -> (result: Result<u32, VerifyError>)
    ensures
        result == verdict(rom@, replay@),
{
    let mut nes: Nes = match Nes::from_rom(rom) {
        Ok(nes) => nes,
        Err(error) => return Err(VerifyError::Rom(error)),
    };
    let ghost start = nes@;
    let ghost model = replay@;
    let mut player: ReplayPlayer = match ReplayPlayer::new(replay, &nes) {
        Ok(player) => player,
        Err(error) => return Err(VerifyError::Replay(error)),
    };
    while !player.is_finished()
        invariant
            player.wf(),
            player@.valid(),
            nes@.wf(),
            model == replay@,
            boot_refusal(rom@) is None,
            playing_refusal(model, start) is None,
            start == NesModel::booted(rom@, RomId { hash: xxh3_128_of(rom@) }),
            player@.outcome(nes@) == PlayerModel::started(model).outcome(start),
        decreases player@.replay.total_frames - player@.frame,
    {
        match player.step(&mut nes) {
            Ok(_) => {},
            Err(mismatch) => return Err(VerifyError::Mismatch(mismatch)),
        }
    }
    Ok(player.verified_checkpoints())
}

} // verus!
