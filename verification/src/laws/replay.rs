//! A recording plays back.

use vstd::prelude::*;

use super::output::{law_output_is_not_recorded, law_output_never_matters, lemma_parts_alike};
use super::progress::law_a_booted_machine_is_sound;
use crate::cartridge::RomId;
use crate::fingerprint::{xxh3_128_of, xxh3_64_of};
use crate::input::FrameInput;
use crate::nes::{boot_refusal, NesModel};
use crate::replay::{
    compressed, expanded, frames_in, in_order, lemma_compressed, lemma_expanded_len, lemma_joined,
    playing_refusal, recording_refusal, runs_count, verdict, Checkpoint, PlayerModel,
    RecorderModel, ReplayMismatch, ReplayModel, MAX_REPLAY_FRAMES,
};

verus! {

/// What a recorder holds after a machine ran the inputs.
pub open spec fn recording(m: NesModel, inputs: Seq<FrameInput>, interval: u32) -> RecorderModel
    decreases inputs.len(),
{
    if inputs.len() == 0 {
        RecorderModel::begun(m.cpu.bus.cart().rom_id, interval, xxh3_64_of(m.stamp()))
    } else {
        recording(m, inputs.drop_last(), interval).recorded(
            inputs.last(),
            xxh3_64_of(m.ran_frames(inputs).stamp()),
        )
    }
}

/// The replay of a machine that ran the inputs.
pub open spec fn replay_of(m: NesModel, inputs: Seq<FrameInput>, interval: u32) -> ReplayModel {
    recording(m, inputs, interval).finished(xxh3_64_of(m.ran_frames(inputs).stamp()))
}

/// The checkpoints are the fingerprints of a machine that runs the inputs.
pub open spec fn faithful(
    checkpoints: Seq<Checkpoint>,
    m: NesModel,
    inputs: Seq<FrameInput>,
) -> bool {
    forall|i: int|
        0 <= i < checkpoints.len() ==> (#[trigger] checkpoints[i]).frame <= inputs.len()
            && checkpoints[i].fingerprint == xxh3_64_of(
            m.ran_frames(inputs.take(checkpoints[i].frame as int)).stamp(),
        )
}

/// What holds of a recording at any time.
pub proof fn lemma_recording(m: NesModel, inputs: Seq<FrameInput>, interval: u32)
    requires
        interval > 0,
        inputs.len() <= MAX_REPLAY_FRAMES,
    ensures
        ({
            let r = recording(m, inputs, interval);
            &&& r.rom_id == m.cpu.bus.cart().rom_id
            &&& r.interval == interval
            &&& r.frames == inputs.len()
            &&& runs_count(r.runs)
            &&& expanded(r.runs) == inputs
            &&& frames_in(r.runs) == inputs.len()
            &&& 0 < r.checkpoints.len() <= r.checkpoints.last().frame + 1
            &&& r.checkpoints[0].frame == 0
            &&& r.checkpoints.last().frame <= inputs.len()
            &&& in_order(r.checkpoints)
            &&& faithful(r.checkpoints, m, inputs)
        }),
    decreases inputs.len(),
{
    let r = recording(m, inputs, interval);
    if inputs.len() == 0 {
        assert(inputs.take(0) =~= Seq::empty());
        assert(inputs =~= Seq::empty());
    } else {
        let before = inputs.drop_last();
        lemma_recording(m, before, interval);
        let q = recording(m, before, interval);
        lemma_joined(q.runs, inputs.last());
        assert(before.push(inputs.last()) =~= inputs);
        assert forall|i: int| 0 <= i < r.checkpoints.len() implies (
        #[trigger] r.checkpoints[i]).frame <= inputs.len() && r.checkpoints[i].fingerprint
            == xxh3_64_of(
            m.ran_frames(inputs.take(r.checkpoints[i].frame as int)).stamp(),
        ) by {
            if i < q.checkpoints.len() {
                assert(r.checkpoints[i] == q.checkpoints[i]);
                let frame = q.checkpoints[i].frame as int;
                assert(inputs.take(frame) =~= before.take(frame));
            } else {
                assert(inputs.take(inputs.len() as int) =~= inputs);
            }
        }
    }
}

/// What is recorded is what was run: the replay holds the inputs, and its checkpoints are the
/// fingerprints of the machine that ran them, in order from power-on to the end.
pub proof fn law_a_recording_is_faithful(
    m: NesModel,
    inputs: Seq<FrameInput>,
    interval: u32,
)
    requires
        recording_refusal(m, interval) is None,
        inputs.len() <= MAX_REPLAY_FRAMES,
    ensures
        ({
            let replay = replay_of(m, inputs, interval);
            &&& replay.consistent()
            &&& replay.inputs() == inputs
            &&& replay.total_frames == inputs.len()
            &&& faithful(replay.checkpoints, m, inputs)
        }),
{
    lemma_recording(m, inputs, interval);
    let r = recording(m, inputs, interval);
    assert(inputs.take(inputs.len() as int) =~= inputs);
    let replay = replay_of(m, inputs, interval);
    let checkpoints = replay_of(m, inputs, interval).checkpoints;
    assert forall|i: int, j: int| 0 <= i < j < checkpoints.len() implies (
    #[trigger] checkpoints[i]).frame < (#[trigger] checkpoints[j]).frame by {
        assert(checkpoints[i] == r.checkpoints[i]);
        if j < r.checkpoints.len() {
            assert(checkpoints[j] == r.checkpoints[j]);
        } else if i < r.checkpoints.len() - 1 {
            assert(r.checkpoints[i].frame < r.checkpoints[r.checkpoints.len() - 1].frame);
        }
    }
    assert(in_order(checkpoints));
    assert(checkpoints[0] == r.checkpoints[0]);
    assert(replay.consistent());
    assert(faithful(checkpoints, m, inputs)) by {
        assert forall|i: int| 0 <= i < checkpoints.len() implies (
        #[trigger] checkpoints[i]).frame <= inputs.len() && checkpoints[i].fingerprint
            == xxh3_64_of(m.ran_frames(inputs.take(checkpoints[i].frame as int)).stamp()) by {
            if i < r.checkpoints.len() {
                assert(checkpoints[i] == r.checkpoints[i]);
            }
        }
    }
}

/// One more input.
proof fn lemma_one_more(m: NesModel, inputs: Seq<FrameInput>, k: int)
    requires
        0 <= k < inputs.len(),
    ensures
        m.ran_frames(inputs.take(k)).ran_frame(inputs[k]) == m.ran_frames(inputs.take(k + 1)),
{
    assert(inputs.take(k + 1).drop_last() =~= inputs.take(k));
    assert(inputs.take(k + 1).last() == inputs[k]);
}

/// Alike machines have the same fingerprint after the same inputs.
proof fn lemma_same_fingerprint(m: NesModel, start: NesModel, inputs: Seq<FrameInput>)
    requires
        m.wf(),
        start.wf(),
        m.alike(start),
    ensures
        m.ran_frames(inputs).stamp() == start.ran_frames(inputs).stamp(),
{
    law_output_never_matters(m, start, inputs);
    law_output_is_not_recorded(m.ran_frames(inputs), start.ran_frames(inputs));
}

proof fn lemma_plays_on(
    p: PlayerModel,
    m: NesModel,
    start: NesModel,
    inputs: Seq<FrameInput>,
)
    requires
        m.wf(),
        start.wf(),
        m.alike(start),
        p.valid(),
        p.verified == p.next,
        p.replay.inputs() == inputs,
        faithful(p.replay.checkpoints, m, inputs),
    ensures
        p.outcome(start.ran_frames(inputs.take(p.frame as int))) == Ok::<u32, ReplayMismatch>(
            p.replay.checkpoints.len() as u32,
        ),
    decreases p.replay.total_frames - p.frame,
{
    lemma_expanded_len(p.replay.runs);
    let checkpoints = p.replay.checkpoints;
    if p.frame < p.replay.total_frames {
        let k = p.frame as int;
        lemma_one_more(start, inputs, k);
        lemma_same_fingerprint(m, start, inputs.take(k + 1));
        let n = start.ran_frames(inputs.take(k + 1));
        let actual = xxh3_64_of(n.stamp());
        if p.due() is Some {
            assert(checkpoints[p.next as int].fingerprint == actual);
            if p.next + 1 < checkpoints.len() {
                assert(checkpoints[p.next as int].frame < checkpoints[p.next as int + 1].frame);
            }
        }
        lemma_plays_on(p.played(actual), m, start, inputs);
    } else if p.next < checkpoints.len() {
        let last = checkpoints.len() - 1;
        if p.next < last {
            assert(checkpoints[p.next as int].frame < checkpoints[last].frame);
        }
    }
}

/// Playing a recording, on a machine just switched on with the same ROM, meets every checkpoint,
/// whatever is output in the meantime.
pub proof fn law_a_recording_plays_back(
    m: NesModel,
    start: NesModel,
    inputs: Seq<FrameInput>,
    interval: u32,
)
    requires
        m.wf(),
        start.wf(),
        m.alike(start),
        recording_refusal(m, interval) is None,
        inputs.len() <= MAX_REPLAY_FRAMES,
    ensures
        ({
            let replay = replay_of(m, inputs, interval);
            &&& playing_refusal(replay, start) is None
            &&& PlayerModel::started(replay).outcome(start) == Ok::<u32, ReplayMismatch>(
                replay.checkpoints.len() as u32,
            )
        }),
{
    let replay = replay_of(m, inputs, interval);
    law_a_recording_is_faithful(m, inputs, interval);
    assert(inputs.take(0) =~= Seq::empty());
    lemma_same_fingerprint(m, start, Seq::empty());
    lemma_parts_alike(m.cpu.bus, start.cpu.bus);
    lemma_recording(m, inputs, interval);
    assert(replay.checkpoints[0].fingerprint == xxh3_64_of(
        m.ran_frames(inputs.take(replay.checkpoints[0].frame as int)).stamp(),
    ));
    let p = PlayerModel::started(replay);
    assert(p.valid()) by {
        if replay.checkpoints.len() > 1 {
            assert(replay.checkpoints[0].frame < replay.checkpoints[1].frame);
        }
    }
    lemma_plays_on(p, m, start, inputs);
}

/// A recording of a ROM verifies with that ROM.
pub proof fn law_a_recording_verifies(rom: Seq<u8>, inputs: Seq<FrameInput>, interval: u32)
    requires
        boot_refusal(rom) is None,
        interval > 0,
        inputs.len() <= MAX_REPLAY_FRAMES,
    ensures
        ({
            let m = NesModel::booted(rom, RomId { hash: xxh3_128_of(rom) });
            let replay = replay_of(m, inputs, interval);
            verdict(rom, replay) == Ok::<u32, crate::replay::VerifyError>(
                replay.checkpoints.len() as u32,
            )
        }),
{
    let id = RomId { hash: xxh3_128_of(rom) };
    let m = NesModel::booted(rom, id);
    law_a_booted_machine_is_sound(rom, id);
    lemma_parts_alike(m.cpu.bus, m.cpu.bus);
    law_a_recording_plays_back(m, m, inputs, interval);
}

/// A mismatch comes after the frames that were played.
proof fn lemma_mismatch_is_ahead(p: PlayerModel, m: NesModel)
    requires
        p.valid(),
    ensures
        p.outcome(m) matches Err(e) ==> e.frame > p.frame,
    decreases p.replay.total_frames - p.frame,
{
    let checkpoints = p.replay.checkpoints;
    if p.frame < p.replay.total_frames {
        let n = m.ran_frame(p.input());
        let actual = xxh3_64_of(n.stamp());
        if p.mismatch(actual) is None {
            if p.due() is Some && p.next + 1 < checkpoints.len() {
                assert(checkpoints[p.next as int].frame < checkpoints[p.next as int + 1].frame);
            }
            lemma_mismatch_is_ahead(p.played(actual), n);
        }
    }
}

proof fn lemma_plays_until(
    p: PlayerModel,
    m: NesModel,
    start: NesModel,
    run: Seq<FrameInput>,
    inputs: Seq<FrameInput>,
    agreed: int,
)
    requires
        m.wf(),
        start.wf(),
        m.alike(start),
        p.valid(),
        p.replay.inputs() == inputs,
        faithful(p.replay.checkpoints, m, run),
        0 <= agreed <= inputs.len(),
        agreed <= run.len(),
        run.take(agreed) == inputs.take(agreed),
        p.frame <= agreed,
    ensures
        p.outcome(start.ran_frames(inputs.take(p.frame as int))) matches Err(e) ==> e.frame
            > agreed,
    decreases p.replay.total_frames - p.frame,
{
    lemma_expanded_len(p.replay.runs);
    let checkpoints = p.replay.checkpoints;
    let k = p.frame as int;
    if k == agreed {
        lemma_mismatch_is_ahead(p, start.ran_frames(inputs.take(k)));
    } else {
        lemma_one_more(start, inputs, k);
        lemma_same_fingerprint(m, start, inputs.take(k + 1));
        assert(run.take(k + 1) =~= run.take(agreed).take(k + 1));
        assert(inputs.take(k + 1) =~= inputs.take(agreed).take(k + 1));
        let n = start.ran_frames(inputs.take(k + 1));
        let actual = xxh3_64_of(n.stamp());
        if p.due() is Some {
            assert(checkpoints[p.next as int].fingerprint == actual);
            if p.next + 1 < checkpoints.len() {
                assert(checkpoints[p.next as int].frame < checkpoints[p.next as int + 1].frame);
            }
        }
        lemma_plays_until(p.played(actual), m, start, run, inputs, agreed);
    }
}

/// A recording whose inputs were changed fails, if it fails, only after the frames before the
/// change: the first changed frame is never behind the frames under suspicion.
pub proof fn law_a_mismatch_is_never_before_the_change(
    m: NesModel,
    start: NesModel,
    run: Seq<FrameInput>,
    inputs: Seq<FrameInput>,
    interval: u32,
    agreed: int,
)
    requires
        m.wf(),
        start.wf(),
        m.alike(start),
        recording_refusal(m, interval) is None,
        run.len() <= MAX_REPLAY_FRAMES,
        run.len() == inputs.len(),
        0 <= agreed <= run.len(),
        run.take(agreed) == inputs.take(agreed),
    ensures
        ({
            let changed = ReplayModel {
                runs: compressed(inputs),
                ..replay_of(m, run, interval)
            };
            &&& playing_refusal(changed, start) is None
            &&& PlayerModel::started(changed).outcome(start) matches Err(e) ==> e.frame > agreed
        }),
{
    let replay = replay_of(m, run, interval);
    let changed = ReplayModel { runs: compressed(inputs), ..replay };
    law_a_recording_is_faithful(m, run, interval);
    law_a_recording_plays_back(m, start, run, interval);
    lemma_compressed(inputs);
    lemma_expanded_len(changed.runs);
    let p = PlayerModel::started(changed);
    assert(p.valid()) by {
        if replay.checkpoints.len() > 1 {
            assert(replay.checkpoints[0].frame < replay.checkpoints[1].frame);
        }
    }
    assert(inputs.take(0) =~= Seq::empty());
    lemma_plays_until(p, m, start, run, inputs, agreed);
}

} // verus!
