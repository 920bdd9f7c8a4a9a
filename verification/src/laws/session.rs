//! While a replay is recorded or played, the machine stays on the track from power-on that its
//! inputs lay down.

use vstd::prelude::*;

use super::output::{law_output_does_not_matter, law_output_is_not_recorded, lemma_parts_alike};
use super::progress::{law_a_booted_machine_is_sound, law_every_frame_goes_on, law_frames_go_on};
use super::replay::{
    law_a_recording_is_faithful, law_a_recording_verifies, lemma_recording, recording, replay_of,
};
use crate::apu::AudioModel;
use crate::bus::group_leads_to;
use crate::cartridge::RomId;
use crate::fingerprint::{xxh3_128_of, xxh3_64_of};
use crate::input::FrameInput;
use crate::nes::{boot_refusal, lemma_output_is_free, NesModel};
use crate::replay::format::{file_refusal, law_a_replay_file_is_read_back, replay_in};
use crate::joypad::Buttons;
use crate::replay::{
    frames_in, lemma_expanded_len, playing_refusal, runs_count, verdict, InputRun, PlayerModel,
    RecorderModel, VerifyError, DEFAULT_CHECKPOINT_INTERVAL, MAX_REPLAY_FRAMES,
};
use crate::session::{
    EffectModel, EmuCommand, EmuModel, EventModel, FrameOutcome, Notice, Operation, SessionModel,
};

verus! {

/// A machine just switched on with a ROM.
pub open spec fn at_power_on(rom: Seq<u8>) -> NesModel {
    NesModel::booted(rom, RomId { hash: xxh3_128_of(rom) })
}

/// The machine is what the ROM makes of the inputs, but for its output.
#[verifier::opaque]
pub open spec fn follows(n: NesModel, rom: Seq<u8>, inputs: Seq<FrameInput>) -> bool {
    &&& boot_refusal(rom) is None
    &&& n.wf()
    &&& n.alike(at_power_on(rom).ran_frames(inputs))
}

/// The recorder holds what the ROM made of the inputs.
pub open spec fn records(r: RecorderModel, rom: Seq<u8>, inputs: Seq<FrameInput>) -> bool {
    &&& inputs.len() <= MAX_REPLAY_FRAMES
    &&& r == recording(at_power_on(rom), inputs, DEFAULT_CHECKPOINT_INTERVAL)
}

/// The machine that is recorded ran the inputs that are recorded, from power-on. The machine that a
/// replay is played on ran the inputs that were played.
#[verifier::opaque]
pub open spec fn in_step(
    nes: Option<NesModel>,
    rom: Option<Seq<u8>>,
    session: SessionModel,
) -> bool {
    match session {
        SessionModel::Idle => true,
        SessionModel::Recording(r) => match (nes, rom) {
            (Some(n), Some(rom)) => exists|inputs: Seq<FrameInput>|
                records(r, rom, inputs) && #[trigger] follows(n, rom, inputs),
            _ => false,
        },
        SessionModel::Replaying(p) => match (nes, rom) {
            (Some(n), Some(rom)) => p.valid() && follows(
                n,
                rom,
                p.replay.inputs().take(p.frame as int),
            ),
            _ => false,
        },
    }
}

impl EmuModel {
    /// The machine is where the inputs lead that are recorded or played.
    pub open spec fn on_track(self) -> bool {
        in_step(self.nes, self.rom, self.session)
    }
}

/// Output leaves the track alone.
proof fn lemma_output_follows(
    n: NesModel,
    rom: Seq<u8>,
    inputs: Seq<FrameInput>,
    enabled: bool,
    out: AudioModel,
)
    requires
        follows(n, rom, inputs),
    ensures
        follows(n.with_output(enabled), rom, inputs),
        follows(n.with_sound(out), rom, inputs),
{
    broadcast use group_leads_to;

    reveal(follows);
    let a = n.with_output(enabled);
    let b = n.with_sound(out);
    let run = at_power_on(rom).ran_frames(inputs);
    lemma_output_is_free(n.cpu.bus, a.cpu.bus);
    lemma_output_is_free(n.cpu.bus, b.cpu.bus);
    lemma_parts_alike(n.cpu.bus, run.cpu.bus);
    lemma_parts_alike(a.cpu.bus, run.cpu.bus);
    lemma_parts_alike(b.cpu.bus, run.cpu.bus);
}

/// A frame leads on along the track.
proof fn lemma_frame_follows(n: NesModel, rom: Seq<u8>, inputs: Seq<FrameInput>, input: FrameInput)
    requires
        follows(n, rom, inputs),
    ensures
        follows(n.ran_frame(input), rom, inputs.push(input)),
        n.ran_frame(input).stamp() == at_power_on(rom).ran_frames(inputs.push(input)).stamp(),
{
    reveal(follows);
    let id = RomId { hash: xxh3_128_of(rom) };
    let m = at_power_on(rom);
    let more = inputs.push(input);
    assert(more.drop_last() =~= inputs);
    law_a_booted_machine_is_sound(rom, id);
    law_frames_go_on(m, inputs);
    law_every_frame_goes_on(n, input);
    law_output_does_not_matter(n, m.ran_frames(inputs), input);
    law_output_is_not_recorded(n.ran_frame(input), m.ran_frames(more));
}

/// A machine just switched on is at the beginning of the track.
proof fn lemma_power_on_follows(e: EmuModel, rom: Seq<u8>)
    requires
        boot_refusal(rom) is None,
    ensures
        follows(e.booted(rom), rom, Seq::empty()),
        e.booted(rom).stamp() == at_power_on(rom).stamp(),
        e.booted(rom).cpu.bus.cart().rom_id == at_power_on(rom).cpu.bus.cart().rom_id,
        e.booted(rom).frame_count == 0,
{
    let m = at_power_on(rom);
    law_a_booted_machine_is_sound(rom, RomId { hash: xxh3_128_of(rom) });
    lemma_parts_alike(m.cpu.bus, m.cpu.bus);
    assert(follows(m, rom, Seq::empty())) by {
        reveal(follows);
    }
    lemma_output_follows(
        m,
        rom,
        Seq::empty(),
        true,
        AudioModel { channel_mask: e.channel_mask & 0x1F, ..m.cpu.bus.apu().out },
    );
    let b = e.booted(rom);
    assert(b.alike(m)) by {
        reveal(follows);
    }
    law_output_is_not_recorded(b, m);
    lemma_parts_alike(b.cpu.bus, m.cpu.bus);
}

/// How many frames a machine on the track ran.
proof fn lemma_frames_counted(m: NesModel, inputs: Seq<FrameInput>)
    requires
        m.wf(),
        m.frame_count == 0,
        inputs.len() <= u64::MAX,
    ensures
        m.ran_frames(inputs).frame_count == inputs.len(),
    decreases inputs.len(),
{
    if inputs.len() > 0 {
        lemma_frames_counted(m, inputs.drop_last());
        law_frames_go_on(m, inputs.drop_last());
        law_every_frame_goes_on(m.ran_frames(inputs.drop_last()), inputs.last());
    }
}

/// A frame that was run leaves the machine on the track, unless it could not be recorded.
proof fn lemma_run_stays_on_track(e: EmuModel)
    requires
        e.on_track(),
    ensures
        e.ran_one_frame().0.on_track() || e.ran_one_frame().1 matches Some(
            FrameOutcome::RecordFailed(_),
        ),
{
    reveal(in_step);
    match (e.nes, e.rom, e.session) {
        (Some(n), Some(rom), SessionModel::Recording(r)) => {
            let inputs = choose|inputs: Seq<FrameInput>|
                records(r, rom, inputs) && #[trigger] follows(n, rom, inputs);
            let input = e.next_input();
            lemma_frame_follows(n, rom, inputs, input);
            let more = inputs.push(input);
            lemma_recording(at_power_on(rom), inputs, DEFAULT_CHECKPOINT_INTERVAL);
            assert(more.drop_last() =~= inputs);
            if r.frame_refusal(n.ran_frame(input)) is None {
                assert(records(
                    r.recorded(input, xxh3_64_of(n.ran_frame(input).stamp())),
                    rom,
                    more,
                ));
            }
        },
        (Some(n), Some(rom), SessionModel::Replaying(p)) => {
            if !p.over() {
                lemma_expanded_len(p.replay.runs);
                let inputs = p.replay.inputs();
                let k = p.frame as int;
                lemma_frame_follows(n, rom, inputs.take(k), inputs[k]);
                assert(inputs.take(k).push(inputs[k]) =~= inputs.take(k + 1));
                let checkpoints = p.replay.checkpoints;
                if p.due() is Some && p.next + 1 < checkpoints.len() {
                    assert(checkpoints[p.next as int].frame < checkpoints[p.next as int
                        + 1].frame);
                }
            }
        },
        _ => {},
    }
}

/// Where nothing is recorded or played, there is no track to leave.
proof fn lemma_idle_is_on_track(e: EmuModel)
    requires
        e.session is Idle,
    ensures
        e.on_track(),
{
    reveal(in_step);
}

/// What follows a frame ends the session, or leaves machine and session alone.
proof fn lemma_finish_stays_on_track(e: EmuModel, outcome: FrameOutcome, show: bool)
    requires
        e.on_track() || outcome is RecordFailed,
    ensures
        e.frame_finished(outcome, show).0.on_track(),
{
    let after = e.frame_finished(outcome, show).0;
    if !(outcome is Ran) {
        lemma_idle_is_on_track(after);
    }
}

/// Whatever runs the machine keeps it on the track, until the session ends.
pub proof fn law_the_clock_stays_on_track(e: EmuModel)
    requires
        e.on_track(),
    ensures
        e.ticked().0.on_track(),
        e.settled().on_track(),
{
    lemma_run_stays_on_track(e);
    if let (a, Some(outcome)) = e.ran_one_frame() {
        lemma_finish_stays_on_track(a.sounded(), outcome, true);
    }
}

/// So does whatever runs it as fast as possible.
pub proof fn law_a_rush_stays_on_track(e: EmuModel, first: bool, ran: u64)
    requires
        e.on_track(),
    ensures
        e.rushed(first).0.on_track(),
        e.rush_ended(ran).on_track(),
{
    if let Some(n) = e.nes {
        lemma_output_stays_on_track(e, n, first, n.cpu.bus.apu().out);
        lemma_output_stays_on_track(e, n, true, n.cpu.bus.apu().out);
    }
    let b = match e.nes {
        Some(m) => EmuModel { nes: Some(m.with_output(first)), ..e },
        None => e,
    };
    lemma_run_stays_on_track(b);
    if let (a, Some(outcome)) = b.ran_one_frame() {
        lemma_finish_stays_on_track(a, outcome, first);
    }
}

/// Output leaves the emulator on the track.
proof fn lemma_output_stays_on_track(e: EmuModel, n: NesModel, enabled: bool, out: AudioModel)
    requires
        e.on_track(),
        e.nes == Some(n),
    ensures
        (EmuModel { nes: Some(n.with_output(enabled)), ..e }).on_track(),
        (EmuModel { nes: Some(n.with_sound(out)), ..e }).on_track(),
{
    reveal(in_step);
    match (e.rom, e.session) {
        (Some(rom), SessionModel::Recording(r)) => {
            let inputs = choose|inputs: Seq<FrameInput>|
                records(r, rom, inputs) && #[trigger] follows(n, rom, inputs);
            lemma_output_follows(n, rom, inputs, enabled, out);
        },
        (Some(rom), SessionModel::Replaying(p)) => {
            lemma_output_follows(
                n,
                rom,
                p.replay.inputs().take(p.frame as int),
                enabled,
                out,
            );
        },
        _ => {},
    }
}

proof fn lemma_start_is_on_track(e: EmuModel, file: Seq<u8>)
    requires
        e.on_track(),
    ensures
        e.recording_started().on_track(),
        e.replay_started(file).on_track(),
{
    reveal(in_step);
    if let Some(rom) = e.rom {
        if boot_refusal(rom) is None {
            lemma_power_on_follows(e, rom);
            let m = e.booted(rom);
            assert(records(
                RecorderModel::begun(
                    m.cpu.bus.cart().rom_id,
                    DEFAULT_CHECKPOINT_INTERVAL,
                    xxh3_64_of(m.stamp()),
                ),
                rom,
                Seq::empty(),
            ));
            lemma_output_follows(m, rom, Seq::empty(), true, m.cpu.bus.apu().out);
            let replay = replay_in(file).0;
            assert(replay.inputs().take(0) =~= Seq::empty());
            if playing_refusal(replay, m) is None {
                assert(PlayerModel::started(replay).valid()) by {
                    if replay.checkpoints.len() > 1 {
                        assert(replay.checkpoints[0].frame < replay.checkpoints[1].frame);
                    }
                }
            }
        }
    }
}

proof fn lemma_frame_step_stays_on_track(e: EmuModel)
    requires
        e.on_track(),
    ensures
        e.frame_stepped().on_track(),
{
    lemma_run_stays_on_track(e);
    if let (a, Some(outcome)) = e.ran_one_frame() {
        lemma_finish_stays_on_track(a, outcome, true);
    }
}

/// No command leads the machine off the track of what is recorded or played.
pub proof fn law_no_command_leads_off_the_track(e: EmuModel, cmd: EmuCommand, after: EmuModel)
    requires
        e.on_track(),
        e.handles(cmd, after),
    ensures
        after.on_track(),
{
    if after.session is Idle {
        lemma_idle_is_on_track(after);
    } else {
        match cmd {
            EmuCommand::StartRecording => lemma_start_is_on_track(e, Seq::empty()),
            EmuCommand::StartReplay(bytes) => lemma_start_is_on_track(e, bytes@),
            EmuCommand::StepFrame => lemma_frame_step_stays_on_track(e),
            EmuCommand::SetAudioChannelMask(mask) => {
                if let Some(n) = e.nes {
                    lemma_output_stays_on_track(
                        e,
                        n,
                        true,
                        AudioModel { channel_mask: mask & 0x1F, ..n.cpu.bus.apu().out },
                    );
                }
            },
            _ => {},
        }
    }
}

/// What would lead off the track is refused: it changes neither the machine, nor the ROM, nor the
/// session, and the user is told.
pub proof fn law_a_refusal_changes_nothing(e: EmuModel, what: Operation)
    requires
        e.busy(),
    ensures
        e.refused(what) == (EmuModel { outbox: e.refused(what).outbox, ..e }),
        e.refused(what).outbox == e.outbox.push(
            EffectModel::Send(
                EventModel::Error(
                    Notice::Refused { replaying: e.session is Replaying, what },
                ),
            ),
        ),
        forall|rom: Seq<u8>| #[trigger] e.rom_loaded(rom) == e.refused(Operation::LoadRom),
        forall|after: EmuModel| #[trigger]
            e.loads_state(after) ==> after == e.refused(Operation::LoadState),
        e.instruction_stepped() == e.refused(Operation::StepInstruction),
        forall|count: u32| #[trigger] e.traced(count) == e.refused(Operation::Trace),
        e.recording_started() == e.refused(Operation::StartRecording),
        forall|file: Seq<u8>| #[trigger] e.replay_started(file) == e.refused(Operation::StartReplay),
{
}

/// While a replay is played, the keyboard is ignored, and so is the reset button.
pub proof fn law_a_replay_takes_no_other_input(e: EmuModel, player: u8, buttons: Buttons)
    requires
        e.session is Replaying,
    ensures
        e.input_set(player, buttons) == e,
        e.reset_pressed() == e.refused(Operation::Reset),
{
}

/// A recording that stays on the track ends with a file that is read back and meets all its
/// checkpoints, with the ROM that was recorded.
pub proof fn law_what_was_recorded_verifies(e: EmuModel, rom: Seq<u8>)
    requires
        e.on_track(),
        e.session is Recording,
        e.rom == Some(rom),
    ensures
        exists|inputs: Seq<FrameInput>|
            {
                let replay = #[trigger] replay_of(
                    at_power_on(rom),
                    inputs,
                    DEFAULT_CHECKPOINT_INTERVAL,
                );
                let idle = EmuModel { session: SessionModel::Idle, ..e };
                &&& e.recording_stopped() == idle.sent(
                    EventModel::RecordingFinished(replay.file(), inputs.len() as u32),
                ).announced()
                &&& file_refusal(replay.file()) is None
                &&& replay_in(replay.file()).0 == replay
                &&& verdict(rom, replay) == Ok::<u32, VerifyError>(
                    replay.checkpoints.len() as u32,
                )
            },
{
    reveal(in_step);
    let n = e.nes->0;
    let r = e.session->Recording_0;
    let inputs = choose|inputs: Seq<FrameInput>|
        records(r, rom, inputs) && #[trigger] follows(n, rom, inputs);
    let m = at_power_on(rom);
    lemma_ends_well(n, rom, inputs);
    lemma_recording(m, inputs, DEFAULT_CHECKPOINT_INTERVAL);
    law_a_recording_verifies(rom, inputs, DEFAULT_CHECKPOINT_INTERVAL);
    law_a_recording_is_faithful(m, inputs, DEFAULT_CHECKPOINT_INTERVAL);
    let replay = replay_of(m, inputs, DEFAULT_CHECKPOINT_INTERVAL);
    lemma_runs_are_frames(replay.runs);
    law_a_replay_file_is_read_back(replay);
    assert(r.end_refusal(n) is None);
    assert(r.finished(xxh3_64_of(n.stamp())) == replay);
}

/// The machine at the end of a recording.
proof fn lemma_ends_well(n: NesModel, rom: Seq<u8>, inputs: Seq<FrameInput>)
    requires
        follows(n, rom, inputs),
        inputs.len() <= MAX_REPLAY_FRAMES,
    ensures
        boot_refusal(rom) is None,
        n.frame_count == inputs.len(),
        n.stamp() == at_power_on(rom).ran_frames(inputs).stamp(),
        at_power_on(rom).frame_count == 0,
{
    reveal(follows);
    let m = at_power_on(rom);
    law_a_booted_machine_is_sound(rom, RomId { hash: xxh3_128_of(rom) });
    lemma_frames_counted(m, inputs);
    law_output_is_not_recorded(n, m.ran_frames(inputs));
}

/// There are no more runs than frames.
proof fn lemma_runs_are_frames(runs: Seq<InputRun>)
    requires
        runs_count(runs),
    ensures
        runs.len() <= frames_in(runs),
    decreases runs.len(),
{
    if runs.len() > 0 {
        assert(runs.last().frames > 0);
        lemma_runs_are_frames(runs.drop_last());
    }
}

} // verus!
