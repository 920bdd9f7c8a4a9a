//! What the commands to an emulator do, and what they leave alone.

use vstd::prelude::*;

use super::rollback::law_a_saved_machine_comes_back;
use super::words::lemma_fields;
use crate::error::StateError;
use crate::input::FrameInput;
use crate::joypad::Buttons;
use crate::nes::{loads, NesModel};
use crate::session::{
    EffectModel, EmuCommand, EmuModel, EventModel, FrameOutcome, Notice, PlaybackSpeed,

};
use crate::state::encoded;

verus! {

/// A player's buttons go to that player and to no other, and change nothing else.
pub proof fn law_buttons_go_to_their_player(e: EmuModel, player: u8, buttons: Buttons, after: EmuModel)
    requires
        e.session !is Replaying,
        e.handles(EmuCommand::SetInput(player, buttons), after),
    ensures
        after.p1 == if player == 0 { buttons } else { e.p1 },
        after.p2 == if player == 1 { buttons } else { e.p2 },
        after == (EmuModel { p1: after.p1, p2: after.p2, ..e }),
{
}

/// Pausing and going on change nothing but that; the sound is paused with the machine, and the clock
/// starts afresh when it goes on.
pub proof fn law_pausing_is_all_that_changes(e: EmuModel, pause: EmuModel, resume: EmuModel)
    requires
        e.handles(EmuCommand::Pause, pause),
        e.handles(EmuCommand::Resume, resume),
    ensures
        pause == (EmuModel { paused: true, outbox: pause.outbox, ..e }),
        pause.outbox == e.outbox.push(EffectModel::PauseSound(true)),
        resume == (EmuModel { paused: false, outbox: resume.outbox, ..e }),
        resume.outbox == e.outbox.push(EffectModel::SteadyRate).push(EffectModel::PauseSound(false)),
{
}

/// What SaveState saved LoadState brings back, into whatever became of the machine since, if nothing
/// is recorded or played.
pub proof fn law_load_undoes_save(
    e: EmuModel,
    saved: EmuModel,
    later: EmuModel,
    after: EmuModel,
    m: NesModel,
    n: NesModel,
)
    requires
        e.nes == Some(m),
        m.sound(),
        e.handles(EmuCommand::SaveState, saved),
        later == (EmuModel { saved_state: saved.saved_state, nes: Some(n), ..later }),
        n.plays_the_rom_of(m),
        later.session is Idle,
        later.handles(EmuCommand::LoadState, after),
    ensures
        saved == (EmuModel { saved_state: saved.saved_state, ..e }),
        after.nes is Some,
        after.nes->0.alike(m),
        after.state_changed,
        after == (EmuModel { nes: after.nes, state_changed: true, ..later }),
{
    law_a_saved_machine_comes_back(m, n);
    assert(saved.saved_state == Some(encoded(m)));
    assert(forall|error: StateError| !loads(n, encoded(m), Err(error)));
}

/// The next frame is run with the players' buttons, and with the reset button if it was pressed
/// since the last frame: once.
pub proof fn law_frames_take_the_players_input(e: EmuModel, m: NesModel)
    requires
        e.nes == Some(m),
        e.session is Idle,
    ensures
        ({
            let (a, outcome) = e.ran_one_frame();
            &&& a.nes == Some(
                m.ran_frame(FrameInput { p1: e.p1, p2: e.p2, reset: e.pending_reset }),
            )
            &&& !a.pending_reset
            &&& outcome == Some(FrameOutcome::Ran)
            &&& a == EmuModel { nes: a.nes, pending_reset: false, ..e }
        }),
        ({
            let pressed = e.reset_pressed();
            &&& pressed == EmuModel { pending_reset: true, ..e }
            &&& pressed.ran_one_frame().0.nes == Some(
                m.ran_frame(FrameInput { p1: e.p1, p2: e.p2, reset: true }),
            )
        }),
{
}

/// Single steps are for a paused machine; another is left alone and the user is told. An
/// instruction more is one step of the CPU, and a frame more is one frame.
pub proof fn law_stepping_is_for_a_paused_machine(e: EmuModel, m: NesModel)
    requires
        e.nes == Some(m),
        e.session is Idle,
    ensures
        !e.paused ==> e.instruction_stepped() == e.failed(Notice::NotPaused),
        !e.paused ==> e.frame_stepped() == e.failed(Notice::NotPaused),
        e.paused ==> {
            let a = e.instruction_stepped();
            &&& a.nes == Some(NesModel { cpu: m.cpu.stepping().0, ..m })
            &&& a == EmuModel { nes: a.nes, state_changed: true, outbox: a.outbox, ..e }
            &&& a.outbox == e.outbox.push(EffectModel::ShowPicture)
        },
        e.paused ==> {
            let a = e.frame_stepped();
            &&& a.nes == e.ran_one_frame().0.nes
            &&& a.paused && a.state_changed
            &&& a.outbox == e.outbox.push(EffectModel::ShowPicture)
        },
{
}

/// A trace is of as many instructions as are asked for, but not more than there may be.
pub proof fn law_traces_are_bounded(e: EmuModel, count: u32)
    requires
        e.session is Idle,
        e.paused,
        e.nes is Some,
    ensures
        ({
            let a = e.traced(count);
            let n = if count <= 1_000_000 { count } else { 1_000_000 };
            &&& a.outbox == e.outbox.push(EffectModel::Trace(n))
            &&& a == EmuModel { state_changed: true, outbox: a.outbox, ..e }
        }),
{
}

/// The mask tells which of the five channels of the machine are heard, now and after the next ROM
/// is loaded; nothing else of the machine changes.
pub proof fn law_the_mask_is_for_five_channels(e: EmuModel, mask: u8, m: NesModel)
    requires
        e.nes == Some(m),
    ensures
        ({
            let a = e.mask_set(mask);
            let n = a.nes->0;
            &&& a.channel_mask == mask
            &&& n.cpu.bus.apu().out.channel_mask == mask % 32
            &&& n.cpu.bus.apu().core == m.cpu.bus.apu().core
            &&& n.cpu.bus.ppu() == m.cpu.bus.ppu()
            &&& n.cpu.bus.cart() == m.cpu.bus.cart()
            &&& n.cpu.bus.ram == m.cpu.bus.ram
            &&& n.frame_count == m.frame_count
            &&& a == EmuModel { channel_mask: mask, nes: a.nes, ..e }
        }),
{
    lemma_fields(mask);
}

/// A replay that is played faster than the machine runs is not heard; all else is.
pub proof fn law_only_normal_speed_is_heard(e: EmuModel)
    requires
        e.nes is Some,
    ensures
        e.sounded().outbox == e.outbox.push(
            if e.session is Replaying && e.speed != PlaybackSpeed::X1 {
                EffectModel::DropSound
            } else {
                EffectModel::PlaySound
            },
        ),
        e.sounded() == (EmuModel { outbox: e.sounded().outbox, ..e }),
{
}

/// When a replay is over, at its end or at a difference, nothing is played any more, the machine is
/// paused with its output on, and the user is told which it was.
pub proof fn law_a_replay_ends_in_a_pause(e: EmuModel, outcome: FrameOutcome, show: bool)
    requires
        e.session is Replaying,
        outcome is ReplayDone || outcome is Mismatch,
    ensures
        ({
            let (a, on) = e.frame_finished(outcome, show);
            &&& !on
            &&& a.session is Idle
            &&& a.paused
            &&& a.rom == e.rom && a.saved_state == e.saved_state
            &&& e.nes is Some ==> a.nes == Some(e.nes->0.with_output(true))
        }),
{
}

/// A frame that ran goes on with the session.
pub proof fn law_a_session_goes_on(e: EmuModel, show: bool)
    ensures
        ({
            let (a, on) = e.frame_finished(FrameOutcome::Ran, show);
            &&& on
            &&& a == EmuModel { outbox: a.outbox, ..e }
        }),
{
}

/// The pictures of memory are handed out at once when a command changed the machine, and else with every
/// third frame, if they are wanted; a snapshot comes with every frame if it is.
pub proof fn law_views_come_every_few_frames(e: EmuModel, immediate: bool, m: NesModel)
    requires
        e.nes == Some(m),
        e.frames_since_views < u32::MAX,
    ensures
        ({
            let a = e.published(immediate);
            let due = immediate || e.frames_since_views + 1 >= 3;
            let first = if e.debug_enabled {
                e.outbox.push(EffectModel::ShowSnapshot)
            } else {
                e.outbox
            };
            let second = match e.views_palette {
                Some(palette) => if due {
                    first.push(EffectModel::ShowViews(palette))
                } else {
                    first
                },
                None => first,
            };
            &&& a.outbox == second.push(EffectModel::Send(EventModel::FrameAdvanced(m.frame_count)))
            &&& a.frames_since_views == if due && e.views_palette is Some {
                0
            } else {
                e.frames_since_views + 1
            }
            &&& a == EmuModel {
                outbox: a.outbox,
                frames_since_views: a.frames_since_views,
                ..e
            }
        }),
{
}

/// A replay that is played as fast as possible has output in the first of its frames alone.
pub proof fn law_only_the_first_frame_of_a_rush_shows(e: EmuModel, first: bool, m: NesModel)
    requires
        e.nes == Some(m),
    ensures
        e.rushed(first).0.nes is Some,
        e.rushed(first).1 is Some,
        ({
            let a = EmuModel { nes: Some(m.with_output(first)), ..e };
            let b = a.ran_one_frame();
            (e.rushed(first).0, e.rushed(first).1->0) == b.0.frame_finished(b.1->0, first)
        }),
{
}

} // verus!
