//! What the window offers, shows and sends.

use vstd::prelude::*;

use crate::joypad::Buttons;
use crate::session::EventModel;
use crate::window::WindowModel;

verus! {

/// While nothing goes on, what can be done is offered: what needs a ROM if there is one, and single
/// steps to a paused machine. What goes on can be stopped, and nothing else.
pub proof fn law_what_can_be_done_is_offered(w: WindowModel)
    ensures
        ({
            let menu = w.menu();
            let loaded = w.rom is Some;
            let quiet = !(w.session is Recording) && !(w.session is Playing) && w.net is Idle;
            &&& quiet ==> menu.open_rom && menu.load_state && menu.pause
            &&& quiet ==> menu.start_recording == loaded
            &&& quiet ==> menu.play_replay == loaded
            &&& quiet ==> menu.netplay == loaded
            &&& quiet ==> menu.reset == loaded
            &&& quiet ==> menu.step_instruction == w.paused
            &&& quiet ==> menu.trace == w.paused
            &&& menu.step_frame == w.paused
            &&& menu.save_state_file == loaded
            &&& menu.save_recording == (w.unsaved is Some)
            &&& menu.stop_recording == (w.session is Recording)
            &&& menu.stop_replay == (w.session is Playing)
            &&& menu.cancel_netplay == (w.net !is Idle && w.net !is Closing)
            &&& w.net !is Idle ==> !menu.pause && !menu.reset
            &&& w.session is Playing ==> !menu.reset
            &&& w.session is Recording && w.net is Idle ==> menu.pause && menu.reset == loaded
        }),
{
}

/// The buttons of a player are sent when they change, and once; not while a replay is played, and
/// over the network only those of the first.
pub proof fn law_buttons_are_sent_when_they_change(w: WindowModel, player: u8, buttons: Buttons)
    requires
        player < 2,
    ensures
        ({
            let after = w.pressing(player, buttons);
            let before = if player == 0 { w.p1 } else { w.p2 };
            &&& w.session is Playing ==> !w.sends(player, buttons)
            &&& w.net !is Idle && player == 1 ==> !w.sends(player, buttons)
            &&& w.session !is Playing && (player == 0 || w.net is Idle) ==> w.sends(player, buttons)
                == (buttons != before)
            &&& !after.sends(player, buttons)
            &&& w.sends(player, buttons) ==> after.p1 == if player == 0 {
                buttons
            } else {
                w.p1
            } && after.p2 == if player == 1 { buttons } else { w.p2 }
            &&& after == WindowModel { p1: after.p1, p2: after.p2, ..w }
        }),
{
}

/// The window follows what it hears: a ROM takes the place of the last, and of what was said of it;
/// the pause, the count of frames and the session are as they were told; a difference is kept until
/// the next; and a recording waits to be saved.
pub proof fn law_the_window_follows_events(w: WindowModel, event: EventModel)
    ensures
        ({
            let after = w.heard(event);
            &&& event is RomLoaded ==> after == WindowModel {
                rom: after.rom,
                last_error: None,
                last_info: None,
                ..w
            } && after.rom is Some
            &&& event is Paused ==> after == WindowModel { paused: event->Paused_0, ..w }
            &&& event is FrameAdvanced ==> after == WindowModel {
                frame_count: event->FrameAdvanced_0,
                ..w
            }
            &&& event is Session ==> after.session == event->Session_0 && after == WindowModel {
                session: after.session,
                mismatch: after.mismatch,
                ..w
            }
            &&& event is Session && event->Session_0 is Mismatch ==> after.mismatch == Some(
                event->Session_0->Mismatch_0,
            )
            &&& event is Session && !(event->Session_0 is Mismatch) ==> after.mismatch == w.mismatch
            &&& event is RecordingFinished ==> after.unsaved == Some(event->RecordingFinished_0)
                && after == WindowModel { unsaved: after.unsaved, last_info: after.last_info, ..w }
            &&& event is Error ==> after.last_error is Some && after == WindowModel {
                last_error: after.last_error,
                ..w
            }
            &&& event is StateExported ==> after == w
        }),
{
}

} // verus!
