//! Save states bring a machine back, and it goes on as if nothing had happened.

use vstd::prelude::*;

use super::output::{
    law_output_is_not_recorded, law_output_never_matters, lemma_booted_puts_out, lemma_parts_alike,
};
use super::picture::{law_the_pictures_agree, lemma_frames_keep_putting_out};
use super::progress::{
    law_a_booted_machine_is_sound, law_a_frame_ends_in_vblank, law_frames_go_on,
};
use crate::bus::BusModel;
use crate::cartridge::RomId;
use crate::error::StateError;
use crate::input::FrameInput;
use crate::nes::{boot_refusal, lemma_continued, loads, NesModel};
use crate::state::parts::lemma_restored_shape;
use crate::state::wire::Tape;
use crate::state::{encoded, law_decoding_undoes_encoding, machine_in};

verus! {

impl NesModel {
    /// The same ROM is in both machines.
    pub open spec fn plays_the_rom_of(self, other: NesModel) -> bool {
        self.cpu.bus.cart().same_rom(other.cpu.bus.cart())
    }

    /// The machine after the save state of `saved` was restored in it.
    pub open spec fn rolled_back_to(self, saved: NesModel) -> NesModel {
        machine_in(encoded(saved)).0.continued(self)
    }
}

/// The save state of a machine that ran from power-on is never refused by a machine with the same
/// ROM, and brings back the machine that was saved.
pub proof fn law_a_saved_machine_comes_back(m: NesModel, current: NesModel)
    requires
        m.sound(),
        current.plays_the_rom_of(m),
    ensures
        forall|result: Result<(), StateError>|
            #[trigger] loads(current, encoded(m), result) ==> result is Ok,
        loads(current, encoded(m), Ok(())),
        current.rolled_back_to(m).alike(m),
        current.rolled_back_to(m).wf(),
{
    let b = m.cpu.bus;
    assert(b.savable() && b.valid() && b.kept().valid()) by {
        reveal(BusModel::wf);
    }
    law_decoding_undoes_encoding(m);
    let restored = m.kept();
    lemma_restored_shape(Tape::at(encoded(m).skip(8)));
    lemma_continued(restored, current);
    let back = current.rolled_back_to(m);
    assert(b.flat_ram =~= Seq::<u8>::empty());
    assert(b.access_log =~= Seq::<(u16, u8, bool)>::empty());
    lemma_parts_alike(back.cpu.bus, b);
}

/// Going back and running the same inputs again gives what the uninterrupted run gave: the same
/// machine but for its output, with the same fingerprint and the same save state. If both put out
/// it also shows the same picture. Only a single frame does not suffice for that if some of its
/// lines were painted before the machine was saved.
pub proof fn law_a_replay_matches_the_run(
    m: NesModel,
    current: NesModel,
    inputs: Seq<FrameInput>,
)
    requires
        m.sound(),
        current.plays_the_rom_of(m),
    ensures
        ({
            let replayed = current.rolled_back_to(m).ran_frames(inputs);
            let run = m.ran_frames(inputs);
            &&& replayed.alike(run)
            &&& replayed.stamp() == run.stamp()
            &&& encoded(replayed) == encoded(run)
            &&& m.puts_out() && current.puts_out() && (inputs.len() > 1 || inputs.len() > 0
                && m.between_frames()) ==> replayed.picture() == run.picture()
        }),
{
    law_a_saved_machine_comes_back(m, current);
    let back = current.rolled_back_to(m);
    if m.puts_out() && current.puts_out() && (inputs.len() > 1 || inputs.len() > 0
        && m.between_frames()) {
        lemma_alike_both_ways(back, m);
        law_the_pictures_agree(m, back, inputs);
    }
    law_output_never_matters(back, m, inputs);
    law_output_is_not_recorded(back.ran_frames(inputs), m.ran_frames(inputs));
}

proof fn lemma_alike_both_ways(m: NesModel, n: NesModel)
    requires
        m.alike(n),
    ensures
        n.alike(m),
{
    reveal(BusModel::alike);
}

proof fn lemma_frames_add_up(m: NesModel, inputs: Seq<FrameInput>, more: Seq<FrameInput>)
    ensures
        m.ran_frames(inputs).ran_frames(more) == m.ran_frames(inputs + more),
    decreases more.len(),
{
    if more.len() == 0 {
        assert(inputs + more =~= inputs);
    } else {
        lemma_frames_add_up(m, inputs, more.drop_last());
        assert((inputs + more).drop_last() =~= inputs + more.drop_last());
    }
}

/// Rollback: a machine is saved, runs on, and is brought back. From there it gives, frame by frame,
/// what a machine gives that never went another way: the same fingerprint, the same save state and
/// the same picture. Where it was saved before its first frame the picture is the same from the
/// second frame on: the first line of the first frame is painted at power-on.
pub proof fn law_rollback_leaves_no_trace(
    rom: Seq<u8>,
    rom_id: RomId,
    inputs: Seq<FrameInput>,
    astray: Seq<FrameInput>,
    more: Seq<FrameInput>,
)
    requires
        boot_refusal(rom) is None,
    ensures
        ({
            let saved = NesModel::booted(rom, rom_id).ran_frames(inputs);
            let current = saved.ran_frames(astray);
            let replayed = current.rolled_back_to(saved).ran_frames(more);
            let run = NesModel::booted(rom, rom_id).ran_frames(inputs + more);
            &&& loads(current, encoded(saved), Ok(()))
            &&& replayed.stamp() == run.stamp()
            &&& encoded(replayed) == encoded(run)
            &&& more.len() > 1 || more.len() > 0 && inputs.len() > 0 ==> replayed.picture()
                == run.picture()
        }),
{
    let m = NesModel::booted(rom, rom_id);
    law_a_booted_machine_is_sound(rom, rom_id);
    lemma_booted_puts_out(rom, rom_id);
    let saved = m.ran_frames(inputs);
    let current = saved.ran_frames(astray);
    law_frames_go_on(m, inputs);
    law_frames_go_on(saved, astray);
    lemma_frames_keep_putting_out(m, inputs);
    lemma_frames_keep_putting_out(saved, astray);
    if inputs.len() > 0 {
        law_frames_go_on(m, inputs.drop_last());
        law_a_frame_ends_in_vblank(m.ran_frames(inputs.drop_last()), inputs.last());
    }
    law_a_saved_machine_comes_back(saved, current);
    law_a_replay_matches_the_run(saved, current, more);
    lemma_frames_add_up(m, inputs, more);
}

/// Whatever was played, a booted machine can be saved, and brought back in a machine booted from
/// the same ROM, whatever was played there.
pub proof fn law_a_booted_machine_can_always_be_saved(
    rom: Seq<u8>,
    rom_id: RomId,
    inputs: Seq<FrameInput>,
    others: Seq<FrameInput>,
)
    requires
        boot_refusal(rom) is None,
    ensures
        ({
            let saved = NesModel::booted(rom, rom_id).ran_frames(inputs);
            let current = NesModel::booted(rom, rom_id).ran_frames(others);
            &&& loads(current, encoded(saved), Ok(()))
            &&& current.rolled_back_to(saved).alike(saved)
        }),
{
    let m = NesModel::booted(rom, rom_id);
    law_a_booted_machine_is_sound(rom, rom_id);
    law_frames_go_on(m, inputs);
    law_frames_go_on(m, others);
    law_a_saved_machine_comes_back(m.ran_frames(inputs), m.ran_frames(others));
}

} // verus!
