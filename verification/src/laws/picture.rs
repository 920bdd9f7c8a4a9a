//! Every frame paints the whole picture.

use vstd::prelude::*;

use super::output::{law_output_never_matters, lemma_frame_like};
use super::progress::{law_a_frame_ends_in_vblank, law_frames_go_on};
use crate::bus::BusModel;
use crate::input::FrameInput;
use crate::nes::NesModel;

verus! {

/// Machines that differ at most in their output paint alike from here on if both put out, and
/// either no line of the next frame was reached or they show the same picture.
proof fn lemma_watched(m: NesModel, n: NesModel)
    requires
        m.wf(),
        n.wf(),
        m.alike(n),
        m.puts_out(),
        n.puts_out(),
        m.between_frames() || m.picture() == n.picture(),
    ensures
        m.like(n, true),
{
    reveal(BusModel::like);
    reveal(BusModel::wf);
}

/// A frame paints all of the picture: machines that differed in their picture before it, and in
/// nothing else but their output, show the same one afterwards.
pub proof fn law_a_frame_paints_the_whole_picture(m: NesModel, n: NesModel, input: FrameInput)
    requires
        m.wf(),
        n.wf(),
        m.alike(n),
        m.puts_out(),
        n.puts_out(),
        m.between_frames(),
    ensures
        m.ran_frame(input).picture() == n.ran_frame(input).picture(),
{
    lemma_watched(m, n);
    lemma_frame_like(m, n, true, input);
}

/// So do any number of frames. The first of them has to begin between frames, unless the machines
/// show the same picture already, or another frame follows.
pub proof fn law_the_pictures_agree(m: NesModel, n: NesModel, inputs: Seq<FrameInput>)
    requires
        m.wf(),
        n.wf(),
        m.alike(n),
        m.puts_out(),
        n.puts_out(),
        inputs.len() > 1 || inputs.len() > 0 && m.between_frames() || m.picture() == n.picture(),
    ensures
        m.ran_frames(inputs).picture() == n.ran_frames(inputs).picture(),
{
    if inputs.len() > 0 {
        let earlier = inputs.drop_last();
        let input = inputs.last();
        law_frames_go_on(m, earlier);
        law_frames_go_on(n, earlier);
        let p = m.ran_frames(earlier);
        let q = n.ran_frames(earlier);
        law_output_never_matters(m, n, earlier);
        lemma_frames_keep_putting_out(m, earlier);
        lemma_frames_keep_putting_out(n, earlier);
        if earlier.len() > 0 {
            let before = m.ran_frames(earlier.drop_last());
            law_frames_go_on(m, earlier.drop_last());
            law_a_frame_ends_in_vblank(before, earlier.last());
        }
        lemma_watched(p, q);
        lemma_frame_like(p, q, true, input);
    }
}

/// Frames switch no output off.
pub proof fn lemma_frames_keep_putting_out(m: NesModel, inputs: Seq<FrameInput>)
    requires
        m.wf(),
        m.puts_out(),
    ensures
        m.ran_frames(inputs).puts_out(),
    decreases inputs.len(),
{
    if inputs.len() > 0 {
        let before = m.ran_frames(inputs.drop_last());
        lemma_frames_keep_putting_out(m, inputs.drop_last());
        law_frames_go_on(m, inputs.drop_last());
        assert(before.alike(before)) by {
            reveal(BusModel::alike);
        }
        lemma_watched(before, before);
        lemma_frame_like(before, before, true, inputs.last());
    }
}

} // verus!
