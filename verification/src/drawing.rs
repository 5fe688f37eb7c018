//! Per-frame draw commands: what the pipeline paints on a render surface
//! from the layout geometry of one frame.

use vstd::prelude::*;

use crate::geometry::{content_rect, content_rect_of, Layout};
use crate::studio::Drawing;

verus! {

/// Draw one frame of the layout tree onto a surface: fill the root's
/// content rectangle — its bounds inset by its padding — with the frame's
/// solid colour. Afterwards the surface holds exactly that rectangle as its
/// most recent fill, with pending commands not yet flushed.
pub fn draw_tree(drawing: &mut Drawing, layout: &Layout)
    requires
        layout.is_valid(),
    ensures
        final(drawing).width_spec() == old(drawing).width_spec(),
        final(drawing).height_spec() == old(drawing).height_spec(),
        final(drawing).last_fill_spec() == Some(content_rect_of(*layout)),
        final(drawing).drawn_spec(),
        !final(drawing).flushed_spec(),
{
    let content = content_rect(layout);
    drawing.fill_rect(content);
}

} // verus!
