use vstd::prelude::*;

use crate::viewer::model::AlignmentAxis;

verus! {

/// The colors series are drawn in, as `0xRRGGBB`, in the order runs are listed.
pub open spec fn palette() -> Seq<u32> {
    seq![
        0x2563eb,
        0xdc2626,
        0x059669,
        0x7c3aed,
        0xea580c,
        0x0891b2,
        0xdb2777,
        0x65a30d,
        0x4f46e5,
        0x9333ea,
    ]
}

/// The color of the series at `index`: the palette repeats every ten series.
pub fn series_color_rgb(index: usize) -> (rgb: u32)
    ensures
        rgb == palette()[index as int % 10],
{
    let colors: [u32; 10] = [
        0x2563eb,
        0xdc2626,
        0x059669,
        0x7c3aed,
        0xea580c,
        0x0891b2,
        0xdb2777,
        0x65a30d,
        0x4f46e5,
        0x9333ea,
    ];
    let rgb = colors[index % 10];
    assert(colors@ =~= palette());
    rgb
}

/// Up to ten runs compared at once are each drawn in a color of their own.
pub proof fn law_compared_runs_get_distinct_colors(i: int, j: int)
    requires
        0 <= i < 10,
        0 <= j < 10,
        i != j,
    ensures
        palette()[i] != palette()[j],
{
}

/// The label the viewer shows for the values of an axis.
pub open spec fn axis_label_text(axis: AlignmentAxis) -> Seq<char> {
    match axis {
        AlignmentAxis::Step => "step"@,
        AlignmentAxis::ElapsedTime => "elapsed_ms"@,
    }
}

/// Names the axis values of an alignment axis.
pub fn axis_value_label(axis: AlignmentAxis) -> (label: &'static str)
    ensures
        label@ == axis_label_text(axis),
{
    match axis {
        AlignmentAxis::Step => "step",
        AlignmentAxis::ElapsedTime => "elapsed_ms",
    }
}

} // verus!
