//! Measured-dimension transition controller: computes the style text that
//! animates a container between size zero and its content's natural size
//! along one axis. The host reads the scroll size of the live content
//! element and hands it in; with no mounted element there is nothing to
//! measure and the dimension counts as zero.

use vstd::prelude::*;

use crate::digits::dec_int_seq;
use crate::digits::i32_dec_string;

verus! {

/// The axis along which the container collapses, fixed at construction.
#[derive(Debug, Clone, Copy, PartialEq, Eq, Structural)]
pub enum CollapseAxis {
    X,
    Y,
}

impl Default for CollapseAxis {
    /// A collapse folds vertically unless the caller picks an axis.
    fn default() -> (r: Self)
        ensures
            r == CollapseAxis::Y,
    {
        CollapseAxis::Y
    }
}

/// The style declarations opening the emitted text: minimum size zero and a
/// size declaration, both along the chosen axis alone.
pub open spec fn axis_style_prefix(axis: CollapseAxis) -> Seq<char> {
    match axis {
        CollapseAxis::X => "min-width: 0px; width: "@,
        CollapseAxis::Y => "min-height: 0px; height: "@,
    }
}

/// The size the style asks for: the measured dimension when shown, zero when
/// hidden.
pub open spec fn target_dimension(show: bool, measured: int) -> int {
    if show {
        measured
    } else {
        0
    }
}

/// A measurement of an element that was never mounted counts as zero.
pub open spec fn measured_or_zero(measured: Option<i32>) -> int {
    match measured {
        Some(d) => d as int,
        None => 0,
    }
}

/// The complete emitted style text for one recomputation.
pub open spec fn collapse_style_text(axis: CollapseAxis, show: bool, measured: int) -> Seq<char> {
    axis_style_prefix(axis) + dec_int_seq(target_dimension(show, measured)) + "px"@
}

/// Computes the style text from the current `show` intent, the fixed axis and
/// the scroll size measured from the live content element, if one is mounted.
pub fn collapse_style(show: bool, axis: CollapseAxis, measured: Option<i32>) -> (s: String)
    ensures
        s@ == collapse_style_text(axis, show, measured_or_zero(measured)),
{
    let dimension: i32 = match measured {
        Some(d) => d,
        None => 0,
    };
    let target: i32 = if show {
        dimension
    } else {
        0
    };
    let number = i32_dec_string(target);
    let prefix: &str = match axis {
        CollapseAxis::X => "min-width: 0px; width: ",
        CollapseAxis::Y => "min-height: 0px; height: ",
    };
    String::from_str(prefix).concat(number.as_str()).concat("px")
}

/// Hidden, the emitted size is zero: the style text does not depend on the
/// measured dimension at all while `show` is false.
pub proof fn lemma_hidden_style_constant(axis: CollapseAxis, d1: int, d2: int)
    ensures
        collapse_style_text(axis, false, d1) == collapse_style_text(axis, false, d2),
{
}

/// Shown, the emitted size is exactly the measured dimension; hidden, it is
/// zero.
pub proof fn lemma_emitted_size(show: bool, d: int)
    ensures
        target_dimension(true, d) == d,
        target_dimension(false, d) == 0,
{
}

/// The style text is a function of the current inputs alone: any two
/// computations with the same visibility, axis and measured dimension emit
/// the same text, so toggling `show` away and back reproduces the previous
/// style exactly.
pub proof fn lemma_style_repeatable(
    axis: CollapseAxis,
    show: bool,
    d: int,
    s1: Seq<char>,
    s2: Seq<char>,
)
    requires
        s1 == collapse_style_text(axis, show, d),
        s2 == collapse_style_text(axis, show, d),
    ensures
        s1 == s2,
{
}

/// An element that is never mounted measures zero, so its container collapses
/// to size zero and stays there whatever `show` says.
pub proof fn lemma_unmounted_stays_collapsed(axis: CollapseAxis, show: bool)
    ensures
        collapse_style_text(axis, show, measured_or_zero(None)) == collapse_style_text(
            axis,
            false,
            0,
        ),
{
}

/// The style text constrains an axis exactly when it opens with that axis's
/// declarations.
pub open spec fn declares_axis(style: Seq<char>, axis: CollapseAxis) -> bool {
    axis_style_prefix(axis).is_prefix_of(style)
}

/// The emitted style constrains the chosen axis and leaves the other one
/// unconstrained: an X style opens with width declarations and never with
/// height declarations, a Y style the other way around.
pub proof fn lemma_axis_exclusive(show: bool, d: int)
    ensures
        declares_axis(collapse_style_text(CollapseAxis::X, show, d), CollapseAxis::X),
        !declares_axis(collapse_style_text(CollapseAxis::X, show, d), CollapseAxis::Y),
        declares_axis(collapse_style_text(CollapseAxis::Y, show, d), CollapseAxis::Y),
        !declares_axis(collapse_style_text(CollapseAxis::Y, show, d), CollapseAxis::X),
{
    reveal_strlit("min-width: 0px; width: ");
    reveal_strlit("min-height: 0px; height: ");
    let wx = "min-width: 0px; width: "@;
    let hy = "min-height: 0px; height: "@;
    let sx = collapse_style_text(CollapseAxis::X, show, d);
    let sy = collapse_style_text(CollapseAxis::Y, show, d);
    assert(wx.is_prefix_of(sx));
    assert(hy.is_prefix_of(sy));
    assert(sx[4] == 'w');
    assert(sy[4] == 'h');
    assert(!hy.is_prefix_of(sx)) by {
        if hy.is_prefix_of(sx) {
            assert(sx[4] == hy[4]);
        }
    }
    assert(!wx.is_prefix_of(sy)) by {
        if wx.is_prefix_of(sy) {
            assert(sy[4] == wx[4]);
        }
    }
}

} // verus!
