use vstd::prelude::*;

use crate::border::BorderMode;
use crate::style::{overlay, SquircleStyleRefinement};

verus! {

/// The outline a paint pass traces, relative to the element's bounds.
#[derive(Clone, Copy, Debug, PartialEq, Eq, Structural)]
pub enum PassGeometry {
    /// The bounds themselves: no size offset, no radius offset.
    Bounds,
    /// The bounds' size with every corner radius shifted by the border
    /// mode's radius offset.
    RadiusOffset,
    /// The bounds shrunk by the border mode's size offset, centered, with
    /// every corner radius shifted by its radius offset.
    BorderOffsets,
}

/// One painted squircle outline: filled with `fill` if set, then stroked
/// with `stroke` if set.
#[derive(Debug, PartialEq, Eq)]
pub struct PaintPass<B> {
    pub geometry: PassGeometry,
    pub fill: Option<B>,
    pub stroke: Option<B>,
}

/// The background in effect: while the element is active, the active
/// background if set; while it is hovered, the hover background if set;
/// otherwise the plain background.
pub open spec fn spec_effective_background<B>(
    active: bool,
    hovered: bool,
    active_bg: Option<B>,
    hover_bg: Option<B>,
    background: Option<B>,
) -> Option<B> {
    if active {
        overlay(background, active_bg)
    } else if hovered {
        overlay(background, hover_bg)
    } else {
        background
    }
}

/// Chooses the fill for the element's interaction state: `active` takes
/// precedence over `hovered`, and a state without its own background falls
/// back to the plain one.
pub fn effective_background<B>(
    active: bool,
    hovered: bool,
    active_bg: Option<B>,
    hover_bg: Option<B>,
    background: Option<B>,
) -> (r: Option<B>)
    ensures
        r == spec_effective_background(active, hovered, active_bg, hover_bg, background),
        active && active_bg is Some ==> r == active_bg,
        !active && hovered && hover_bg is Some ==> r == hover_bg,
        (!active || active_bg is None) && (active || !hovered || hover_bg is None) ==> r == background,
{
    if active {
        match active_bg {
            Some(bg) => Some(bg),
            None => background,
        }
    } else if hovered {
        match hover_bg {
            Some(bg) => Some(bg),
            None => background,
        }
    } else {
        background
    }
}

/// The passes that paint a squircle with an optional fill and an optional
/// border:
/// - fill only: one filled pass over the bounds;
/// - fill and border, where the border keeps the bounds' size (centered, or
///   of zero width): one pass over the radius-offset outline, filled then
///   stroked;
/// - fill and border otherwise: a filled pass over the bounds, then a stroked
///   pass over the border-offset outline;
/// - border only: one stroked pass over the border-offset outline;
/// - neither: nothing.
pub open spec fn planned_passes<B>(
    background: Option<B>,
    border_color: Option<B>,
    mode: BorderMode,
    border_width_is_zero: bool,
) -> Seq<PaintPass<B>> {
    match (background, border_color) {
        (Some(bg), None) => seq![PaintPass { geometry: PassGeometry::Bounds, fill: Some(bg), stroke: None }],
        (Some(bg), Some(border)) => if mode == BorderMode::Center || border_width_is_zero {
            seq![PaintPass { geometry: PassGeometry::RadiusOffset, fill: Some(bg), stroke: Some(border) }]
        } else {
            seq![
                PaintPass { geometry: PassGeometry::Bounds, fill: Some(bg), stroke: None },
                PaintPass { geometry: PassGeometry::BorderOffsets, fill: None, stroke: Some(border) },
            ]
        },
        (None, None) => seq![],
        (None, Some(border)) => seq![
            PaintPass { geometry: PassGeometry::BorderOffsets, fill: None, stroke: Some(border) },
        ],
    }
}

/// Plans the fill and stroke passes of a squircle, in painting order.
/// `border_width_is_zero` tells whether the border width in effect is zero.
pub fn paint_passes<B>(
    background: Option<B>,
    border_color: Option<B>,
    mode: BorderMode,
    border_width_is_zero: bool,
) -> (passes: Vec<PaintPass<B>>)
    ensures
        passes@ == planned_passes(background, border_color, mode, border_width_is_zero),        passes@.len() <= 2,
        forall|i: int| 0 <= i < passes@.len() && (#[trigger] passes@[i]).fill is None
            ==> passes@[i].geometry == PassGeometry::BorderOffsets && passes@[i].stroke == border_color,
        forall|i: int| 0 <= i < passes@.len() && (#[trigger] passes@[i]).stroke is None
            ==> passes@[i].geometry == PassGeometry::Bounds && passes@[i].fill == background,
        forall|i: int| 0 <= i < passes@.len() && (#[trigger] passes@[i]).fill is Some && passes@[i].stroke is Some
            ==> passes@[i].geometry == PassGeometry::RadiusOffset,
        background is None && border_color is None ==> passes@.len() == 0,
        background is None && border_color is Some ==> passes@.len() == 1 && passes@[0].fill is None
            && passes@[0].stroke == border_color && passes@[0].geometry == PassGeometry::BorderOffsets,
        background is Some && border_color is None ==> passes@.len() == 1 && passes@[0].fill == background
            && passes@[0].stroke is None && passes@[0].geometry == PassGeometry::Bounds,
        background is Some && border_color is Some && (mode == BorderMode::Center || border_width_is_zero)
            ==> passes@.len() == 1 && passes@[0].fill == background && passes@[0].stroke == border_color,
        background is Some && border_color is Some && !(mode == BorderMode::Center || border_width_is_zero)
            ==> passes@.len() == 2 && passes@[0].fill == background && passes@[0].stroke is None
            && passes@[1].fill is None && passes@[1].stroke == border_color,
{
    match (background, border_color) {
        (Some(bg), None) => vec![PaintPass { geometry: PassGeometry::Bounds, fill: Some(bg), stroke: None }],
        (Some(bg), Some(border)) => {
            if crate::border::size_offset_vanishes(mode, border_width_is_zero) {
                vec![PaintPass { geometry: PassGeometry::RadiusOffset, fill: Some(bg), stroke: Some(border) }]
            } else {
                vec![
                    PaintPass { geometry: PassGeometry::Bounds, fill: Some(bg), stroke: None },
                    PaintPass { geometry: PassGeometry::BorderOffsets, fill: None, stroke: Some(border) },
                ]
            }
        },
        (None, None) => Vec::new(),
        (None, Some(border)) => vec![
            PaintPass { geometry: PassGeometry::BorderOffsets, fill: None, stroke: Some(border) },
        ],
    }
}

impl<P, B: Copy> SquircleStyleRefinement<P, B> {
    /// Plans the passes that paint an element with this style: the fill is
    /// the background in effect for the interaction state, the border is
    /// stroked in the border mode in effect (centered when unset), and
    /// `border_width_is_zero` tells whether the border width in effect
    /// (zero when unset) is zero.
    pub fn plan_paint(
        &self,
        active: bool,
        hovered: bool,
        active_bg: Option<B>,
        hover_bg: Option<B>,
        border_width_is_zero: bool,
    ) -> (passes: Vec<PaintPass<B>>)
        ensures
            passes@ == planned_passes(
                spec_effective_background(active, hovered, active_bg, hover_bg, self.background),
                self.border_color,
                self.effective_border_mode(),
                border_width_is_zero,
            ),
            forall|i: int| 0 <= i < passes@.len() && (#[trigger] passes@[i]).fill is None
                ==> passes@[i].geometry == PassGeometry::BorderOffsets && passes@[i].stroke == self.border_color,
            forall|i: int| 0 <= i < passes@.len() && (#[trigger] passes@[i]).stroke is None
                ==> passes@[i].geometry == PassGeometry::Bounds,
            self.border_color is None ==> forall|i: int| 0 <= i < passes@.len() ==> (#[trigger] passes@[i]).stroke is None,
            !active && !hovered && self.background is None ==> forall|i: int|
                0 <= i < passes@.len() ==> (#[trigger] passes@[i]).fill is None,
            !active && !hovered && self.background is Some ==> passes@.len() >= 1 && passes@[0].fill == self.background,
    {
        let background = effective_background(active, hovered, active_bg, hover_bg, self.background);
        let mode = self.resolved_border_mode();
        paint_passes(background, self.border_color, mode, border_width_is_zero)
    }
}

/// What every paint plan keeps: at most two passes, none of them empty; the
/// fill, if any, is painted exactly once, in the first pass, and the border,
/// if any, is stroked exactly once, in the last pass, so a border is always
/// painted over the fill; without a border nothing is offset; and the fill
/// and stroke share a pass only where the border keeps the bounds' size.
pub proof fn lemma_paint_plan<B>(
    background: Option<B>,
    border_color: Option<B>,
    mode: BorderMode,
    border_width_is_zero: bool,
)
    ensures
        ({
            let passes = planned_passes(background, border_color, mode, border_width_is_zero);
            &&& passes.len() <= 2
            &&& passes.len() == 0 <==> (background is None && border_color is None)
            &&& forall|i: int| 0 <= i < passes.len() ==> (#[trigger] passes[i]).fill is Some || passes[i].stroke is Some
            &&& forall|i: int| 0 <= i < passes.len() && (#[trigger] passes[i]).fill is Some
                ==> i == 0 && passes[i].fill == background
            &&& forall|i: int| 0 <= i < passes.len() && (#[trigger] passes[i]).stroke is Some
                ==> i == passes.len() - 1 && passes[i].stroke == border_color
            &&& background is Some ==> passes[0].fill == background
            &&& border_color is Some ==> passes[passes.len() - 1].stroke == border_color
            &&& border_color is None ==> forall|i: int| 0 <= i < passes.len() ==> (#[trigger] passes[i]).geometry
                == PassGeometry::Bounds
            &&& forall|i: int| 0 <= i < passes.len() && (#[trigger] passes[i]).fill is Some && passes[i].stroke is Some
                ==> passes[i].geometry == PassGeometry::RadiusOffset && (mode == BorderMode::Center || border_width_is_zero)
            &&& forall|i: int| 0 <= i < passes.len() && (#[trigger] passes[i]).fill is None
                ==> passes[i].geometry == PassGeometry::BorderOffsets
            &&& forall|i: int| 0 <= i < passes.len() && (#[trigger] passes[i]).stroke is None
                ==> passes[i].geometry == PassGeometry::Bounds
            &&& background is None && border_color is Some ==> passes.len() == 1
                && passes[0].geometry == PassGeometry::BorderOffsets
            &&& background is Some && border_color is Some ==> (passes.len() == 1 <==> (mode == BorderMode::Center
                || border_width_is_zero))
        }),
{
}

/// An active element shows its active background when it has one, a hovered
/// but inactive one its hover background when it has one, and otherwise the
/// plain background shows.
pub proof fn lemma_effective_background<B>(
    active: bool,
    hovered: bool,
    active_bg: Option<B>,
    hover_bg: Option<B>,
    background: Option<B>,
)
    ensures
        active && active_bg is Some ==> spec_effective_background(active, hovered, active_bg, hover_bg, background)
            == active_bg,
        !active && hovered && hover_bg is Some ==> spec_effective_background(
            active,
            hovered,
            active_bg,
            hover_bg,
            background,
        ) == hover_bg,
        (!active || active_bg is None) && (active || !hovered || hover_bg is None) ==> spec_effective_background(
            active,
            hovered,
            active_bg,
            hover_bg,
            background,
        ) == background,
{
}

} // verus!
