use vstd::prelude::*;

use crate::border::BorderMode;

verus! {

/// `over` if it is set, else `base`: how one refinement field overrides another.
pub open spec fn overlay<T>(base: Option<T>, over: Option<T>) -> Option<T> {
    match over {
        Some(v) => Some(v),
        None => base,
    }
}

fn overlay_option<T>(base: Option<T>, over: Option<T>) -> (r: Option<T>)
    ensures
        r == overlay(base, over),
{
    match over {
        Some(v) => Some(v),
        None => base,
    }
}

/// Optional radii for the four corners of a squircle.
#[derive(Clone, Debug, PartialEq)]
pub struct CornerRadii<P> {
    pub top_left: Option<P>,
    pub top_right: Option<P>,
    pub bottom_right: Option<P>,
    pub bottom_left: Option<P>,
}

impl<P> CornerRadii<P> {
    /// No corner radius set.
    pub open spec fn empty() -> Self {
        CornerRadii { top_left: None, top_right: None, bottom_right: None, bottom_left: None }
    }

    /// Corner by corner, `other`'s radius where it has one, else this one's.
    pub open spec fn refined_by(self, other: Self) -> Self {
        CornerRadii {
            top_left: overlay(self.top_left, other.top_left),
            top_right: overlay(self.top_right, other.top_right),
            bottom_right: overlay(self.bottom_right, other.bottom_right),
            bottom_left: overlay(self.bottom_left, other.bottom_left),
        }
    }

    /// Merges `other` into these radii, `other` taking precedence per corner.
    pub fn refined(self, other: Self) -> (r: Self)
        ensures
            r == self.refined_by(other),
            other.top_left is Some ==> r.top_left == other.top_left,
            other.top_left is None ==> r.top_left == self.top_left,
            other.top_right is Some ==> r.top_right == other.top_right,
            other.top_right is None ==> r.top_right == self.top_right,
            other.bottom_right is Some ==> r.bottom_right == other.bottom_right,
            other.bottom_right is None ==> r.bottom_right == self.bottom_right,
            other.bottom_left is Some ==> r.bottom_left == other.bottom_left,
            other.bottom_left is None ==> r.bottom_left == self.bottom_left,
    {
        let CornerRadii { top_left, top_right, bottom_right, bottom_left } = self;
        CornerRadii {
            top_left: overlay_option(top_left, other.top_left),
            top_right: overlay_option(top_right, other.top_right),
            bottom_right: overlay_option(bottom_right, other.bottom_right),
            bottom_left: overlay_option(bottom_left, other.bottom_left),
        }
    }
}

impl<P> Default for CornerRadii<P> {
    /// No corner radius set.
    fn default() -> (r: Self)
        ensures
            r == Self::empty(),
    {
        CornerRadii { top_left: None, top_right: None, bottom_right: None, bottom_left: None }
    }
}

/// Style properties specific to squircle elements: corner radii and
/// smoothing, border width, placement and color, and the fill.
///
/// `P` is the pixel quantity and `B` the color or background of the host
/// toolkit. Every field is optional: an unset field leaves the value to an
/// earlier refinement or to the painting defaults.
#[derive(Clone, Debug, PartialEq)]
pub struct SquircleStyleRefinement<P, B> {
    /// Corner radii for each corner of the squircle.
    pub corner_radii: CornerRadii<P>,
    /// Controls how smooth the corners are (0.0 to 1.0, default 1.0).
    pub corner_smoothing: Option<P>,
    /// Whether to preserve smoothing when corners would overlap (default true).
    pub preserve_smoothing: Option<bool>,
    /// Width of the border stroke.
    pub border_width: Option<P>,
    /// How the border is positioned relative to the bounds (default centered).
    pub border_mode: Option<BorderMode>,
    /// Color/background for the border.
    pub border_color: Option<B>,
    /// Fill color/background for the squircle.
    pub background: Option<B>,
}

impl<P, B> SquircleStyleRefinement<P, B> {
    /// The refinement that sets nothing.
    pub open spec fn empty() -> Self {
        SquircleStyleRefinement {
            corner_radii: CornerRadii::empty(),
            corner_smoothing: None,
            preserve_smoothing: None,
            border_width: None,
            border_mode: None,
            border_color: None,
            background: None,
        }
    }

    /// Field by field (and corner by corner), `other`'s value where it has
    /// one, else this refinement's.
    pub open spec fn refined_by(self, other: Self) -> Self {
        SquircleStyleRefinement {
            corner_radii: self.corner_radii.refined_by(other.corner_radii),
            corner_smoothing: overlay(self.corner_smoothing, other.corner_smoothing),
            preserve_smoothing: overlay(self.preserve_smoothing, other.preserve_smoothing),
            border_width: overlay(self.border_width, other.border_width),
            border_mode: overlay(self.border_mode, other.border_mode),
            border_color: overlay(self.border_color, other.border_color),
            background: overlay(self.background, other.background),
        }
    }

    pub open spec fn with_corner_radii(self, corner_radii: CornerRadii<P>) -> Self {
        SquircleStyleRefinement { corner_radii, ..self }
    }

    pub open spec fn with_top_left(self, px: P) -> Self {
        self.with_corner_radii(CornerRadii { top_left: Some(px), ..self.corner_radii })
    }

    pub open spec fn with_top_right(self, px: P) -> Self {
        self.with_corner_radii(CornerRadii { top_right: Some(px), ..self.corner_radii })
    }

    pub open spec fn with_bottom_left(self, px: P) -> Self {
        self.with_corner_radii(CornerRadii { bottom_left: Some(px), ..self.corner_radii })
    }

    pub open spec fn with_bottom_right(self, px: P) -> Self {
        self.with_corner_radii(CornerRadii { bottom_right: Some(px), ..self.corner_radii })
    }

    pub open spec fn with_corner_smoothing(self, px: P) -> Self {
        SquircleStyleRefinement { corner_smoothing: Some(px), ..self }
    }

    pub open spec fn with_preserve_smoothing(self, preserve: bool) -> Self {
        SquircleStyleRefinement { preserve_smoothing: Some(preserve), ..self }
    }

    pub open spec fn with_border_width(self, px: P) -> Self {
        SquircleStyleRefinement { border_width: Some(px), ..self }
    }

    pub open spec fn with_border_mode(self, mode: BorderMode) -> Self {
        SquircleStyleRefinement { border_mode: Some(mode), ..self }
    }

    pub open spec fn with_border_color(self, color: B) -> Self {
        SquircleStyleRefinement { border_color: Some(color), ..self }
    }

    pub open spec fn with_background(self, color: B) -> Self {
        SquircleStyleRefinement { background: Some(color), ..self }
    }

    /// The border mode painting uses: the one set, else `Center`.
    pub open spec fn effective_border_mode(self) -> BorderMode {
        match self.border_mode {
            Some(mode) => mode,
            None => BorderMode::Center,
        }
    }

    /// Whether painting preserves smoothing: the value set, else `true`.
    pub open spec fn effective_preserve_smoothing(self) -> bool {
        match self.preserve_smoothing {
            Some(preserve) => preserve,
            None => true,
        }
    }

    /// Merges another style refinement into this one, with `other` taking precedence.
    pub fn refined(self, other: Self) -> (r: Self)
        ensures
            r == self.refined_by(other),
            other.corner_smoothing is Some ==> r.corner_smoothing == other.corner_smoothing,
            other.corner_smoothing is None ==> r.corner_smoothing == self.corner_smoothing,
            other.preserve_smoothing is Some ==> r.preserve_smoothing == other.preserve_smoothing,
            other.preserve_smoothing is None ==> r.preserve_smoothing == self.preserve_smoothing,
            other.border_width is Some ==> r.border_width == other.border_width,
            other.border_width is None ==> r.border_width == self.border_width,
            other.border_mode is Some ==> r.border_mode == other.border_mode,
            other.border_mode is None ==> r.border_mode == self.border_mode,
            other.border_color is Some ==> r.border_color == other.border_color,
            other.border_color is None ==> r.border_color == self.border_color,
            other.background is Some ==> r.background == other.background,
            other.background is None ==> r.background == self.background,
            other.corner_radii.top_left is Some ==> r.corner_radii.top_left == other.corner_radii.top_left,
            other.corner_radii.top_left is None ==> r.corner_radii.top_left == self.corner_radii.top_left,
            other.corner_radii.top_right is Some ==> r.corner_radii.top_right == other.corner_radii.top_right,
            other.corner_radii.top_right is None ==> r.corner_radii.top_right == self.corner_radii.top_right,
            other.corner_radii.bottom_right is Some ==> r.corner_radii.bottom_right == other.corner_radii.bottom_right,
            other.corner_radii.bottom_right is None ==> r.corner_radii.bottom_right == self.corner_radii.bottom_right,
            other.corner_radii.bottom_left is Some ==> r.corner_radii.bottom_left == other.corner_radii.bottom_left,
            other.corner_radii.bottom_left is None ==> r.corner_radii.bottom_left == self.corner_radii.bottom_left,
    {
        let SquircleStyleRefinement {
            corner_radii,
            corner_smoothing,
            preserve_smoothing,
            border_width,
            border_mode,
            border_color,
            background,
        } = self;
        SquircleStyleRefinement {
            corner_radii: corner_radii.refined(other.corner_radii),
            corner_smoothing: overlay_option(corner_smoothing, other.corner_smoothing),
            preserve_smoothing: overlay_option(preserve_smoothing, other.preserve_smoothing),
            border_width: overlay_option(border_width, other.border_width),
            border_mode: overlay_option(border_mode, other.border_mode),
            border_color: overlay_option(border_color, other.border_color),
            background: overlay_option(background, other.background),
        }
    }
}

impl<P, B> SquircleStyleRefinement<P, B> {
    /// Positions the border outside the squircle's bounds.
    pub fn border_outside(self) -> (r: Self)
        ensures
            r == self.with_border_mode(BorderMode::Outside),
            r.corner_radii == self.corner_radii,
            r.corner_smoothing == self.corner_smoothing,
            r.preserve_smoothing == self.preserve_smoothing,
            r.border_width == self.border_width,
            r.border_color == self.border_color,
            r.background == self.background,
            r.border_mode == Some(BorderMode::Outside),
    {
        SquircleStyleRefinement { border_mode: Some(BorderMode::Outside), ..self }
    }

    /// Positions the border inside the squircle's bounds.
    pub fn border_inside(self) -> (r: Self)
        ensures
            r == self.with_border_mode(BorderMode::Inside),
            r.corner_radii == self.corner_radii,
            r.corner_smoothing == self.corner_smoothing,
            r.preserve_smoothing == self.preserve_smoothing,
            r.border_width == self.border_width,
            r.border_color == self.border_color,
            r.background == self.background,
            r.border_mode == Some(BorderMode::Inside),
    {
        SquircleStyleRefinement { border_mode: Some(BorderMode::Inside), ..self }
    }

    /// Positions the border centered on the squircle's edge (default).
    pub fn border_center(self) -> (r: Self)
        ensures
            r == self.with_border_mode(BorderMode::Center),
            r.corner_radii == self.corner_radii,
            r.corner_smoothing == self.corner_smoothing,
            r.preserve_smoothing == self.preserve_smoothing,
            r.border_width == self.border_width,
            r.border_color == self.border_color,
            r.background == self.background,
            r.border_mode == Some(BorderMode::Center),
    {
        SquircleStyleRefinement { border_mode: Some(BorderMode::Center), ..self }
    }

    /// Sets the background fill color of the squircle.
    pub fn bg(self, color: B) -> (r: Self)
        ensures
            r == self.with_background(color),
            r.corner_radii == self.corner_radii,
            r.corner_smoothing == self.corner_smoothing,
            r.preserve_smoothing == self.preserve_smoothing,
            r.border_width == self.border_width,
            r.border_mode == self.border_mode,
            r.border_color == self.border_color,
            r.background == Some(color),
    {
        SquircleStyleRefinement { background: Some(color), ..self }
    }

    /// Sets the border width.
    pub fn border(self, px: P) -> (r: Self)
        ensures
            r == self.with_border_width(px),
            r.corner_radii == self.corner_radii,
            r.corner_smoothing == self.corner_smoothing,
            r.preserve_smoothing == self.preserve_smoothing,
            r.border_mode == self.border_mode,
            r.border_color == self.border_color,
            r.background == self.background,
            r.border_width == Some(px),
    {
        SquircleStyleRefinement { border_width: Some(px), ..self }
    }

    /// Sets the border color.
    pub fn border_color(self, color: B) -> (r: Self)
        ensures
            r == self.with_border_color(color),
            r.corner_radii == self.corner_radii,
            r.corner_smoothing == self.corner_smoothing,
            r.preserve_smoothing == self.preserve_smoothing,
            r.border_width == self.border_width,
            r.border_mode == self.border_mode,
            r.background == self.background,
            r.border_color == Some(color),
    {
        SquircleStyleRefinement { border_color: Some(color), ..self }
    }

    /// Sets the top-left corner radius.
    pub fn rounded_tl(self, px: P) -> (r: Self)
        ensures
            r == self.with_top_left(px),
            r.corner_smoothing == self.corner_smoothing,
            r.preserve_smoothing == self.preserve_smoothing,
            r.border_width == self.border_width,
            r.border_mode == self.border_mode,
            r.border_color == self.border_color,
            r.background == self.background,
            r.corner_radii.top_left == Some(px),
            r.corner_radii.top_right == self.corner_radii.top_right,
            r.corner_radii.bottom_right == self.corner_radii.bottom_right,
            r.corner_radii.bottom_left == self.corner_radii.bottom_left,
    {
        SquircleStyleRefinement {
            corner_radii: CornerRadii { top_left: Some(px), ..self.corner_radii },
            ..self
        }
    }

    /// Sets the top-right corner radius.
    pub fn rounded_tr(self, px: P) -> (r: Self)
        ensures
            r == self.with_top_right(px),
            r.corner_smoothing == self.corner_smoothing,
            r.preserve_smoothing == self.preserve_smoothing,
            r.border_width == self.border_width,
            r.border_mode == self.border_mode,
            r.border_color == self.border_color,
            r.background == self.background,
            r.corner_radii.top_right == Some(px),
            r.corner_radii.top_left == self.corner_radii.top_left,
            r.corner_radii.bottom_right == self.corner_radii.bottom_right,
            r.corner_radii.bottom_left == self.corner_radii.bottom_left,
    {
        SquircleStyleRefinement {
            corner_radii: CornerRadii { top_right: Some(px), ..self.corner_radii },
            ..self
        }
    }

    /// Sets the bottom-left corner radius.
    pub fn rounded_bl(self, px: P) -> (r: Self)
        ensures
            r == self.with_bottom_left(px),
            r.corner_smoothing == self.corner_smoothing,
            r.preserve_smoothing == self.preserve_smoothing,
            r.border_width == self.border_width,
            r.border_mode == self.border_mode,
            r.border_color == self.border_color,
            r.background == self.background,
            r.corner_radii.bottom_left == Some(px),
            r.corner_radii.top_left == self.corner_radii.top_left,
            r.corner_radii.top_right == self.corner_radii.top_right,
            r.corner_radii.bottom_right == self.corner_radii.bottom_right,
    {
        SquircleStyleRefinement {
            corner_radii: CornerRadii { bottom_left: Some(px), ..self.corner_radii },
            ..self
        }
    }

    /// Sets the bottom-right corner radius.
    pub fn rounded_br(self, px: P) -> (r: Self)
        ensures
            r == self.with_bottom_right(px),
            r.corner_smoothing == self.corner_smoothing,
            r.preserve_smoothing == self.preserve_smoothing,
            r.border_width == self.border_width,
            r.border_mode == self.border_mode,
            r.border_color == self.border_color,
            r.background == self.background,
            r.corner_radii.bottom_right == Some(px),
            r.corner_radii.top_left == self.corner_radii.top_left,
            r.corner_radii.top_right == self.corner_radii.top_right,
            r.corner_radii.bottom_left == self.corner_radii.bottom_left,
    {
        SquircleStyleRefinement {
            corner_radii: CornerRadii { bottom_right: Some(px), ..self.corner_radii },
            ..self
        }
    }

    /// Sets the corner smoothing factor (0.0 to 1.0, where 1.0 is maximum smoothing).
    pub fn rounded_smoothing(self, px: P) -> (r: Self)
        ensures
            r == self.with_corner_smoothing(px),
            r.corner_radii == self.corner_radii,
            r.preserve_smoothing == self.preserve_smoothing,
            r.border_width == self.border_width,
            r.border_mode == self.border_mode,
            r.border_color == self.border_color,
            r.background == self.background,
            r.corner_smoothing == Some(px),
    {
        SquircleStyleRefinement { corner_smoothing: Some(px), ..self }
    }

    /// Controls whether to preserve smoothing when corners would overlap.
    pub fn rounded_preserve_smoothing(self, preserve: bool) -> (r: Self)
        ensures
            r == self.with_preserve_smoothing(preserve),
            r.corner_radii == self.corner_radii,
            r.corner_smoothing == self.corner_smoothing,
            r.border_width == self.border_width,
            r.border_mode == self.border_mode,
            r.border_color == self.border_color,
            r.background == self.background,
            r.preserve_smoothing == Some(preserve),
    {
        SquircleStyleRefinement { preserve_smoothing: Some(preserve), ..self }
    }

    /// The border mode used when painting: the one set, else `Center`.
    pub fn resolved_border_mode(&self) -> (mode: BorderMode)
        ensures
            mode == self.effective_border_mode(),
            self.border_mode matches Some(m) ==> mode == m,
            self.border_mode is None ==> mode == BorderMode::Center,
    {
        match self.border_mode {
            Some(mode) => mode,
            None => BorderMode::default(),
        }
    }

    /// Whether painting preserves smoothing: the value set, else `true`.
    pub fn resolved_preserve_smoothing(&self) -> (preserve: bool)
        ensures
            preserve == self.effective_preserve_smoothing(),
            self.preserve_smoothing matches Some(p) ==> preserve == p,
            self.preserve_smoothing is None ==> preserve,
    {
        match self.preserve_smoothing {
            Some(preserve) => preserve,
            None => true,
        }
    }
}

impl<P: Copy, B> SquircleStyleRefinement<P, B> {
    /// Sets a uniform corner radius for all four corners.
    pub fn rounded(self, px: P) -> (r: Self)
        ensures
            r == self.with_corner_radii(
                CornerRadii { top_left: Some(px), top_right: Some(px), bottom_right: Some(px), bottom_left: Some(px) },
            ),
            r.corner_smoothing == self.corner_smoothing,
            r.preserve_smoothing == self.preserve_smoothing,
            r.border_width == self.border_width,
            r.border_mode == self.border_mode,
            r.border_color == self.border_color,
            r.background == self.background,
            r.corner_radii.top_left == Some(px),
            r.corner_radii.top_right == Some(px),
            r.corner_radii.bottom_right == Some(px),
            r.corner_radii.bottom_left == Some(px),
    {
        SquircleStyleRefinement {
            corner_radii: CornerRadii {
                top_left: Some(px),
                top_right: Some(px),
                bottom_right: Some(px),
                bottom_left: Some(px),
            },
            ..self
        }
    }
}

impl<P, B> Default for SquircleStyleRefinement<P, B> {
    /// The refinement that sets nothing.
    fn default() -> (r: Self)
        ensures
            r == Self::empty(),
    {
        SquircleStyleRefinement {
            corner_radii: CornerRadii::default(),
            corner_smoothing: None,
            preserve_smoothing: None,
            border_width: None,
            border_mode: None,
            border_color: None,
            background: None,
        }
    }
}

/// Refining by the empty refinement changes nothing.
pub proof fn lemma_refine_empty_right<P, B>(s: SquircleStyleRefinement<P, B>)
    ensures
        s.refined_by(SquircleStyleRefinement::empty()) == s,
{
}

/// Refining the empty refinement by `s` gives `s`.
pub proof fn lemma_refine_empty_left<P, B>(s: SquircleStyleRefinement<P, B>)
    ensures
        SquircleStyleRefinement::<P, B>::empty().refined_by(s) == s,
{
}

/// Refinement is associative: merging `b` then `c` into `a` is merging into
/// `a` the merge of `c` into `b`.
pub proof fn lemma_refine_associative<P, B>(
    a: SquircleStyleRefinement<P, B>,
    b: SquircleStyleRefinement<P, B>,
    c: SquircleStyleRefinement<P, B>,
)
    ensures
        a.refined_by(b).refined_by(c) == a.refined_by(b.refined_by(c)),
{
}

/// Refining by a refinement a second time changes nothing.
pub proof fn lemma_refine_again<P, B>(a: SquircleStyleRefinement<P, B>, b: SquircleStyleRefinement<P, B>)
    ensures
        a.refined_by(b).refined_by(b) == a.refined_by(b),
        a.refined_by(a) == a,
{
}

/// Every field that `other` sets wins, and every field it leaves unset keeps
/// the value of the refinement it is merged into.
pub proof fn lemma_refine_other_takes_precedence<P, B>(
    s: SquircleStyleRefinement<P, B>,
    other: SquircleStyleRefinement<P, B>,
)
    ensures
        other.corner_smoothing is Some ==> s.refined_by(other).corner_smoothing == other.corner_smoothing,
        other.corner_smoothing is None ==> s.refined_by(other).corner_smoothing == s.corner_smoothing,
        other.preserve_smoothing is Some ==> s.refined_by(other).preserve_smoothing == other.preserve_smoothing,
        other.preserve_smoothing is None ==> s.refined_by(other).preserve_smoothing == s.preserve_smoothing,
        other.border_width is Some ==> s.refined_by(other).border_width == other.border_width,
        other.border_width is None ==> s.refined_by(other).border_width == s.border_width,
        other.border_mode is Some ==> s.refined_by(other).border_mode == other.border_mode,
        other.border_mode is None ==> s.refined_by(other).border_mode == s.border_mode,
        other.border_color is Some ==> s.refined_by(other).border_color == other.border_color,
        other.border_color is None ==> s.refined_by(other).border_color == s.border_color,
        other.background is Some ==> s.refined_by(other).background == other.background,
        other.background is None ==> s.refined_by(other).background == s.background,
        other.corner_radii.top_left is Some ==> s.refined_by(other).corner_radii.top_left
            == other.corner_radii.top_left,
        other.corner_radii.top_left is None ==> s.refined_by(other).corner_radii.top_left
            == s.corner_radii.top_left,
        other.corner_radii.top_right is Some ==> s.refined_by(other).corner_radii.top_right
            == other.corner_radii.top_right,
        other.corner_radii.top_right is None ==> s.refined_by(other).corner_radii.top_right
            == s.corner_radii.top_right,
        other.corner_radii.bottom_right is Some ==> s.refined_by(other).corner_radii.bottom_right
            == other.corner_radii.bottom_right,
        other.corner_radii.bottom_right is None ==> s.refined_by(other).corner_radii.bottom_right
            == s.corner_radii.bottom_right,
        other.corner_radii.bottom_left is Some ==> s.refined_by(other).corner_radii.bottom_left
            == other.corner_radii.bottom_left,
        other.corner_radii.bottom_left is None ==> s.refined_by(other).corner_radii.bottom_left
            == s.corner_radii.bottom_left,
{
}

/// Each style setter is the same as refining by the empty refinement with
/// that one setting applied.
pub proof fn lemma_setter_is_refinement<P, B>(s: SquircleStyleRefinement<P, B>, px: P, color: B, mode: BorderMode, flag: bool)
    ensures
        s.with_border_mode(mode) == s.refined_by(SquircleStyleRefinement::empty().with_border_mode(mode)),
        s.with_background(color) == s.refined_by(SquircleStyleRefinement::empty().with_background(color)),
        s.with_border_color(color) == s.refined_by(SquircleStyleRefinement::empty().with_border_color(color)),
        s.with_border_width(px) == s.refined_by(SquircleStyleRefinement::empty().with_border_width(px)),
        s.with_corner_smoothing(px) == s.refined_by(SquircleStyleRefinement::empty().with_corner_smoothing(px)),
        s.with_preserve_smoothing(flag) == s.refined_by(
            SquircleStyleRefinement::empty().with_preserve_smoothing(flag),
        ),
        s.with_top_left(px) == s.refined_by(SquircleStyleRefinement::empty().with_top_left(px)),
        s.with_top_right(px) == s.refined_by(SquircleStyleRefinement::empty().with_top_right(px)),
        s.with_bottom_left(px) == s.refined_by(SquircleStyleRefinement::empty().with_bottom_left(px)),
        s.with_bottom_right(px) == s.refined_by(SquircleStyleRefinement::empty().with_bottom_right(px)),
{
}

/// A uniform radius is the same as setting each of the four corners to it.
pub proof fn lemma_rounded_sets_each_corner<P, B>(s: SquircleStyleRefinement<P, B>, px: P)
    ensures
        s.with_corner_radii(
            CornerRadii { top_left: Some(px), top_right: Some(px), bottom_right: Some(px), bottom_left: Some(px) },
        ) == s.with_top_left(px).with_top_right(px).with_bottom_left(px).with_bottom_right(px),
{
}

/// The painting defaults: an unset border mode paints centered, and unset
/// smoothing preservation preserves smoothing.
pub proof fn lemma_paint_defaults<P, B>()
    ensures
        SquircleStyleRefinement::<P, B>::empty().effective_border_mode() == BorderMode::Center,
        SquircleStyleRefinement::<P, B>::empty().effective_preserve_smoothing(),
{
}

/// The last border placement set wins.
pub proof fn lemma_last_border_mode_wins<P, B>(s: SquircleStyleRefinement<P, B>, first: BorderMode, second: BorderMode)
    ensures
        s.with_border_mode(first).with_border_mode(second) == s.with_border_mode(second),
        s.with_border_mode(second).effective_border_mode() == second,
{
}

/// Each setter stores exactly its argument in its own field and leaves every
/// other field as it was.
pub proof fn lemma_setters_store_argument<P, B>(s: SquircleStyleRefinement<P, B>, px: P, color: B, mode: BorderMode, flag: bool)
    ensures
        s.with_preserve_smoothing(flag).preserve_smoothing == Some(flag),
        s.with_corner_smoothing(px).corner_smoothing == Some(px),
        s.with_border_width(px).border_width == Some(px),
        s.with_border_mode(mode).border_mode == Some(mode),
        s.with_border_color(color).border_color == Some(color),
        s.with_background(color).background == Some(color),
        s.with_top_left(px).corner_radii.top_left == Some(px),
        s.with_top_right(px).corner_radii.top_right == Some(px),
        s.with_bottom_left(px).corner_radii.bottom_left == Some(px),
        s.with_bottom_right(px).corner_radii.bottom_right == Some(px),
        s.with_preserve_smoothing(flag).border_mode == s.border_mode,
        s.with_preserve_smoothing(flag).corner_smoothing == s.corner_smoothing,
        s.with_border_mode(mode).preserve_smoothing == s.preserve_smoothing,
        s.with_border_mode(mode).background == s.background,
        s.with_background(color).border_color == s.border_color,
        s.with_border_color(color).background == s.background,
        s.with_top_left(px).corner_radii.top_right == s.corner_radii.top_right,
        s.with_top_left(px).corner_radii.bottom_left == s.corner_radii.bottom_left,
        s.with_top_left(px).corner_radii.bottom_right == s.corner_radii.bottom_right,
{
}

/// The painting defaults resolve to the value that was set when one was
/// set: the set border mode, or the set preserve-smoothing flag, whichever
/// it is; only an unset value falls back to centered / preserved.
pub proof fn lemma_resolved_values<P, B>(s: SquircleStyleRefinement<P, B>, mode: BorderMode, flag: bool)
    ensures
        s.with_preserve_smoothing(flag).effective_preserve_smoothing() == flag,
        s.with_border_mode(mode).effective_border_mode() == mode,
        s.preserve_smoothing matches Some(p) ==> s.effective_preserve_smoothing() == p,
        s.preserve_smoothing is None ==> s.effective_preserve_smoothing(),
        s.border_mode matches Some(m) ==> s.effective_border_mode() == m,
        s.border_mode is None ==> s.effective_border_mode() == BorderMode::Center,
{
}

} // verus!
