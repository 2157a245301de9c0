use vstd::prelude::*;

verus! {

/// Determines how the border is positioned relative to the squircle's bounds.
#[derive(Clone, Copy, Debug, PartialEq, Eq, Structural)]
pub enum BorderMode {
    /// Border is centered on the edge (default behavior).
    Center,
    /// Border is drawn outside the squircle's bounds.
    Outside,
    /// Border is drawn inside the squircle's bounds.
    Inside,
}

impl Default for BorderMode {
    /// The default border mode is `Center`.
    fn default() -> (mode: Self)
        ensures
            mode == BorderMode::Center,
    {
        BorderMode::Center
    }
}

/// The two offsets a border mode applies to a stroked squircle, each an affine
/// function of the border width `w`:
/// the size offset is `size_scale * w + size_shift` (subtracted from both the
/// width and the height of the bounds) and the radius offset is
/// `radius_scale * w + radius_shift` (added to every corner radius).
#[derive(Clone, Copy, Debug, PartialEq, Eq, Structural)]
pub struct BorderOffsets {
    pub size_scale: i8,
    pub size_shift: i8,
    pub radius_scale: i8,
    pub radius_shift: i8,
}

impl BorderOffsets {
    /// The size offset for border width `w`.
    pub open spec fn size_offset_at(self, w: int) -> int {
        self.size_scale * w + self.size_shift
    }

    /// The radius offset for border width `w`.
    pub open spec fn radius_offset_at(self, w: int) -> int {
        self.radius_scale * w + self.radius_shift
    }
}

/// The size offset that `mode` asks for at border width `w`.
pub open spec fn mode_size_offset(mode: BorderMode, w: int) -> int {
    match mode {
        BorderMode::Outside => -w,
        BorderMode::Inside => w,
        BorderMode::Center => 0,
    }
}

/// The corner radius offset that `mode` asks for at border width `w`.
pub open spec fn mode_radius_offset(mode: BorderMode, w: int) -> int {
    match mode {
        BorderMode::Outside => w - 2,
        BorderMode::Inside => -(w - 1),
        BorderMode::Center => 0,
    }
}

/// Size and radius offsets for a border mode: an outside border grows the
/// stroked outline by the border width, an inside border shrinks it, and a
/// centered border leaves it on the edge.
pub fn size_and_border_offsets(mode: BorderMode) -> (offsets: BorderOffsets)
    ensures
        forall|w: int| #[trigger] offsets.size_offset_at(w) == mode_size_offset(mode, w),
        forall|w: int| #[trigger] offsets.radius_offset_at(w) == mode_radius_offset(mode, w),
        mode == BorderMode::Outside ==> forall|w: int|
            #![trigger offsets.size_offset_at(w)]
            #![trigger offsets.radius_offset_at(w)]
            offsets.size_offset_at(w) == -w && offsets.radius_offset_at(w) == w - 2,
        mode == BorderMode::Inside ==> forall|w: int|
            #![trigger offsets.size_offset_at(w)]
            #![trigger offsets.radius_offset_at(w)]
            offsets.size_offset_at(w) == w && offsets.radius_offset_at(w) == 1 - w,
        mode == BorderMode::Center ==> forall|w: int|
            #![trigger offsets.size_offset_at(w)]
            #![trigger offsets.radius_offset_at(w)]
            offsets.size_offset_at(w) == 0 && offsets.radius_offset_at(w) == 0,
{
    let offsets = match mode {
        BorderMode::Outside => BorderOffsets { size_scale: -1, size_shift: 0, radius_scale: 1, radius_shift: -2 },
        BorderMode::Inside => BorderOffsets { size_scale: 1, size_shift: 0, radius_scale: -1, radius_shift: 1 },
        BorderMode::Center => BorderOffsets { size_scale: 0, size_shift: 0, radius_scale: 0, radius_shift: 0 },
    };
    assert forall|w: int| #[trigger] offsets.radius_offset_at(w) == mode_radius_offset(mode, w) by {
        assert(1 * w == w && -1 * w == -w && 0 * w == 0) by (nonlinear_arith);
    }
    assert forall|w: int| #[trigger] offsets.size_offset_at(w) == mode_size_offset(mode, w) by {
        assert(1 * w == w && -1 * w == -w && 0 * w == 0) by (nonlinear_arith);
    }
    offsets
}

/// Whether the stroked outline keeps the bounds' size: exactly when the
/// border is centered or has zero width.
pub fn size_offset_vanishes(mode: BorderMode, border_width_is_zero: bool) -> (vanishes: bool)
    ensures
        vanishes == (mode == BorderMode::Center || border_width_is_zero),
{
    match mode {
        BorderMode::Center => true,
        _ => border_width_is_zero,
    }
}

/// The size offset of a mode is zero exactly when the mode is `Center` or the
/// width is zero.
pub proof fn lemma_size_offset_zero(mode: BorderMode, w: int)
    ensures
        (mode_size_offset(mode, w) == 0) <==> (mode == BorderMode::Center || w == 0),
{
}

/// The offsets of each border mode at every border width `w`: an outside
/// border grows the outline by `w` (size offset `-w`) with radii shifted by
/// `w - 2`; an inside border shrinks it by `w` with radii shifted by `1 - w`;
/// a centered border applies no offset. Each offset changes by exactly one
/// unit (up or down) per unit of width, except for a centered border.
pub proof fn lemma_border_offset_formulas(w: int)
    ensures
        mode_size_offset(BorderMode::Outside, w) == -w,
        mode_radius_offset(BorderMode::Outside, w) == w - 2,
        mode_size_offset(BorderMode::Inside, w) == w,
        mode_radius_offset(BorderMode::Inside, w) == 1 - w,
        mode_size_offset(BorderMode::Center, w) == 0,
        mode_radius_offset(BorderMode::Center, w) == 0,
        mode_radius_offset(BorderMode::Outside, w + 1) == mode_radius_offset(BorderMode::Outside, w) + 1,
        mode_radius_offset(BorderMode::Inside, w + 1) == mode_radius_offset(BorderMode::Inside, w) - 1,
        mode_size_offset(BorderMode::Outside, w + 1) == mode_size_offset(BorderMode::Outside, w) - 1,
        mode_size_offset(BorderMode::Inside, w + 1) == mode_size_offset(BorderMode::Inside, w) + 1,
{
}

} // verus!
