# gpui_squircle

The logic of a squircle element for GPUI, verified with Verus.

- `src/border.rs`: border placement (`BorderMode`) and the size and corner
  radius offsets each placement applies, as affine functions of the width.
- `src/style.rs`: the squircle style refinement, its merge (`refined`), its
  setters, and the laws of merging.
- `src/paint.rs`: which fill and stroke passes paint an element, in order.
- `src/path.rs`: how the events of a parsed outline become path-builder
  commands.
- `app/`: the GPUI element, the float geometry, outline generation with
  `figma_squircle` and SVG parsing with `lyon`.
