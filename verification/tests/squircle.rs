use gpui_squircle::border::{size_and_border_offsets, size_offset_vanishes, BorderOffsets};
use gpui_squircle::paint::{effective_background, paint_passes, PaintPass, PassGeometry};
use gpui_squircle::path::{builder_commands, PathCommand, PathEvent};
use gpui_squircle::style::{CornerRadii, SquircleStyleRefinement};
use gpui_squircle::BorderMode;

type Style = SquircleStyleRefinement<f32, &'static str>;

fn empty() -> Style {
    SquircleStyleRefinement::default()
}

fn size_offset(o: BorderOffsets, w: f32) -> f32 {
    o.size_scale as f32 * w + o.size_shift as f32
}

fn radius_offset(o: BorderOffsets, w: f32) -> f32 {
    o.radius_scale as f32 * w + o.radius_shift as f32
}

#[test]
fn border_mode_default_is_center() {
    assert_eq!(BorderMode::default(), BorderMode::Center);
}

#[test]
fn outside_offsets_grow_the_outline() {
    let o = size_and_border_offsets(BorderMode::Outside);
    assert_eq!(size_offset(o, 15.0), -15.0);
    assert_eq!(radius_offset(o, 15.0), 13.0);
}

#[test]
fn inside_offsets_shrink_the_outline() {
    let o = size_and_border_offsets(BorderMode::Inside);
    assert_eq!(size_offset(o, 15.0), 15.0);
    assert_eq!(radius_offset(o, 15.0), -14.0);
}

#[test]
fn center_offsets_are_zero() {
    let o = size_and_border_offsets(BorderMode::Center);
    assert_eq!(size_offset(o, 15.0), 0.0);
    assert_eq!(radius_offset(o, 15.0), 0.0);
}

#[test]
fn size_offset_vanishes_only_when_centered_or_zero_width() {
    assert!(size_offset_vanishes(BorderMode::Center, false));
    assert!(size_offset_vanishes(BorderMode::Outside, true));
    assert!(size_offset_vanishes(BorderMode::Inside, true));
    assert!(!size_offset_vanishes(BorderMode::Outside, false));
    assert!(!size_offset_vanishes(BorderMode::Inside, false));
    let o = size_and_border_offsets(BorderMode::Outside);
    assert_eq!(size_offset(o, 0.0), 0.0);
}

#[test]
fn default_refinement_sets_nothing() {
    let s = empty();
    assert_eq!(s.corner_radii, CornerRadii { top_left: None, top_right: None, bottom_right: None, bottom_left: None });
    assert_eq!(s.corner_smoothing, None);
    assert_eq!(s.preserve_smoothing, None);
    assert_eq!(s.border_width, None);
    assert_eq!(s.border_mode, None);
    assert_eq!(s.border_color, None);
    assert_eq!(s.background, None);
}

#[test]
fn refined_other_takes_precedence() {
    let base = empty().border(2.0).border_outside().bg("red").rounded(10.0).rounded_smoothing(0.6);
    let other = empty().border(5.0).border_color("blue").rounded_tr(3.0).rounded_preserve_smoothing(false);
    let r = base.refined(other);
    assert_eq!(r.border_width, Some(5.0));
    assert_eq!(r.border_mode, Some(BorderMode::Outside));
    assert_eq!(r.border_color, Some("blue"));
    assert_eq!(r.background, Some("red"));
    assert_eq!(r.corner_smoothing, Some(0.6));
    assert_eq!(r.preserve_smoothing, Some(false));
    assert_eq!(r.corner_radii.top_left, Some(10.0));
    assert_eq!(r.corner_radii.top_right, Some(3.0));
    assert_eq!(r.corner_radii.bottom_right, Some(10.0));
    assert_eq!(r.corner_radii.bottom_left, Some(10.0));
}

#[test]
fn refine_by_empty_is_identity() {
    let s = empty().border(2.0).bg("red").rounded_bl(4.0);
    assert_eq!(s.clone().refined(empty()), s);
    assert_eq!(empty().refined(s.clone()), s);
}

#[test]
fn refine_is_associative() {
    let a = empty().border(1.0).bg("a").rounded(1.0);
    let b = empty().border_inside().bg("b").rounded_tl(2.0);
    let c = empty().border(3.0).border_color("c").rounded_br(3.0);
    let left = a.clone().refined(b.clone()).refined(c.clone());
    let right = a.refined(b.refined(c));
    assert_eq!(left, right);
}

#[test]
fn refine_again_changes_nothing() {
    let a = empty().border(1.0).bg("a");
    let b = empty().border_center().rounded(2.0);
    let once = a.clone().refined(b.clone());
    assert_eq!(once.clone().refined(b), once);
    assert_eq!(a.clone().refined(a.clone()), a);
}

#[test]
fn setter_is_refinement() {
    let s = empty().border(1.0).bg("a");
    assert_eq!(s.clone().border_inside(), s.clone().refined(empty().border_inside()));
    assert_eq!(s.clone().rounded_tl(7.0), s.clone().refined(empty().rounded_tl(7.0)));
    assert_eq!(s.clone().border_color("x"), s.refined(empty().border_color("x")));
}

#[test]
fn rounded_sets_each_corner() {
    let s = empty().rounded_tl(1.0);
    assert_eq!(
        s.clone().rounded(25.0),
        s.rounded_tl(25.0).rounded_tr(25.0).rounded_bl(25.0).rounded_br(25.0)
    );
}

#[test]
fn corner_setters_touch_one_corner() {
    let s = empty().rounded_tl(1.0).rounded_tr(2.0).rounded_bl(3.0).rounded_br(4.0);
    assert_eq!(
        s.corner_radii,
        CornerRadii { top_left: Some(1.0), top_right: Some(2.0), bottom_right: Some(4.0), bottom_left: Some(3.0) }
    );
}

#[test]
fn border_mode_setters() {
    assert_eq!(empty().border_outside().border_mode, Some(BorderMode::Outside));
    assert_eq!(empty().border_inside().border_mode, Some(BorderMode::Inside));
    assert_eq!(empty().border_center().border_mode, Some(BorderMode::Center));
    assert_eq!(empty().border_outside().border_inside().border_mode, Some(BorderMode::Inside));
}

#[test]
fn paint_defaults() {
    let s = empty();
    assert_eq!(s.resolved_border_mode(), BorderMode::Center);
    assert!(s.resolved_preserve_smoothing());
    let s = empty().border_inside().rounded_preserve_smoothing(false);
    assert_eq!(s.resolved_border_mode(), BorderMode::Inside);
    assert!(!s.resolved_preserve_smoothing());
}

#[test]
fn effective_background_by_state() {
    assert_eq!(effective_background(true, true, Some("act"), Some("hov"), Some("bg")), Some("act"));
    assert_eq!(effective_background(true, true, None, Some("hov"), Some("bg")), Some("bg"));
    assert_eq!(effective_background(false, true, Some("act"), Some("hov"), Some("bg")), Some("hov"));
    assert_eq!(effective_background(false, true, Some("act"), None, Some("bg")), Some("bg"));
    assert_eq!(effective_background(false, false, Some("act"), Some("hov"), Some("bg")), Some("bg"));
    assert_eq!(effective_background::<&str>(false, false, None, None, None), None);
}

#[test]
fn fill_only_paints_bounds() {
    let p = paint_passes(Some("bg"), None, BorderMode::Outside, false);
    assert_eq!(p, vec![PaintPass { geometry: PassGeometry::Bounds, fill: Some("bg"), stroke: None }]);
}

#[test]
fn centered_border_shares_the_fill_pass() {
    let p = paint_passes(Some("bg"), Some("b"), BorderMode::Center, false);
    assert_eq!(p, vec![PaintPass { geometry: PassGeometry::RadiusOffset, fill: Some("bg"), stroke: Some("b") }]);
}

#[test]
fn zero_width_border_shares_the_fill_pass() {
    let p = paint_passes(Some("bg"), Some("b"), BorderMode::Outside, true);
    assert_eq!(p, vec![PaintPass { geometry: PassGeometry::RadiusOffset, fill: Some("bg"), stroke: Some("b") }]);
}

#[test]
fn offset_border_gets_its_own_pass_after_the_fill() {
    let p = paint_passes(Some("bg"), Some("b"), BorderMode::Inside, false);
    assert_eq!(
        p,
        vec![
            PaintPass { geometry: PassGeometry::Bounds, fill: Some("bg"), stroke: None },
            PaintPass { geometry: PassGeometry::BorderOffsets, fill: None, stroke: Some("b") },
        ]
    );
}

#[test]
fn border_only_paints_one_stroke() {
    let p = paint_passes(None, Some("b"), BorderMode::Center, false);
    assert_eq!(p, vec![PaintPass { geometry: PassGeometry::BorderOffsets, fill: None, stroke: Some("b") }]);
}

#[test]
fn nothing_to_paint() {
    let p = paint_passes::<&str>(None, None, BorderMode::Outside, false);
    assert!(p.is_empty());
}

#[test]
fn plan_paint_uses_state_and_defaults() {
    let s = empty().bg("bg").border_color("b").border(15.0).border_outside();
    let p = s.plan_paint(false, true, None, Some("hov"), false);
    assert_eq!(
        p,
        vec![
            PaintPass { geometry: PassGeometry::Bounds, fill: Some("hov"), stroke: None },
            PaintPass { geometry: PassGeometry::BorderOffsets, fill: None, stroke: Some("b") },
        ]
    );
    let centered = empty().bg("bg").border_color("b");
    let p = centered.plan_paint(false, false, None, None, true);
    assert_eq!(p, vec![PaintPass { geometry: PassGeometry::RadiusOffset, fill: Some("bg"), stroke: Some("b") }]);
}

#[test]
fn events_become_builder_commands() {
    let events = vec![
        PathEvent::Begin { at: (0, 0) },
        PathEvent::Line { from: (0, 0), to: (10, 0) },
        PathEvent::Quadratic { from: (10, 0), ctrl: (12, 1), to: (13, 3) },
        PathEvent::Cubic { from: (13, 3), ctrl1: (14, 4), ctrl2: (15, 5), to: (16, 6) },
        PathEvent::End { last: (16, 6), first: (0, 0), close: true },
        PathEvent::Begin { at: (1, 1) },
        PathEvent::End { last: (1, 1), first: (1, 1), close: false },
    ];
    let commands = builder_commands(&events);
    assert_eq!(
        commands,
        vec![
            PathCommand::MoveTo((0, 0)),
            PathCommand::LineTo((10, 0)),
            PathCommand::CurveTo { to: (13, 3), ctrl: (12, 1) },
            PathCommand::CubicBezierTo { to: (16, 6), ctrl1: (14, 4), ctrl2: (15, 5) },
            PathCommand::Close,
            PathCommand::MoveTo((1, 1)),
        ]
    );
}

#[test]
fn commands_of_pieces_concatenate() {
    let a = vec![PathEvent::Begin { at: 1u8 }, PathEvent::Line { from: 1u8, to: 2u8 }];
    let b = vec![PathEvent::End { last: 2u8, first: 1u8, close: true }, PathEvent::Begin { at: 3u8 }];
    let mut whole = builder_commands(&a);
    whole.extend(builder_commands(&b));
    let all: Vec<PathEvent<u8>> = vec![
        PathEvent::Begin { at: 1u8 },
        PathEvent::Line { from: 1u8, to: 2u8 },
        PathEvent::End { last: 2u8, first: 1u8, close: true },
        PathEvent::Begin { at: 3u8 },
    ];
    assert_eq!(builder_commands(&all), whole);
}

#[test]
fn empty_outline_has_no_commands() {
    let events: Vec<PathEvent<u8>> = Vec::new();
    assert!(builder_commands(&events).is_empty());
}
