use vstd::prelude::*;

verus! {

/// An event of a parsed outline, as a path iterator yields it.
#[derive(Debug, PartialEq, Eq)]
pub enum PathEvent<Pt> {
    /// Starts a sub-path at `at`.
    Begin { at: Pt },
    /// A straight segment.
    Line { from: Pt, to: Pt },
    /// A quadratic Bézier segment.
    Quadratic { from: Pt, ctrl: Pt, to: Pt },
    /// A cubic Bézier segment.
    Cubic { from: Pt, ctrl1: Pt, ctrl2: Pt, to: Pt },
    /// Ends a sub-path, closing it back to `first` if `close` is set.
    End { last: Pt, first: Pt, close: bool },
}

/// A command to a path builder.
#[derive(Debug, PartialEq, Eq)]
pub enum PathCommand<Pt> {
    MoveTo(Pt),
    LineTo(Pt),
    /// A quadratic curve to `to` through the control point `ctrl`.
    CurveTo { to: Pt, ctrl: Pt },
    /// A cubic curve to `to` through the control points `ctrl1` and `ctrl2`.
    CubicBezierTo { to: Pt, ctrl1: Pt, ctrl2: Pt },
    Close,
}

/// The builder command an event becomes: a sub-path start moves the pen, each
/// segment draws to its end point through its control points, a closing end
/// closes the sub-path, and an open end issues nothing.
pub open spec fn command_of<Pt>(event: PathEvent<Pt>) -> Option<PathCommand<Pt>> {
    match event {
        PathEvent::Begin { at } => Some(PathCommand::MoveTo(at)),
        PathEvent::Line { from, to } => Some(PathCommand::LineTo(to)),
        PathEvent::Quadratic { from, ctrl, to } => Some(PathCommand::CurveTo { to, ctrl }),
        PathEvent::Cubic { from, ctrl1, ctrl2, to } => Some(PathCommand::CubicBezierTo { to, ctrl1, ctrl2 }),
        PathEvent::End { last, first, close } => if close {
            Some(PathCommand::Close)
        } else {
            None
        },
    }
}

/// The builder commands of a sequence of events, in order.
pub open spec fn commands_of<Pt>(events: Seq<PathEvent<Pt>>) -> Seq<PathCommand<Pt>>
    decreases events.len(),
{
    if events.len() == 0 {
        seq![]
    } else {
        let earlier = commands_of(events.drop_last());
        match command_of(events.last()) {
            Some(command) => earlier.push(command),
            None => earlier,
        }
    }
}

/// Turns the events of an outline into the commands that replay it on a path
/// builder.
pub fn builder_commands<Pt: Copy>(events: &Vec<PathEvent<Pt>>) -> (commands: Vec<PathCommand<Pt>>)
    ensures
        commands@ == commands_of(events@),
{
    let mut commands: Vec<PathCommand<Pt>> = Vec::new();
    let n = events.len();
    for i in 0..n
        invariant
            n == events@.len(),
            commands@ == commands_of(events@.take(i as int)),
    {
        proof {
            assert(events@.take(i + 1).drop_last() =~= events@.take(i as int));
        }
        match events[i] {
            PathEvent::Begin { at } => commands.push(PathCommand::MoveTo(at)),
            PathEvent::Line { from: _, to } => commands.push(PathCommand::LineTo(to)),
            PathEvent::Quadratic { from: _, ctrl, to } => commands.push(PathCommand::CurveTo { to, ctrl }),
            PathEvent::Cubic { from: _, ctrl1, ctrl2, to } => commands.push(
                PathCommand::CubicBezierTo { to, ctrl1, ctrl2 },
            ),
            PathEvent::End { last: _, first: _, close } => {
                if close {
                    commands.push(PathCommand::Close);
                }
            },
        }
    }
    proof {
        assert(events@.take(n as int) =~= events@);
    }
    commands
}

/// Replaying an outline piece by piece issues the same commands as replaying
/// it whole: the commands of `a + b` are those of `a` followed by those of `b`.
pub proof fn lemma_commands_concat<Pt>(a: Seq<PathEvent<Pt>>, b: Seq<PathEvent<Pt>>)
    ensures
        commands_of(a + b) == commands_of(a) + commands_of(b),
    decreases b.len(),
{
    if b.len() == 0 {
        assert(a + b =~= a);
        assert(commands_of(a) + commands_of(b) =~= commands_of(a));
    } else {
        lemma_commands_concat(a, b.drop_last());
        assert((a + b).drop_last() =~= a + b.drop_last());
        assert((a + b).last() == b.last());
        match command_of(b.last()) {
            Some(c) => {
                assert(commands_of(a) + commands_of(b.drop_last()).push(c) =~= (commands_of(a) + commands_of(
                    b.drop_last(),
                )).push(c));
            },
            None => {},
        }
    }
}

/// Each event issues at most one command, and only an open sub-path end
/// issues none.
pub proof fn lemma_commands_count<Pt>(events: Seq<PathEvent<Pt>>)
    ensures
        commands_of(events).len() <= events.len(),
        (forall|i: int| 0 <= i < events.len() ==> !((#[trigger] events[i]) matches PathEvent::End { close: false, .. }))
            ==> commands_of(events).len() == events.len(),
    decreases events.len(),
{
    if events.len() > 0 {
        lemma_commands_count(events.drop_last());
        if forall|i: int| 0 <= i < events.len() ==> !((#[trigger] events[i]) matches PathEvent::End { close: false, .. }) {
            assert forall|i: int| 0 <= i < events.drop_last().len() implies !((
            #[trigger] events.drop_last()[i]) matches PathEvent::End { close: false, .. }) by {
                assert(events.drop_last()[i] == events[i]);
            }
            assert(!(events[events.len() - 1] matches PathEvent::End { close: false, .. }));
        }
    }
}

/// Appending one event to an outline appends its command: a sub-path start
/// moves to its point, a line draws to its end point, a quadratic curve draws
/// to its end point through its control point, a cubic curve draws to its end
/// point through its two control points in order, a closing end closes the
/// sub-path, and an open end adds nothing.
pub proof fn lemma_commands_per_event<Pt>(s: Seq<PathEvent<Pt>>, a: Pt, b: Pt, c: Pt, d: Pt)
    ensures
        commands_of(s.push(PathEvent::Begin { at: a })) == commands_of(s).push(PathCommand::MoveTo(a)),
        commands_of(s.push(PathEvent::Line { from: a, to: b })) == commands_of(s).push(PathCommand::LineTo(b)),
        commands_of(s.push(PathEvent::Quadratic { from: a, ctrl: b, to: c })) == commands_of(s).push(
            PathCommand::CurveTo { to: c, ctrl: b },
        ),
        commands_of(s.push(PathEvent::Cubic { from: a, ctrl1: b, ctrl2: c, to: d })) == commands_of(s).push(
            PathCommand::CubicBezierTo { to: d, ctrl1: b, ctrl2: c },
        ),
        commands_of(s.push(PathEvent::End { last: a, first: b, close: true })) == commands_of(s).push(
            PathCommand::Close,
        ),
        commands_of(s.push(PathEvent::End { last: a, first: b, close: false })) == commands_of(s),
{
    assert(s.push(PathEvent::Begin { at: a }).drop_last() =~= s);
    assert(s.push(PathEvent::Line { from: a, to: b }).drop_last() =~= s);
    assert(s.push(PathEvent::Quadratic { from: a, ctrl: b, to: c }).drop_last() =~= s);
    assert(s.push(PathEvent::Cubic { from: a, ctrl1: b, ctrl2: c, to: d }).drop_last() =~= s);
    assert(s.push(PathEvent::End { last: a, first: b, close: true }).drop_last() =~= s);
    assert(s.push(PathEvent::End { last: a, first: b, close: false }).drop_last() =~= s);
}

/// The empty outline issues no commands.
pub proof fn lemma_commands_empty<Pt>()
    ensures
        commands_of(Seq::<PathEvent<Pt>>::empty()) == Seq::<PathCommand<Pt>>::empty(),
{
}

} // verus!
