//! The drawing and editing tools as state machines.
//!
//! Each tool walks through a few states as points arrive. A tool holds the
//! points it was given, of any point type `P`, and hands back what to
//! create or modify in terms of those points; geometry is built from them
//! outside. Where a tool decides by a distance (a zero-length segment is
//! refused, for instance), the caller measures and passes the verdict in.

use vstd::prelude::*;
use crate::action::{ActionHistory, ActionType, MouseButton};
use crate::text::{chars_eq, chars_of, spec_to_uppercase, to_uppercase};

verus! {

/// What a drawing tool asks for after an event.
#[derive(Debug, Clone)]
pub enum DrawOutcome<P> {
    /// Keep the tool active.
    Continue,
    /// Leave the tool.
    Cancel,
    /// Create a shape.
    Create(Shape<P>),
}

/// A shape to create, by the points that define it.
#[derive(Debug, Clone)]
pub enum Shape<P> {
    Line(P, P),
    /// A circle by its center and a point on it.
    CircleThrough(P, P),
    /// A circle by its center; the radius was typed in.
    CircleWithRadius(P),
    /// An arc by its start, a point on it and its end.
    Arc(P, P, P),
    /// An axis-aligned rectangle by two opposite corners.
    Rectangle(P, P),
    Point(P),
    /// A polyline by its vertices; whether it is closed.
    Polyline(Vec<P>, bool),
}

/// Whether a command, upper-cased, is one of two names.
fn command_is(u: &[char], a: &str, b: &str) -> (r: bool)
    ensures
        r == (u@ == a@ || u@ == b@),
{
    let ac = chars_of(a);
    let bc = chars_of(b);
    chars_eq(u, ac.as_slice()) || chars_eq(u, bc.as_slice())
}

/// Stage of the line tool.
#[derive(Debug, Clone, Copy, PartialEq, Eq, Structural)]
pub enum LineStatus {
    SetStartpoint,
    SetEndpoint,
}

/// A step of the line tool that can be undone.
#[derive(Debug, Clone, Copy)]
pub enum LineStep<P> {
    SetStartpoint { point: P },
    SetEndpoint { from: P, to: P },
    Close { from: P, to: P },
    Next,
}

/// The line tool: draws connected segments from a start point; `close`
/// returns to the first point, a right click starts a new chain.
pub struct DrawLineAction<P> {
    status: LineStatus,
    start_point: Option<P>,
    points: Vec<P>,
    history: ActionHistory<LineStep<P>>,
    start_offset: usize,
}

impl<P: Copy> DrawLineAction<P> {
    /// The kind of action this tool carries out.
    pub fn action_type(&self) -> (a: ActionType)
        ensures
            a == ActionType::DrawLine,
    {
        ActionType::DrawLine
    }

    pub closed spec fn stage(&self) -> LineStatus {
        self.status
    }

    /// Where the next segment starts.
    pub closed spec fn start(&self) -> Option<P> {
        self.start_point
    }

    /// The points of the current chain.
    pub closed spec fn chain(&self) -> Seq<P> {
        self.points@
    }

    /// The steps recorded for undo and redo.
    pub closed spec fn steps(&self) -> Seq<LineStep<P>> {
        self.history.entries()
    }

    /// Position of the step applied last; -1 when none is.
    pub closed spec fn cursor(&self) -> int {
        self.history.cursor()
    }

    pub closed spec fn wf(&self) -> bool {
        self.history.wf()
    }

    /// There is room to record one more step.
    pub open spec fn has_room(&self) -> bool {
        self.cursor() + 1 < i32::MAX
    }

    pub fn new() -> (a: Self)
        ensures
            a.wf(),
            a.stage() == LineStatus::SetStartpoint,
            a.start() is None,
            a.chain() == Seq::<P>::empty(),
            a.steps() == Seq::<LineStep<P>>::empty(),
            a.cursor() == -1,
    {
        Self {
            status: LineStatus::SetStartpoint,
            start_point: None,
            points: Vec::new(),
            history: ActionHistory::new(),
            start_offset: 0,
        }
    }

    /// Back to the first stage, with no points and no history.
    pub fn reset(&mut self)
        ensures
            final(self).wf(),
            final(self).stage() == LineStatus::SetStartpoint,
            final(self).start() is None,
            final(self).chain() == Seq::<P>::empty(),
            final(self).steps() == Seq::<LineStep<P>>::empty(),
            final(self).cursor() == -1,
    {
        self.status = LineStatus::SetStartpoint;
        self.start_point = None;
        self.points.clear();
        self.history.clear();
        self.start_offset = 0;
    }

    /// The stage the tool is in.
    pub fn status(&self) -> (s: LineStatus)
        ensures
            s == self.stage(),
    {
        self.status
    }

    /// Where the next segment starts, if set.
    pub fn start_point(&self) -> (p: Option<P>)
        ensures
            p == self.start(),
    {
        self.start_point
    }

    /// The points of the current chain.
    pub fn points(&self) -> (v: &[P])
        ensures
            v@ == self.chain(),
    {
        self.points.as_slice()
    }

    /// A point given by click or typed in. In the first stage it starts a
    /// chain; in the second, when the caller found it far enough from the
    /// start, it ends a segment, which becomes the next start.
    pub fn on_coordinate(&mut self, coord: P, long_enough: bool) -> (r: DrawOutcome<P>)
        requires
            old(self).wf(),
            old(self).has_room(),
        ensures
            final(self).wf(),
            old(self).stage() == LineStatus::SetStartpoint ==> {
                &&& r is Continue
                &&& final(self).stage() == LineStatus::SetEndpoint
                &&& final(self).start() == Some(coord)
                &&& final(self).chain() == seq![coord]
                &&& final(self).steps() == old(self).steps().take(old(self).cursor() + 1).push(
                    LineStep::SetStartpoint { point: coord },
                )
                &&& final(self).cursor() == old(self).cursor() + 1
            },
            old(self).stage() == LineStatus::SetEndpoint ==> match old(self).start() {
                Some(s) if long_enough => {
                    &&& r matches DrawOutcome::Create(Shape::Line(a, b)) && a == s && b == coord
                    &&& final(self).stage() == LineStatus::SetEndpoint
                    &&& final(self).start() == Some(coord)
                    &&& final(self).chain() == old(self).chain().push(coord)
                    &&& final(self).steps() == old(self).steps().take(old(self).cursor() + 1).push(
                        LineStep::SetEndpoint { from: s, to: coord },
                    )
                    &&& final(self).cursor() == old(self).cursor() + 1
                },
                _ => r is Continue && final(self).stage() == old(self).stage() && final(self).start()
                    == old(self).start() && final(self).chain() == old(self).chain()
                    && final(self).steps() == old(self).steps() && final(self).cursor() == old(self).cursor(),
            },
    {
        match self.status {
            LineStatus::SetStartpoint => {
                self.start_point = Some(coord);
                self.points.clear();
                self.points.push(coord);
                self.start_offset = 0;
                self.history.push(LineStep::SetStartpoint { point: coord });
                self.status = LineStatus::SetEndpoint;
                assert(self.points@ =~= seq![coord]);
                DrawOutcome::Continue
            },
            LineStatus::SetEndpoint => {
                if let Some(start) = self.start_point {
                    if long_enough {
                        self.history.push(LineStep::SetEndpoint { from: start, to: coord });
                        if self.start_offset < usize::MAX {
                            self.start_offset = self.start_offset + 1;
                        }
                        self.start_point = Some(coord);
                        self.points.push(coord);
                        return DrawOutcome::Create(Shape::Line(start, coord));
                    }
                }
                DrawOutcome::Continue
            },
        }
    }

    /// A mouse click at a point: the left button gives the point, the right
    /// button starts a new chain while drawing and leaves the tool
    /// otherwise.
    pub fn on_mouse_click(&mut self, button: MouseButton, point: P, long_enough: bool) -> (r:
        DrawOutcome<P>)
        requires
            old(self).wf(),
            old(self).has_room(),
        ensures
            final(self).wf(),
            button == MouseButton::Middle ==> r is Continue && *final(self) == *old(self),
            button == MouseButton::Right && old(self).stage() == LineStatus::SetStartpoint ==> r is Cancel
                && *final(self) == *old(self),
            button == MouseButton::Right && old(self).stage() == LineStatus::SetEndpoint ==> {
                &&& r is Continue
                &&& final(self).stage() == LineStatus::SetStartpoint
                &&& final(self).start() is None
                &&& final(self).chain() == old(self).chain()
                &&& final(self).steps() == old(self).steps().take(old(self).cursor() + 1).push(
                    LineStep::Next,
                )
                &&& final(self).cursor() == old(self).cursor() + 1
            },
    {
        match button {
            MouseButton::Left => self.on_coordinate(point, long_enough),
            MouseButton::Right => match self.status {
                LineStatus::SetStartpoint => DrawOutcome::Cancel,
                LineStatus::SetEndpoint => {
                    self.next();
                    DrawOutcome::Continue
                },
            },
            MouseButton::Middle => DrawOutcome::Continue,
        }
    }

    /// Ends the chain without closing it.
    fn next(&mut self)
        requires
            old(self).wf(),
            old(self).has_room(),
        ensures
            final(self).wf(),
            final(self).stage() == LineStatus::SetStartpoint,
            final(self).start() is None,
            final(self).chain() == old(self).chain(),
            final(self).steps() == old(self).steps().take(old(self).cursor() + 1).push(
                LineStep::Next,
            ),
            final(self).cursor() == old(self).cursor() + 1,
    {
        self.history.push(LineStep::Next);
        self.status = LineStatus::SetStartpoint;
        self.start_point = None;
        self.start_offset = 0;
    }

    /// Closes the chain with a segment back to its first point, when it
    /// has two points or more and the caller found that segment long enough.
    fn close(&mut self, long_enough: bool) -> (r: DrawOutcome<P>)
        requires
            old(self).wf(),
            old(self).has_room(),
        ensures
            final(self).wf(),
            match old(self).start() {
                Some(s) if old(self).chain().len() >= 2 && long_enough => {
                    &&& r matches DrawOutcome::Create(Shape::Line(a, b)) && a == s && b == old(self).chain()[0]
                    &&& final(self).stage() == LineStatus::SetStartpoint
                    &&& final(self).start() is None
                    &&& final(self).chain() == Seq::<P>::empty()
                    &&& final(self).steps() == old(self).steps().take(old(self).cursor() + 1).push(
                        LineStep::Close { from: s, to: old(self).chain()[0] },
                    )
                    &&& final(self).cursor() == old(self).cursor() + 1
                },
                _ => r is Continue && *final(self) == *old(self),
            },
    {
        if self.points.len() >= 2 {
            if let Some(start) = self.start_point {
                let end = self.points[0];
                if long_enough {
                    self.history.push(LineStep::Close { from: start, to: end });
                    self.status = LineStatus::SetStartpoint;
                    self.start_point = None;
                    self.points.clear();
                    self.start_offset = 0;
                    return DrawOutcome::Create(Shape::Line(start, end));
                }
            }
        }
        DrawOutcome::Continue
    }

    /// A sub-command, in any case: `C`/`CLOSE` closes the chain (with two
    /// points or more, while drawing), `U`/`UNDO` and `REDO` step through
    /// the history. `None` when the command does not apply.
    pub fn on_command(&mut self, cmd: &str, close_long_enough: bool) -> (r: Option<DrawOutcome<P>>)
        requires
            old(self).wf(),
            old(self).has_room(),
        ensures
            final(self).wf(),
            ({
                let u = spec_to_uppercase(cmd@);
                if u == "C"@ || u == "CLOSE"@ {
                    if old(self).stage() == LineStatus::SetEndpoint && old(self).chain().len() >= 2 {
                        r is Some
                    } else {
                        r is None && *final(self) == *old(self)
                    }
                } else if u == "U"@ || u == "UNDO"@ {
                    if old(self).cursor() >= 0 {
                        r matches Some(DrawOutcome::Continue) && final(self).cursor() == old(self).cursor() - 1
                    } else {
                        r is None && *final(self) == *old(self)
                    }
                } else if u == "REDO"@ {
                    if old(self).cursor() + 1 < old(self).steps().len() {
                        r matches Some(DrawOutcome::Continue) && final(self).cursor() == old(self).cursor() + 1
                    } else {
                        r is None && *final(self) == *old(self)
                    }
                } else {
                    r is None && *final(self) == *old(self)
                }
            }),
    {
        let upper = to_uppercase(cmd);
        let u = chars_of(upper.as_str());
        if command_is(u.as_slice(), "C", "CLOSE") {
            if self.status == LineStatus::SetEndpoint && self.points.len() >= 2 {
                Some(self.close(close_long_enough))
            } else {
                None
            }
        } else if command_is(u.as_slice(), "U", "UNDO") {
            if self.can_undo() {
                self.undo();
                Some(DrawOutcome::Continue)
            } else {
                None
            }
        } else if command_is(u.as_slice(), "REDO", "REDO") {
            if self.can_redo() {
                self.redo();
                Some(DrawOutcome::Continue)
            } else {
                None
            }
        } else {
            None
        }
    }

    pub fn can_undo(&self) -> (r: bool)
        requires
            self.wf(),
        ensures
            r == (self.cursor() >= 0),
    {
        self.history.can_undo()
    }

    pub fn can_redo(&self) -> (r: bool)
        requires
            self.wf(),
        ensures
            r == (self.cursor() + 1 < self.steps().len()),
    {
        self.history.can_redo()
    }

    /// Takes back the step applied last.
    pub fn undo(&mut self)
        requires
            old(self).wf(),
        ensures
            final(self).wf(),
            final(self).steps() == old(self).steps(),
            old(self).cursor() < 0 ==> *final(self) == *old(self),
            old(self).cursor() >= 0 ==> final(self).cursor() == old(self).cursor() - 1 && match old(self).steps()[old(self).cursor()] {
                LineStep::SetStartpoint { .. } => {
                    &&& final(self).stage() == LineStatus::SetStartpoint
                    &&& final(self).start() is None
                    &&& final(self).chain() == Seq::<P>::empty()
                },
                LineStep::SetEndpoint { from, .. } => {
                    &&& final(self).stage() == old(self).stage()
                    &&& final(self).start() == Some(from)
                    &&& final(self).chain() == (if old(self).chain().len() > 0 {
                        old(self).chain().drop_last()
                    } else {
                        old(self).chain()
                    })
                },
                LineStep::Close { from, .. } => {
                    &&& final(self).stage() == LineStatus::SetEndpoint
                    &&& final(self).start() == Some(from)
                    &&& final(self).chain() == old(self).chain()
                },
                LineStep::Next => if old(self).chain().len() > 0 {
                    &&& final(self).stage() == LineStatus::SetEndpoint
                    &&& final(self).start() == Some(old(self).chain().last())
                    &&& final(self).chain() == old(self).chain()
                } else {
                    &&& final(self).stage() == old(self).stage()
                    &&& final(self).start() == old(self).start()
                    &&& final(self).chain() == old(self).chain()
                },
            },
    {
        let step = match self.history.undo() {
            Some(s) => *s,
            None => {
                return ;
            },
        };
        match step {
            LineStep::SetStartpoint { .. } => {
                self.status = LineStatus::SetStartpoint;
                self.start_point = None;
                self.points.clear();
            },
            LineStep::SetEndpoint { from, .. } => {
                self.start_point = Some(from);
                if self.points.len() > 0 {
                    self.points.pop();
                }
                if self.start_offset > 0 {
                    self.start_offset = self.start_offset - 1;
                }
            },
            LineStep::Close { from, .. } => {
                self.start_point = Some(from);
                self.status = LineStatus::SetEndpoint;
            },
            LineStep::Next => {
                if self.points.len() > 0 {
                    let last = self.points[self.points.len() - 1];
                    self.start_point = Some(last);
                    self.status = LineStatus::SetEndpoint;
                }
            },
        }
    }

    /// Applies again the step undone last.
    pub fn redo(&mut self)
        requires
            old(self).wf(),
        ensures
            final(self).wf(),
            final(self).steps() == old(self).steps(),
            old(self).cursor() + 1 >= old(self).steps().len() ==> *final(self) == *old(self),
            old(self).cursor() + 1 < old(self).steps().len() ==> final(self).cursor() == old(self).cursor() + 1 && match old(self).steps()[old(self).cursor() + 1] {
                LineStep::SetStartpoint { point } => {
                    &&& final(self).stage() == LineStatus::SetEndpoint
                    &&& final(self).start() == Some(point)
                    &&& final(self).chain() == old(self).chain().push(point)
                },
                LineStep::SetEndpoint { to, .. } => {
                    &&& final(self).stage() == old(self).stage()
                    &&& final(self).start() == Some(to)
                    &&& final(self).chain() == old(self).chain().push(to)
                },
                LineStep::Close { .. } => {
                    &&& final(self).stage() == LineStatus::SetStartpoint
                    &&& final(self).start() is None
                    &&& final(self).chain() == Seq::<P>::empty()
                },
                LineStep::Next => {
                    &&& final(self).stage() == LineStatus::SetStartpoint
                    &&& final(self).start() is None
                    &&& final(self).chain() == old(self).chain()
                },
            },
    {
        let step = match self.history.redo() {
            Some(s) => *s,
            None => {
                return ;
            },
        };
        match step {
            LineStep::SetStartpoint { point } => {
                self.start_point = Some(point);
                self.points.push(point);
                self.status = LineStatus::SetEndpoint;
            },
            LineStep::SetEndpoint { to, .. } => {
                self.start_point = Some(to);
                self.points.push(to);
                if self.start_offset < usize::MAX {
                    self.start_offset = self.start_offset + 1;
                }
            },
            LineStep::Close { .. } => {
                self.status = LineStatus::SetStartpoint;
                self.start_point = None;
                self.points.clear();
            },
            LineStep::Next => {
                self.status = LineStatus::SetStartpoint;
                self.start_point = None;
            },
        }
    }

    /// The prompt for the stage.
    pub fn get_prompt(&self) -> (s: &'static str)
        ensures
            s@ == (if self.stage() == LineStatus::SetStartpoint {
                "指定第一点:"@
            } else if self.chain().len() >= 2 {
                "指定下一点 或 [闭合(C)/放弃(U)]:"@
            } else {
                "指定下一点 或 [放弃(U)]:"@
            }),
    {
        match self.status {
            LineStatus::SetStartpoint => "指定第一点:",
            LineStatus::SetEndpoint => if self.points.len() >= 2 {
                "指定下一点 或 [闭合(C)/放弃(U)]:"
            } else {
                "指定下一点 或 [放弃(U)]:"
            },
        }
    }

    /// The sub-commands that apply in the stage.
    pub fn get_available_commands(&self) -> (v: Vec<&'static str>)
        requires
            self.wf(),
        ensures
            v@.map_values(|c: &str| c@) == (if self.stage() == LineStatus::SetStartpoint {
                Seq::<Seq<char>>::empty()
            } else {
                let base = seq!["undo"@];
                let with_close = if self.chain().len() >= 2 {
                    base.push("close"@)
                } else {
                    base
                };
                if self.cursor() + 1 < self.steps().len() {
                    with_close.push("redo"@)
                } else {
                    with_close
                }
            }),
    {
        let mut cmds: Vec<&'static str> = Vec::new();
        match self.status {
            LineStatus::SetStartpoint => {},
            LineStatus::SetEndpoint => {
                cmds.push("undo");
                if self.points.len() >= 2 {
                    cmds.push("close");
                }
                if self.can_redo() {
                    cmds.push("redo");
                }
            },
        }
        assert(cmds@.map_values(|c: &str| c@) =~= (if self.stage() == LineStatus::SetStartpoint {
            Seq::<Seq<char>>::empty()
        } else {
            let base = seq!["undo"@];
            let with_close = if self.chain().len() >= 2 {
                base.push("close"@)
            } else {
                base
            };
            if self.cursor() + 1 < self.steps().len() {
                with_close.push("redo"@)
            } else {
                with_close
            }
        }));
        cmds
    }
}

/// Stage of the circle tool.
#[derive(Debug, Clone, Copy, PartialEq, Eq, Structural)]
pub enum CircleStatus {
    SetCenter,
    SetRadius,
}

/// The circle tool: a center, then a point on the circle or a radius.
pub struct DrawCircleAction<P> {
    status: CircleStatus,
    center: Option<P>,
}

impl<P: Copy> DrawCircleAction<P> {
    /// The kind of action this tool carries out.
    pub fn action_type(&self) -> (a: ActionType)
        ensures
            a == ActionType::DrawCircle,
    {
        ActionType::DrawCircle
    }

    pub closed spec fn stage(&self) -> CircleStatus {
        self.status
    }

    pub closed spec fn center_point(&self) -> Option<P> {
        self.center
    }

    pub fn new() -> (a: Self)
        ensures
            a.stage() == CircleStatus::SetCenter,
            a.center_point() is None,
    {
        Self { status: CircleStatus::SetCenter, center: None }
    }

    pub fn reset(&mut self)
        ensures
            final(self).stage() == CircleStatus::SetCenter,
            final(self).center_point() is None,
    {
        self.status = CircleStatus::SetCenter;
        self.center = None;
    }

    /// A point: first the center, then a point on the circle, accepted when
    /// the caller found the radius above zero.
    pub fn on_coordinate(&mut self, coord: P, radius_ok: bool) -> (r: DrawOutcome<P>)
        ensures
            old(self).stage() == CircleStatus::SetCenter ==> r is Continue && final(self).stage()
                == CircleStatus::SetRadius && final(self).center_point() == Some(coord),
            old(self).stage() == CircleStatus::SetRadius ==> match old(self).center_point() {
                Some(c) if radius_ok => r matches DrawOutcome::Create(Shape::CircleThrough(a, b))
                    && a == c && b == coord && final(self).stage() == CircleStatus::SetCenter
                    && final(self).center_point() is None,
                _ => r is Continue && *final(self) == *old(self),
            },
    {
        match self.status {
            CircleStatus::SetCenter => {
                self.center = Some(coord);
                self.status = CircleStatus::SetRadius;
                DrawOutcome::Continue
            },
            CircleStatus::SetRadius => {
                if let Some(center) = self.center {
                    if radius_ok {
                        self.reset();
                        return DrawOutcome::Create(Shape::CircleThrough(center, coord));
                    }
                }
                DrawOutcome::Continue
            },
        }
    }

    /// A typed radius, accepted when the caller found it above zero.
    pub fn on_value(&mut self, value_ok: bool) -> (r: DrawOutcome<P>)
        ensures
            match old(self).center_point() {
                Some(c) if old(self).stage() == CircleStatus::SetRadius && value_ok => r matches DrawOutcome::Create(
                    Shape::CircleWithRadius(a),
                ) && a == c && final(self).stage() == CircleStatus::SetCenter
                    && final(self).center_point() is None,
                _ => r is Continue && *final(self) == *old(self),
            },
    {
        if self.status == CircleStatus::SetRadius {
            if let Some(center) = self.center {
                if value_ok {
                    self.reset();
                    return DrawOutcome::Create(Shape::CircleWithRadius(center));
                }
            }
        }
        DrawOutcome::Continue
    }

    /// A right click starts over while a radius is awaited and leaves the
    /// tool otherwise; a left click gives a point.
    pub fn on_mouse_click(&mut self, button: MouseButton, point: P, radius_ok: bool) -> (r: DrawOutcome<P>)
        ensures
            button == MouseButton::Middle ==> r is Continue && *final(self) == *old(self),
            button == MouseButton::Right && old(self).stage() == CircleStatus::SetRadius ==> r is Continue
                && final(self).stage() == CircleStatus::SetCenter && final(self).center_point() is None,
            button == MouseButton::Right && old(self).stage() == CircleStatus::SetCenter ==> r is Cancel
                && *final(self) == *old(self),
    {
        match button {
            MouseButton::Left => self.on_coordinate(point, radius_ok),
            MouseButton::Right => if self.status == CircleStatus::SetRadius {
                self.reset();
                DrawOutcome::Continue
            } else {
                DrawOutcome::Cancel
            },
            MouseButton::Middle => DrawOutcome::Continue,
        }
    }

    pub fn get_prompt(&self) -> (s: &'static str)
        ensures
            s@ == (if self.stage() == CircleStatus::SetCenter {
                "指定圆心:"@
            } else {
                "指定半径 或 [直径(D)]:"@
            }),
    {
        match self.status {
            CircleStatus::SetCenter => "指定圆心:",
            CircleStatus::SetRadius => "指定半径 或 [直径(D)]:",
        }
    }
}

/// Stage of the arc tool.
#[derive(Debug, Clone, Copy, PartialEq, Eq, Structural)]
pub enum ArcStatus {
    SetPoint1,
    SetPoint2,
    SetPoint3,
}

/// The arc tool: start, a point on the arc, end.
pub struct DrawArcAction<P> {
    status: ArcStatus,
    point1: Option<P>,
    point2: Option<P>,
}

impl<P: Copy> DrawArcAction<P> {
    /// The kind of action this tool carries out.
    pub fn action_type(&self) -> (a: ActionType)
        ensures
            a == ActionType::DrawArc,
    {
        ActionType::DrawArc
    }

    pub closed spec fn stage(&self) -> ArcStatus {
        self.status
    }

    pub closed spec fn given(&self) -> (Option<P>, Option<P>) {
        (self.point1, self.point2)
    }

    pub fn new() -> (a: Self)
        ensures
            a.stage() == ArcStatus::SetPoint1,
            a.given() == (None::<P>, None::<P>),
    {
        Self { status: ArcStatus::SetPoint1, point1: None, point2: None }
    }

    pub fn reset(&mut self)
        ensures
            final(self).stage() == ArcStatus::SetPoint1,
            final(self).given() == (None::<P>, None::<P>),
    {
        self.status = ArcStatus::SetPoint1;
        self.point1 = None;
        self.point2 = None;
    }

    /// A point: the start, then a point on the arc, then the end, accepted
    /// when the caller found that the three points define an arc.
    pub fn on_coordinate(&mut self, coord: P, arc_ok: bool) -> (r: DrawOutcome<P>)
        ensures
            old(self).stage() == ArcStatus::SetPoint1 ==> r is Continue && final(self).stage()
                == ArcStatus::SetPoint2 && final(self).given() == (Some(coord), old(self).given().1),
            old(self).stage() == ArcStatus::SetPoint2 ==> r is Continue && final(self).stage()
                == ArcStatus::SetPoint3 && final(self).given() == (old(self).given().0, Some(coord)),
            old(self).stage() == ArcStatus::SetPoint3 ==> match old(self).given() {
                (Some(p1), Some(p2)) if arc_ok => r matches DrawOutcome::Create(Shape::Arc(a, b, c))
                    && a == p1 && b == p2 && c == coord && final(self).stage() == ArcStatus::SetPoint1
                    && final(self).given() == (None::<P>, None::<P>),
                _ => r is Continue && *final(self) == *old(self),
            },
    {
        match self.status {
            ArcStatus::SetPoint1 => {
                self.point1 = Some(coord);
                self.status = ArcStatus::SetPoint2;
                DrawOutcome::Continue
            },
            ArcStatus::SetPoint2 => {
                self.point2 = Some(coord);
                self.status = ArcStatus::SetPoint3;
                DrawOutcome::Continue
            },
            ArcStatus::SetPoint3 => {
                if let (Some(p1), Some(p2)) = (self.point1, self.point2) {
                    if arc_ok {
                        self.reset();
                        return DrawOutcome::Create(Shape::Arc(p1, p2, coord));
                    }
                }
                DrawOutcome::Continue
            },
        }
    }

    pub fn get_prompt(&self) -> (s: &'static str)
        ensures
            s@ == (match self.stage() {
                ArcStatus::SetPoint1 => "指定圆弧的起点:"@,
                ArcStatus::SetPoint2 => "指定圆弧上的第二点:"@,
                ArcStatus::SetPoint3 => "指定圆弧的终点:"@,
            }),
    {
        match self.status {
            ArcStatus::SetPoint1 => "指定圆弧的起点:",
            ArcStatus::SetPoint2 => "指定圆弧上的第二点:",
            ArcStatus::SetPoint3 => "指定圆弧的终点:",
        }
    }
}

/// Stage of the rectangle tool.
#[derive(Debug, Clone, Copy, PartialEq, Eq, Structural)]
pub enum RectangleStatus {
    SetCorner1,
    SetCorner2,
}

/// The rectangle tool: two opposite corners.
pub struct DrawRectangleAction<P> {
    status: RectangleStatus,
    corner1: Option<P>,
}

impl<P: Copy> DrawRectangleAction<P> {
    /// The kind of action this tool carries out.
    pub fn action_type(&self) -> (a: ActionType)
        ensures
            a == ActionType::DrawRectangle,
    {
        ActionType::DrawRectangle
    }

    pub closed spec fn stage(&self) -> RectangleStatus {
        self.status
    }

    pub closed spec fn first_corner(&self) -> Option<P> {
        self.corner1
    }

    pub fn new() -> (a: Self)
        ensures
            a.stage() == RectangleStatus::SetCorner1,
            a.first_corner() is None,
    {
        Self { status: RectangleStatus::SetCorner1, corner1: None }
    }

    pub fn reset(&mut self)
        ensures
            final(self).stage() == RectangleStatus::SetCorner1,
            final(self).first_corner() is None,
    {
        self.status = RectangleStatus::SetCorner1;
        self.corner1 = None;
    }

    /// A corner; the second is accepted when the caller found both sides
    /// longer than zero.
    pub fn on_coordinate(&mut self, coord: P, sides_ok: bool) -> (r: DrawOutcome<P>)
        ensures
            old(self).stage() == RectangleStatus::SetCorner1 ==> r is Continue && final(self).stage()
                == RectangleStatus::SetCorner2 && final(self).first_corner() == Some(coord),
            old(self).stage() == RectangleStatus::SetCorner2 ==> match old(self).first_corner() {
                Some(c) if sides_ok => r matches DrawOutcome::Create(Shape::Rectangle(a, b)) && a
                    == c && b == coord && final(self).stage() == RectangleStatus::SetCorner1
                    && final(self).first_corner() is None,
                _ => r is Continue && *final(self) == *old(self),
            },
    {
        match self.status {
            RectangleStatus::SetCorner1 => {
                self.corner1 = Some(coord);
                self.status = RectangleStatus::SetCorner2;
                DrawOutcome::Continue
            },
            RectangleStatus::SetCorner2 => {
                if let Some(c1) = self.corner1 {
                    if sides_ok {
                        self.reset();
                        return DrawOutcome::Create(Shape::Rectangle(c1, coord));
                    }
                }
                DrawOutcome::Continue
            },
        }
    }

    pub fn get_prompt(&self) -> (s: &'static str)
        ensures
            s@ == (if self.stage() == RectangleStatus::SetCorner1 {
                "指定第一个角点:"@
            } else {
                "指定对角点:"@
            }),
    {
        match self.status {
            RectangleStatus::SetCorner1 => "指定第一个角点:",
            RectangleStatus::SetCorner2 => "指定对角点:",
        }
    }
}

/// The point tool: every point given becomes a point entity.
pub struct DrawPointAction;

impl DrawPointAction {
    /// The kind of action this tool carries out.
    pub fn action_type(&self) -> (a: ActionType)
        ensures
            a == ActionType::DrawPoint,
    {
        ActionType::DrawPoint
    }

    pub fn new() -> Self {
        DrawPointAction
    }

    /// A point creates a point entity there.
    pub fn on_coordinate<P: Copy>(&mut self, coord: P) -> (r: DrawOutcome<P>)
        ensures
            r matches DrawOutcome::Create(Shape::Point(p)) && p == coord,
            *final(self) == *old(self),
    {
        DrawOutcome::Create(Shape::Point(coord))
    }

    pub fn get_prompt(&self) -> (s: &'static str)
        ensures
            s@ == "指定点的位置:"@,
    {
        "指定点的位置:"
    }
}

/// Stage of the polyline tool.
#[derive(Debug, Clone, Copy, PartialEq, Eq, Structural)]
pub enum PolylineStatus {
    SetFirstPoint,
    SetNextPoint,
}

/// A step of the polyline tool that can be undone.
#[derive(Debug, Clone, Copy)]
pub enum PolylineStep<P> {
    AddPoint { point: P },
    Close,
}

/// A copy of a list of points.
fn copy_points<P: Copy>(v: &Vec<P>) -> (r: Vec<P>)
    ensures
        r@ == v@,
{
    let mut r: Vec<P> = Vec::new();
    let mut i: usize = 0;
    while i < v.len()
        invariant
            i <= v@.len(),
            r@ == v@.take(i as int),
        decreases v@.len() - i,
    {
        r.push(v[i]);
        assert(r@ =~= v@.take(i + 1));
        i = i + 1;
    }
    assert(v@.take(v@.len() as int) =~= v@);
    r
}

/// The polyline tool: vertices one by one; `close` joins the last to the
/// first (with three or more), a right click ends it open (with two or
/// more).
pub struct DrawPolylineAction<P> {
    status: PolylineStatus,
    vertices: Vec<P>,
    history: ActionHistory<PolylineStep<P>>,
}

impl<P: Copy> DrawPolylineAction<P> {
    /// The sub-commands that apply in the stage: `undo` once the first
    /// point is given, and `close` from three vertices on.
    pub fn get_available_commands(&self) -> (v: Vec<&'static str>)
        ensures
            v@.map_values(|c: &str| c@) == (if self.stage() == PolylineStatus::SetFirstPoint {
                Seq::<Seq<char>>::empty()
            } else if self.vertex_list().len() >= 3 {
                seq!["undo"@, "close"@]
            } else {
                seq!["undo"@]
            }),
    {
        let mut v: Vec<&'static str> = Vec::new();
        if self.status == PolylineStatus::SetNextPoint {
            v.push("undo");
            if self.vertices.len() >= 3 {
                v.push("close");
            }
        }
        proof {
            assert(v@.map_values(|c: &str| c@) =~= (if self.stage() == PolylineStatus::SetFirstPoint {
                Seq::<Seq<char>>::empty()
            } else if self.vertex_list().len() >= 3 {
                seq!["undo"@, "close"@]
            } else {
                seq!["undo"@]
            }));
        }
        v
    }

    /// The kind of action this tool carries out.
    pub fn action_type(&self) -> (a: ActionType)
        ensures
            a == ActionType::DrawPolyline,
    {
        ActionType::DrawPolyline
    }

    pub closed spec fn stage(&self) -> PolylineStatus {
        self.status
    }

    pub closed spec fn vertex_list(&self) -> Seq<P> {
        self.vertices@
    }

    pub closed spec fn cursor(&self) -> int {
        self.history.cursor()
    }

    pub closed spec fn steps(&self) -> Seq<PolylineStep<P>> {
        self.history.entries()
    }

    pub closed spec fn wf(&self) -> bool {
        self.history.wf()
    }

    pub open spec fn has_room(&self) -> bool {
        self.cursor() + 1 < i32::MAX
    }

    pub fn new() -> (a: Self)
        ensures
            a.wf(),
            a.stage() == PolylineStatus::SetFirstPoint,
            a.vertex_list() == Seq::<P>::empty(),
            a.cursor() == -1,
            a.steps() == Seq::<PolylineStep<P>>::empty(),
    {
        Self {
            status: PolylineStatus::SetFirstPoint,
            vertices: Vec::new(),
            history: ActionHistory::new(),
        }
    }

    pub fn reset(&mut self)
        ensures
            final(self).wf(),
            final(self).stage() == PolylineStatus::SetFirstPoint,
            final(self).vertex_list() == Seq::<P>::empty(),
            final(self).cursor() == -1,
            final(self).steps() == Seq::<PolylineStep<P>>::empty(),
    {
        self.status = PolylineStatus::SetFirstPoint;
        self.vertices.clear();
        self.history.clear();
    }

    /// A vertex; while drawing, one the caller found to coincide with the
    /// last vertex is ignored.
    pub fn on_coordinate(&mut self, coord: P, same_as_last: bool) -> (r: DrawOutcome<P>)
        requires
            old(self).wf(),
            old(self).has_room(),
        ensures
            final(self).wf(),
            r is Continue,
            (old(self).stage() == PolylineStatus::SetNextPoint && old(self).vertex_list().len() > 0
                && same_as_last) ==> *final(self) == *old(self),
            !(old(self).stage() == PolylineStatus::SetNextPoint && old(self).vertex_list().len() > 0
                && same_as_last) ==> {
                &&& final(self).stage() == PolylineStatus::SetNextPoint
                &&& final(self).vertex_list() == old(self).vertex_list().push(coord)
                &&& final(self).steps() == old(self).steps().take(old(self).cursor() + 1).push(
                    PolylineStep::AddPoint { point: coord },
                )
                &&& final(self).cursor() == old(self).cursor() + 1
            },
    {
        match self.status {
            PolylineStatus::SetFirstPoint => {
                self.vertices.push(coord);
                self.history.push(PolylineStep::AddPoint { point: coord });
                self.status = PolylineStatus::SetNextPoint;
                DrawOutcome::Continue
            },
            PolylineStatus::SetNextPoint => {
                if self.vertices.len() > 0 && same_as_last {
                    return DrawOutcome::Continue;
                }
                self.vertices.push(coord);
                self.history.push(PolylineStep::AddPoint { point: coord });
                DrawOutcome::Continue
            },
        }
    }

    /// Closes the polyline, with three vertices or more.
    fn close(&mut self) -> (r: DrawOutcome<P>)
        requires
            old(self).wf(),
        ensures
            final(self).wf(),
            old(self).vertex_list().len() >= 3 ==> (r matches DrawOutcome::Create(Shape::Polyline(v, closed))
                && v@ == old(self).vertex_list() && closed && final(self).stage()
                == PolylineStatus::SetFirstPoint && final(self).vertex_list().len() == 0
                && final(self).cursor() == -1),
            old(self).vertex_list().len() < 3 ==> r is Continue && *final(self) == *old(self),
    {
        if self.vertices.len() >= 3 {
            let v = copy_points(&self.vertices);
            self.reset();
            return DrawOutcome::Create(Shape::Polyline(v, true));
        }
        DrawOutcome::Continue
    }

    /// Ends the polyline open, with two vertices or more.
    fn finish(&mut self) -> (r: DrawOutcome<P>)
        requires
            old(self).wf(),
        ensures
            final(self).wf(),
            old(self).vertex_list().len() >= 2 ==> (r matches DrawOutcome::Create(Shape::Polyline(v, closed))
                && v@ == old(self).vertex_list() && !closed && final(self).stage()
                == PolylineStatus::SetFirstPoint && final(self).vertex_list().len() == 0
                && final(self).cursor() == -1),
            old(self).vertex_list().len() < 2 ==> r is Continue && *final(self) == *old(self),
    {
        if self.vertices.len() >= 2 {
            let v = copy_points(&self.vertices);
            self.reset();
            return DrawOutcome::Create(Shape::Polyline(v, false));
        }
        DrawOutcome::Continue
    }

    /// A left click gives a vertex; a right click ends the polyline while
    /// drawing and leaves the tool otherwise.
    pub fn on_mouse_click(&mut self, button: MouseButton, point: P, same_as_last: bool) -> (r:
        DrawOutcome<P>)
        requires
            old(self).wf(),
            old(self).has_room(),
        ensures
            final(self).wf(),
            button == MouseButton::Middle ==> r is Continue && *final(self) == *old(self),
            button == MouseButton::Right && old(self).stage() == PolylineStatus::SetFirstPoint ==> r is Cancel
                && *final(self) == *old(self),
            button == MouseButton::Right && old(self).stage() == PolylineStatus::SetNextPoint ==> (
            old(self).vertex_list().len() >= 2 <==> r is Create),
    {
        match button {
            MouseButton::Left => self.on_coordinate(point, same_as_last),
            MouseButton::Right => if self.status == PolylineStatus::SetNextPoint {
                self.finish()
            } else {
                DrawOutcome::Cancel
            },
            MouseButton::Middle => DrawOutcome::Continue,
        }
    }

    /// Whether the last vertex can be taken back: something to undo and
    /// more than one vertex.
    pub fn can_undo(&self) -> (r: bool)
        requires
            self.wf(),
        ensures
            r == (self.cursor() >= 0 && self.vertex_list().len() > 1),
    {
        self.history.can_undo() && self.vertices.len() > 1
    }

    /// Takes back the last vertex; taking back the only one returns to the
    /// first stage.
    pub fn undo(&mut self)
        requires
            old(self).wf(),
        ensures
            final(self).wf(),
            final(self).steps() == old(self).steps(),
            old(self).vertex_list().len() > 1 ==> final(self).vertex_list() == old(self).vertex_list().drop_last()
                && final(self).stage() == old(self).stage(),
            old(self).vertex_list().len() == 1 ==> final(self).vertex_list().len() == 0
                && final(self).stage() == PolylineStatus::SetFirstPoint,
            old(self).vertex_list().len() >= 1 ==> final(self).cursor() == (if old(self).cursor() >= 0 {
                old(self).cursor() - 1
            } else {
                old(self).cursor()
            }),
            old(self).vertex_list().len() == 0 ==> *final(self) == *old(self),
    {
        if self.vertices.len() > 1 {
            self.vertices.pop();
            self.history.undo();
        } else if self.vertices.len() == 1 {
            self.vertices.pop();
            self.status = PolylineStatus::SetFirstPoint;
            self.history.undo();
        }
    }

    /// `C`/`CLOSE` closes (with three vertices or more) and `U`/`UNDO`
    /// takes back a vertex, in any case; `None` when nothing applies.
    pub fn on_command(&mut self, cmd: &str) -> (r: Option<DrawOutcome<P>>)
        requires
            old(self).wf(),
        ensures
            final(self).wf(),
            ({
                let u = spec_to_uppercase(cmd@);
                if u == "C"@ || u == "CLOSE"@ {
                    (old(self).vertex_list().len() >= 3 <==> r is Some) && (r is None ==> *final(self)
                        == *old(self))
                } else if u == "U"@ || u == "UNDO"@ {
                    if old(self).cursor() >= 0 && old(self).vertex_list().len() > 1 {
                        r matches Some(DrawOutcome::Continue) && final(self).vertex_list() == old(self).vertex_list().drop_last()
                    } else {
                        r is None && *final(self) == *old(self)
                    }
                } else {
                    r is None && *final(self) == *old(self)
                }
            }),
    {
        let upper = to_uppercase(cmd);
        let u = chars_of(upper.as_str());
        if command_is(u.as_slice(), "C", "CLOSE") {
            if self.vertices.len() >= 3 {
                Some(self.close())
            } else {
                None
            }
        } else if command_is(u.as_slice(), "U", "UNDO") {
            if self.can_undo() {
                self.undo();
                Some(DrawOutcome::Continue)
            } else {
                None
            }
        } else {
            None
        }
    }

    pub fn get_prompt(&self) -> (s: &'static str)
        ensures
            s@ == (if self.stage() == PolylineStatus::SetFirstPoint {
                "指定起点:"@
            } else if self.vertex_list().len() >= 3 {
                "指定下一点 或 [闭合(C)/放弃(U)]:"@
            } else {
                "指定下一点 或 [放弃(U)]:"@
            }),
    {
        match self.status {
            PolylineStatus::SetFirstPoint => "指定起点:",
            PolylineStatus::SetNextPoint => if self.vertices.len() >= 3 {
                "指定下一点 或 [闭合(C)/放弃(U)]:"
            } else {
                "指定下一点 或 [放弃(U)]:"
            },
        }
    }
}

/// The selection tool: a first click starts a selection box, a second one
/// ends it; which entities fall in the box is decided outside.
pub struct SelectAction<P> {
    box_start: Option<P>,
}

impl<P: Copy> SelectAction<P> {
    /// The kind of action this tool carries out.
    pub fn action_type(&self) -> (a: ActionType)
        ensures
            a == ActionType::Select,
    {
        ActionType::Select
    }

    /// Where the selection box started, while one is open.
    pub closed spec fn box_corner(&self) -> Option<P> {
        self.box_start
    }

    pub fn new() -> (a: Self)
        ensures
            a.box_corner() is None,
    {
        Self { box_start: None }
    }

    pub fn reset(&mut self)
        ensures
            final(self).box_corner() is None,
    {
        self.box_start = None;
    }

    /// Where the selection box started, while one is open.
    pub fn get_box_select(&self) -> (r: Option<P>)
        ensures
            r == self.box_corner(),
    {
        self.box_start
    }

    /// Whether a selection box is open.
    pub fn is_box_selecting(&self) -> (r: bool)
        ensures
            r == self.box_corner() is Some,
    {
        self.box_start.is_some()
    }

    /// A left click opens a box at the point or closes the open one; a right
    /// click closes it.
    pub fn on_mouse_click(&mut self, button: MouseButton, point: P) -> (r: DrawOutcome<P>)
        ensures
            r is Continue,
            button == MouseButton::Left ==> final(self).box_corner() == (if old(self).box_corner() is None {
                Some(point)
            } else {
                None
            }),
            button == MouseButton::Right ==> final(self).box_corner() is None,
            button == MouseButton::Middle ==> final(self).box_corner() == old(self).box_corner(),
    {
        match button {
            MouseButton::Left => {
                if self.box_start.is_none() {
                    self.box_start = Some(point);
                } else {
                    self.box_start = None;
                }
                DrawOutcome::Continue
            },
            MouseButton::Right => {
                self.box_start = None;
                DrawOutcome::Continue
            },
            MouseButton::Middle => DrawOutcome::Continue,
        }
    }

    pub fn get_prompt(&self) -> (s: &'static str)
        ensures
            s@ == (if self.box_corner() is None {
                "选择对象:"@
            } else {
                "指定对角点:"@
            }),
    {
        if self.box_start.is_none() {
            "选择对象:"
        } else {
            "指定对角点:"
        }
    }
}

/// What an editing tool asks for after an event.
#[derive(Debug, Clone)]
pub enum ModifyOutcome<P, Id> {
    Continue,
    Cancel,
    /// No entities are selected yet.
    NeedSelection,
    /// Modify the entities by the segment between two points: the
    /// displacement, the center and a target, or the mirror line.
    Modify(Vec<Id>, P, P),
}

/// A copy of a list of entity ids.
fn copy_ids<Id: Copy>(v: &[Id]) -> (r: Vec<Id>)
    ensures
        r@ == v@,
{
    let mut r: Vec<Id> = Vec::new();
    let mut i: usize = 0;
    while i < v.len()
        invariant
            i <= v@.len(),
            r@ == v@.take(i as int),
        decreases v@.len() - i,
    {
        r.push(v[i]);
        assert(r@ =~= v@.take(i + 1));
        i = i + 1;
    }
    assert(v@.take(v@.len() as int) =~= v@);
    r
}

/// Stage of the move and copy tools.
#[derive(Debug, Clone, Copy, PartialEq, Eq, Structural)]
pub enum MoveStatus {
    SelectObjects,
    SetBasePoint,
    SetDestination,
}

/// The move tool: entities, a base point, a destination.
pub struct MoveAction<P, Id> {
    status: MoveStatus,
    entity_ids: Vec<Id>,
    base_point: Option<P>,
}

impl<P: Copy, Id: Copy> MoveAction<P, Id> {
    /// The kind of action this tool carries out.
    pub fn action_type(&self) -> (a: ActionType)
        ensures
            a == ActionType::Move,
    {
        ActionType::Move
    }

    pub closed spec fn stage(&self) -> MoveStatus {
        self.status
    }

    pub closed spec fn ids(&self) -> Seq<Id> {
        self.entity_ids@
    }

    pub closed spec fn base(&self) -> Option<P> {
        self.base_point
    }

    pub fn new() -> (a: Self)
        ensures
            a.stage() == MoveStatus::SelectObjects,
            a.ids() == Seq::<Id>::empty(),
            a.base() is None,
    {
        Self { status: MoveStatus::SelectObjects, entity_ids: Vec::new(), base_point: None }
    }

    /// Starts with the entities already selected, if there are any.
    pub fn with_selection(entity_ids: Vec<Id>) -> (a: Self)
        ensures
            a.stage() == (if entity_ids@.len() == 0 {
                MoveStatus::SelectObjects
            } else {
                MoveStatus::SetBasePoint
            }),
            a.ids() == entity_ids@,
            a.base() is None,
    {
        let status = if entity_ids.len() == 0 {
            MoveStatus::SelectObjects
        } else {
            MoveStatus::SetBasePoint
        };
        Self { status, entity_ids, base_point: None }
    }

    pub fn reset(&mut self)
        ensures
            final(self).stage() == MoveStatus::SelectObjects,
            final(self).ids() == Seq::<Id>::empty(),
            final(self).base() is None,
    {
        self.status = MoveStatus::SelectObjects;
        self.entity_ids.clear();
        self.base_point = None;
    }

    /// A point: it takes the current selection first (asking for one when
    /// it is empty), then sets the base point, then moves the entities by
    /// base point to destination.
    pub fn on_coordinate(&mut self, coord: P, selected: &[Id]) -> (r: ModifyOutcome<P, Id>)
        ensures
            old(self).stage() == MoveStatus::SelectObjects ==> if selected@.len() == 0 {
                r is NeedSelection && *final(self) == *old(self)
            } else {
                r is Continue && final(self).stage() == MoveStatus::SetBasePoint && final(self).ids()
                    == selected@ && final(self).base() == old(self).base()
            },
            old(self).stage() == MoveStatus::SetBasePoint ==> r is Continue && final(self).stage()
                == MoveStatus::SetDestination && final(self).base() == Some(coord) && final(self).ids() == old(self).ids(),
            old(self).stage() == MoveStatus::SetDestination ==> match old(self).base() {
                Some(b) => (r matches ModifyOutcome::Modify(v, x, y) && v@ == old(self).ids() && x
                    == b && y == coord) && final(self).stage() == MoveStatus::SelectObjects
                    && final(self).ids().len() == 0 && final(self).base() is None,
                None => r is Continue && *final(self) == *old(self),
            },
    {
        match self.status {
            MoveStatus::SelectObjects => {
                if selected.len() > 0 {
                    self.entity_ids = copy_ids(selected);
                    self.status = MoveStatus::SetBasePoint;
                    ModifyOutcome::Continue
                } else {
                    ModifyOutcome::NeedSelection
                }
            },
            MoveStatus::SetBasePoint => {
                self.base_point = Some(coord);
                self.status = MoveStatus::SetDestination;
                ModifyOutcome::Continue
            },
            MoveStatus::SetDestination => {
                if let Some(base) = self.base_point {
                    let ids = copy_ids(self.entity_ids.as_slice());
                    self.reset();
                    return ModifyOutcome::Modify(ids, base, coord);
                }
                ModifyOutcome::Continue
            },
        }
    }

    /// A left click gives a point; a right click steps back: from the
    /// destination to the base point, from the base point to the start, and
    /// leaves the tool at the start.
    pub fn on_mouse_click(&mut self, button: MouseButton, point: P, selected: &[Id]) -> (r:
        ModifyOutcome<P, Id>)
        ensures
            button == MouseButton::Middle ==> r is Continue && *final(self) == *old(self),
            button == MouseButton::Right ==> match old(self).stage() {
                MoveStatus::SelectObjects => r is Cancel && *final(self) == *old(self),
                MoveStatus::SetBasePoint => r is Continue && final(self).stage()
                    == MoveStatus::SelectObjects && final(self).ids().len() == 0,
                MoveStatus::SetDestination => r is Continue && final(self).stage()
                    == MoveStatus::SetBasePoint && final(self).base() is None && final(self).ids()
                    == old(self).ids(),
            },
    {
        match button {
            MouseButton::Left => self.on_coordinate(point, selected),
            MouseButton::Right => match self.status {
                MoveStatus::SelectObjects => ModifyOutcome::Cancel,
                MoveStatus::SetBasePoint => {
                    self.reset();
                    ModifyOutcome::Continue
                },
                MoveStatus::SetDestination => {
                    self.status = MoveStatus::SetBasePoint;
                    self.base_point = None;
                    ModifyOutcome::Continue
                },
            },
            MouseButton::Middle => ModifyOutcome::Continue,
        }
    }

    pub fn get_prompt(&self) -> (s: &'static str)
        ensures
            s@ == (match self.stage() {
                MoveStatus::SelectObjects => "选择要移动的对象:"@,
                MoveStatus::SetBasePoint => "指定基点:"@,
                MoveStatus::SetDestination => "指定第二点 或 <使用第一点作为位移>:"@,
            }),
    {
        match self.status {
            MoveStatus::SelectObjects => "选择要移动的对象:",
            MoveStatus::SetBasePoint => "指定基点:",
            MoveStatus::SetDestination => "指定第二点 或 <使用第一点作为位移>:",
        }
    }
}

/// The copy tool: entities, a base point, then destinations; in multiple
/// mode (the default) it stays at the destination stage to copy again.
pub struct CopyAction<P, Id> {
    status: MoveStatus,
    entity_ids: Vec<Id>,
    base_point: Option<P>,
    multiple: bool,
}

impl<P: Copy, Id: Copy> CopyAction<P, Id> {
    /// The sub-commands that apply in the stage.
    pub fn get_available_commands(&self) -> (v: Vec<&'static str>)
        ensures
            v@.map_values(|c: &str| c@) == (if self.stage() == MoveStatus::SetDestination {
                seq!["multiple"@]
            } else {
                Seq::<Seq<char>>::empty()
            }),
    {
        let mut v: Vec<&'static str> = Vec::new();
        if self.status == MoveStatus::SetDestination {
            v.push("multiple");
        }
        proof {
            assert(v@.map_values(|c: &str| c@) =~= (if self.stage() == MoveStatus::SetDestination {
                seq!["multiple"@]
            } else {
                Seq::<Seq<char>>::empty()
            }));
        }
        v
    }

    /// The kind of action this tool carries out.
    pub fn action_type(&self) -> (a: ActionType)
        ensures
            a == ActionType::Copy,
    {
        ActionType::Copy
    }

    pub closed spec fn stage(&self) -> MoveStatus {
        self.status
    }

    pub closed spec fn ids(&self) -> Seq<Id> {
        self.entity_ids@
    }

    pub closed spec fn base(&self) -> Option<P> {
        self.base_point
    }

    pub closed spec fn is_multiple(&self) -> bool {
        self.multiple
    }

    pub fn new() -> (a: Self)
        ensures
            a.stage() == MoveStatus::SelectObjects,
            a.ids() == Seq::<Id>::empty(),
            a.base() is None,
            a.is_multiple(),
    {
        Self {
            status: MoveStatus::SelectObjects,
            entity_ids: Vec::new(),
            base_point: None,
            multiple: true,
        }
    }

    /// Starts with the entities already selected, if there are any.
    pub fn with_selection(entity_ids: Vec<Id>) -> (a: Self)
        ensures
            a.stage() == (if entity_ids@.len() == 0 {
                MoveStatus::SelectObjects
            } else {
                MoveStatus::SetBasePoint
            }),
            a.ids() == entity_ids@,
            a.base() is None,
            a.is_multiple(),
    {
        let status = if entity_ids.len() == 0 {
            MoveStatus::SelectObjects
        } else {
            MoveStatus::SetBasePoint
        };
        Self { status, entity_ids, base_point: None, multiple: true }
    }

    /// Back to the start; the multiple mode is kept.
    pub fn reset(&mut self)
        ensures
            final(self).stage() == MoveStatus::SelectObjects,
            final(self).ids() == Seq::<Id>::empty(),
            final(self).base() is None,
            final(self).is_multiple() == old(self).is_multiple(),
    {
        self.status = MoveStatus::SelectObjects;
        self.entity_ids.clear();
        self.base_point = None;
    }

    /// A point: the selection, then the base point, then a destination;
    /// outside multiple mode a copy ends the tool's run.
    pub fn on_coordinate(&mut self, coord: P, selected: &[Id]) -> (r: ModifyOutcome<P, Id>)
        ensures
            final(self).is_multiple() == old(self).is_multiple(),
            old(self).stage() == MoveStatus::SelectObjects ==> if selected@.len() == 0 {
                r is NeedSelection && *final(self) == *old(self)
            } else {
                r is Continue && final(self).stage() == MoveStatus::SetBasePoint && final(self).ids()
                    == selected@ && final(self).base() == old(self).base()
            },
            old(self).stage() == MoveStatus::SetBasePoint ==> r is Continue && final(self).stage()
                == MoveStatus::SetDestination && final(self).base() == Some(coord) && final(self).ids() == old(self).ids(),
            old(self).stage() == MoveStatus::SetDestination ==> match old(self).base() {
                Some(b) => (r matches ModifyOutcome::Modify(v, x, y) && v@ == old(self).ids() && x
                    == b && y == coord) && if old(self).is_multiple() {
                    *final(self) == *old(self)
                } else {
                    final(self).stage() == MoveStatus::SelectObjects && final(self).ids().len() == 0
                        && final(self).base() is None
                },
                None => r is Continue && *final(self) == *old(self),
            },
    {
        match self.status {
            MoveStatus::SelectObjects => {
                if selected.len() > 0 {
                    self.entity_ids = copy_ids(selected);
                    self.status = MoveStatus::SetBasePoint;
                    ModifyOutcome::Continue
                } else {
                    ModifyOutcome::NeedSelection
                }
            },
            MoveStatus::SetBasePoint => {
                self.base_point = Some(coord);
                self.status = MoveStatus::SetDestination;
                ModifyOutcome::Continue
            },
            MoveStatus::SetDestination => {
                if let Some(base) = self.base_point {
                    let ids = copy_ids(self.entity_ids.as_slice());
                    if !self.multiple {
                        self.reset();
                    }
                    return ModifyOutcome::Modify(ids, base, coord);
                }
                ModifyOutcome::Continue
            },
        }
    }

    /// A left click gives a point; a right click leaves the tool at the
    /// start and starts over otherwise.
    pub fn on_mouse_click(&mut self, button: MouseButton, point: P, selected: &[Id]) -> (r:
        ModifyOutcome<P, Id>)
        ensures
            button == MouseButton::Middle ==> r is Continue && *final(self) == *old(self),
            button == MouseButton::Right ==> if old(self).stage() == MoveStatus::SelectObjects {
                r is Cancel && *final(self) == *old(self)
            } else {
                r is Continue && final(self).stage() == MoveStatus::SelectObjects && final(self).ids().len()
                    == 0 && final(self).base() is None
            },
    {
        match button {
            MouseButton::Left => self.on_coordinate(point, selected),
            MouseButton::Right => match self.status {
                MoveStatus::SelectObjects => ModifyOutcome::Cancel,
                _ => {
                    self.reset();
                    ModifyOutcome::Continue
                },
            },
            MouseButton::Middle => ModifyOutcome::Continue,
        }
    }

    /// `M`/`MULTIPLE`, in any case, switches the multiple mode.
    pub fn on_command(&mut self, cmd: &str) -> (r: Option<ModifyOutcome<P, Id>>)
        ensures
            ({
                let u = spec_to_uppercase(cmd@);
                if u == "M"@ || u == "MULTIPLE"@ {
                    r matches Some(ModifyOutcome::Continue) && final(self).is_multiple() == !old(self).is_multiple() && final(self).stage() == old(self).stage() && final(self).ids()
                        == old(self).ids() && final(self).base() == old(self).base()
                } else {
                    r is None && *final(self) == *old(self)
                }
            }),
    {
        let upper = to_uppercase(cmd);
        let u = chars_of(upper.as_str());
        if command_is(u.as_slice(), "M", "MULTIPLE") {
            self.multiple = !self.multiple;
            Some(ModifyOutcome::Continue)
        } else {
            None
        }
    }

    pub fn get_prompt(&self) -> (s: &'static str)
        ensures
            s@ == (match self.stage() {
                MoveStatus::SelectObjects => "选择要复制的对象:"@,
                MoveStatus::SetBasePoint => "指定基点:"@,
                MoveStatus::SetDestination => if self.is_multiple() {
                    "指定第二点 或 [多次(M)]:"@
                } else {
                    "指定第二点:"@
                },
            }),
    {
        match self.status {
            MoveStatus::SelectObjects => "选择要复制的对象:",
            MoveStatus::SetBasePoint => "指定基点:",
            MoveStatus::SetDestination => if self.multiple {
                "指定第二点 或 [多次(M)]:"
            } else {
                "指定第二点:"
            },
        }
    }
}

/// Stage of the rotate and scale tools.
#[derive(Debug, Clone, Copy, PartialEq, Eq, Structural)]
pub enum PivotStatus {
    SelectObjects,
    SetCenter,
    SetReference,
    SetTarget,
}

/// The rotate tool: entities, a center, a reference point, a target point;
/// the rotation is the angle between the two seen from the center.
pub struct RotateAction<P, Id> {
    status: PivotStatus,
    entity_ids: Vec<Id>,
    center: Option<P>,
    reference_point: Option<P>,
    copy_mode: bool,
}

impl<P: Copy, Id: Copy> RotateAction<P, Id> {
    /// The sub-commands that apply in the stage.
    pub fn get_available_commands(&self) -> (v: Vec<&'static str>)
        ensures
            v@.map_values(|c: &str| c@) == (if self.stage() == PivotStatus::SetReference {
                seq!["copy"@]
            } else {
                Seq::<Seq<char>>::empty()
            }),
    {
        let mut v: Vec<&'static str> = Vec::new();
        if self.status == PivotStatus::SetReference {
            v.push("copy");
        }
        proof {
            assert(v@.map_values(|c: &str| c@) =~= (if self.stage() == PivotStatus::SetReference {
                seq!["copy"@]
            } else {
                Seq::<Seq<char>>::empty()
            }));
        }
        v
    }

    /// The kind of action this tool carries out.
    pub fn action_type(&self) -> (a: ActionType)
        ensures
            a == ActionType::Rotate,
    {
        ActionType::Rotate
    }

    pub closed spec fn stage(&self) -> PivotStatus {
        self.status
    }

    pub closed spec fn ids(&self) -> Seq<Id> {
        self.entity_ids@
    }

    pub closed spec fn pivot(&self) -> (Option<P>, Option<P>) {
        (self.center, self.reference_point)
    }

    pub closed spec fn is_copy(&self) -> bool {
        self.copy_mode
    }

    pub fn new() -> (a: Self)
        ensures
            a.stage() == PivotStatus::SelectObjects,
            a.ids() == Seq::<Id>::empty(),
            a.pivot() == (None::<P>, None::<P>),
            !a.is_copy(),
    {
        Self {
            status: PivotStatus::SelectObjects,
            entity_ids: Vec::new(),
            center: None,
            reference_point: None,
            copy_mode: false,
        }
    }

    /// Back to the start; the copy mode is kept.
    pub fn reset(&mut self)
        ensures
            final(self).stage() == PivotStatus::SelectObjects,
            final(self).ids() == Seq::<Id>::empty(),
            final(self).pivot() == (None::<P>, None::<P>),
            final(self).is_copy() == old(self).is_copy(),
    {
        self.status = PivotStatus::SelectObjects;
        self.entity_ids.clear();
        self.center = None;
        self.reference_point = None;
    }

    /// A point: the selection, the center, the reference point, then the
    /// target, which rotates the entities.
    pub fn on_coordinate(&mut self, coord: P, selected: &[Id]) -> (r: ModifyOutcome<P, Id>)
        ensures
            final(self).is_copy() == old(self).is_copy(),
            old(self).stage() == PivotStatus::SelectObjects ==> if selected@.len() == 0 {
                r is NeedSelection && *final(self) == *old(self)
            } else {
                r is Continue && final(self).stage() == PivotStatus::SetCenter && final(self).ids()
                    == selected@ && final(self).pivot() == old(self).pivot()
            },
            old(self).stage() == PivotStatus::SetCenter ==> r is Continue && final(self).stage()
                == PivotStatus::SetReference && final(self).pivot() == (Some(coord), old(self).pivot().1) && final(self).ids() == old(self).ids(),
            old(self).stage() == PivotStatus::SetReference ==> r is Continue && final(self).stage()
                == PivotStatus::SetTarget && final(self).pivot() == (old(self).pivot().0, Some(coord))
                && final(self).ids() == old(self).ids(),
            old(self).stage() == PivotStatus::SetTarget ==> match old(self).pivot() {
                (Some(c), Some(_)) => (r matches ModifyOutcome::Modify(v, x, y) && v@ == old(self).ids()
                    && x == c && y == coord) && final(self).stage() == PivotStatus::SelectObjects
                    && final(self).ids().len() == 0,
                _ => r is Continue && *final(self) == *old(self),
            },
    {
        match self.status {
            PivotStatus::SelectObjects => {
                if selected.len() > 0 {
                    self.entity_ids = copy_ids(selected);
                    self.status = PivotStatus::SetCenter;
                    ModifyOutcome::Continue
                } else {
                    ModifyOutcome::NeedSelection
                }
            },
            PivotStatus::SetCenter => {
                self.center = Some(coord);
                self.status = PivotStatus::SetReference;
                ModifyOutcome::Continue
            },
            PivotStatus::SetReference => {
                self.reference_point = Some(coord);
                self.status = PivotStatus::SetTarget;
                ModifyOutcome::Continue
            },
            PivotStatus::SetTarget => {
                if let (Some(center), Some(_)) = (self.center, self.reference_point) {
                    let ids = copy_ids(self.entity_ids.as_slice());
                    self.reset();
                    return ModifyOutcome::Modify(ids, center, coord);
                }
                ModifyOutcome::Continue
            },
        }
    }

    /// A left click gives a point; a right click leaves the tool at the
    /// start and starts over otherwise.
    pub fn on_mouse_click(&mut self, button: MouseButton, point: P, selected: &[Id]) -> (r:
        ModifyOutcome<P, Id>)
        ensures
            button == MouseButton::Middle ==> r is Continue && *final(self) == *old(self),
            button == MouseButton::Right ==> if old(self).stage() == PivotStatus::SelectObjects {
                r is Cancel && *final(self) == *old(self)
            } else {
                r is Continue && final(self).stage() == PivotStatus::SelectObjects && final(self).ids().len()
                    == 0
            },
    {
        match button {
            MouseButton::Left => self.on_coordinate(point, selected),
            MouseButton::Right => match self.status {
                PivotStatus::SelectObjects => ModifyOutcome::Cancel,
                _ => {
                    self.reset();
                    ModifyOutcome::Continue
                },
            },
            MouseButton::Middle => ModifyOutcome::Continue,
        }
    }

    /// `C`/`COPY`, in any case, switches the copy mode.
    pub fn on_command(&mut self, cmd: &str) -> (r: Option<ModifyOutcome<P, Id>>)
        ensures
            ({
                let u = spec_to_uppercase(cmd@);
                if u == "C"@ || u == "COPY"@ {
                    r matches Some(ModifyOutcome::Continue) && final(self).is_copy() == !old(self).is_copy() && final(self).stage() == old(self).stage() && final(self).ids()
                        == old(self).ids() && final(self).pivot() == old(self).pivot()
                } else {
                    r is None && *final(self) == *old(self)
                }
            }),
    {
        let upper = to_uppercase(cmd);
        let u = chars_of(upper.as_str());
        if command_is(u.as_slice(), "C", "COPY") {
            self.copy_mode = !self.copy_mode;
            Some(ModifyOutcome::Continue)
        } else {
            None
        }
    }

    pub fn get_prompt(&self) -> (s: &'static str)
        ensures
            s@ == (match self.stage() {
                PivotStatus::SelectObjects => "选择要旋转的对象:"@,
                PivotStatus::SetCenter => "指定旋转中心:"@,
                PivotStatus::SetReference => "指定参考角度 或 [复制(C)]:"@,
                PivotStatus::SetTarget => "指定新角度:"@,
            }),
    {
        match self.status {
            PivotStatus::SelectObjects => "选择要旋转的对象:",
            PivotStatus::SetCenter => "指定旋转中心:",
            PivotStatus::SetReference => "指定参考角度 或 [复制(C)]:",
            PivotStatus::SetTarget => "指定新角度:",
        }
    }
}

/// The scale tool: entities, a center, a reference point, a target point;
/// the factor is the ratio of their distances to the center.
pub struct ScaleAction<P, Id> {
    status: PivotStatus,
    entity_ids: Vec<Id>,
    center: Option<P>,
    reference_point: Option<P>,
    copy_mode: bool,
}

impl<P: Copy, Id: Copy> ScaleAction<P, Id> {
    /// The sub-commands that apply in the stage.
    pub fn get_available_commands(&self) -> (v: Vec<&'static str>)
        ensures
            v@.map_values(|c: &str| c@) == (if self.stage() == PivotStatus::SetReference {
                seq!["copy"@, "reference"@]
            } else {
                Seq::<Seq<char>>::empty()
            }),
    {
        let mut v: Vec<&'static str> = Vec::new();
        if self.status == PivotStatus::SetReference {
            v.push("copy");
            v.push("reference");
        }
        proof {
            assert(v@.map_values(|c: &str| c@) =~= (if self.stage() == PivotStatus::SetReference {
                seq!["copy"@, "reference"@]
            } else {
                Seq::<Seq<char>>::empty()
            }));
        }
        v
    }

    /// The kind of action this tool carries out.
    pub fn action_type(&self) -> (a: ActionType)
        ensures
            a == ActionType::Scale,
    {
        ActionType::Scale
    }

    pub closed spec fn stage(&self) -> PivotStatus {
        self.status
    }

    pub closed spec fn ids(&self) -> Seq<Id> {
        self.entity_ids@
    }

    pub closed spec fn pivot(&self) -> (Option<P>, Option<P>) {
        (self.center, self.reference_point)
    }

    pub closed spec fn is_copy(&self) -> bool {
        self.copy_mode
    }

    pub fn new() -> (a: Self)
        ensures
            a.stage() == PivotStatus::SelectObjects,
            a.ids() == Seq::<Id>::empty(),
            a.pivot() == (None::<P>, None::<P>),
            !a.is_copy(),
    {
        Self {
            status: PivotStatus::SelectObjects,
            entity_ids: Vec::new(),
            center: None,
            reference_point: None,
            copy_mode: false,
        }
    }

    /// Back to the start; the copy mode is kept.
    pub fn reset(&mut self)
        ensures
            final(self).stage() == PivotStatus::SelectObjects,
            final(self).ids() == Seq::<Id>::empty(),
            final(self).pivot() == (None::<P>, None::<P>),
            final(self).is_copy() == old(self).is_copy(),
    {
        self.status = PivotStatus::SelectObjects;
        self.entity_ids.clear();
        self.center = None;
        self.reference_point = None;
    }

    /// A point: the selection, the center, the reference point, then the
    /// target, which scales the entities when the caller found the
    /// reference point away from the center.
    pub fn on_coordinate(&mut self, coord: P, selected: &[Id], reference_ok: bool) -> (r: ModifyOutcome<
        P,
        Id,
    >)
        ensures
            final(self).is_copy() == old(self).is_copy(),
            old(self).stage() == PivotStatus::SelectObjects ==> if selected@.len() == 0 {
                r is NeedSelection && *final(self) == *old(self)
            } else {
                r is Continue && final(self).stage() == PivotStatus::SetCenter && final(self).ids()
                    == selected@ && final(self).pivot() == old(self).pivot()
            },
            old(self).stage() == PivotStatus::SetCenter ==> r is Continue && final(self).stage()
                == PivotStatus::SetReference && final(self).pivot() == (Some(coord), old(self).pivot().1) && final(self).ids() == old(self).ids(),
            old(self).stage() == PivotStatus::SetReference ==> r is Continue && final(self).stage()
                == PivotStatus::SetTarget && final(self).pivot() == (old(self).pivot().0, Some(coord))
                && final(self).ids() == old(self).ids(),
            old(self).stage() == PivotStatus::SetTarget ==> match old(self).pivot() {
                (Some(c), Some(_)) if reference_ok => (r matches ModifyOutcome::Modify(v, x, y) && v@
                    == old(self).ids() && x == c && y == coord) && final(self).stage()
                    == PivotStatus::SelectObjects && final(self).ids().len() == 0,
                _ => r is Continue && *final(self) == *old(self),
            },
    {
        match self.status {
            PivotStatus::SelectObjects => {
                if selected.len() > 0 {
                    self.entity_ids = copy_ids(selected);
                    self.status = PivotStatus::SetCenter;
                    ModifyOutcome::Continue
                } else {
                    ModifyOutcome::NeedSelection
                }
            },
            PivotStatus::SetCenter => {
                self.center = Some(coord);
                self.status = PivotStatus::SetReference;
                ModifyOutcome::Continue
            },
            PivotStatus::SetReference => {
                self.reference_point = Some(coord);
                self.status = PivotStatus::SetTarget;
                ModifyOutcome::Continue
            },
            PivotStatus::SetTarget => {
                if let (Some(center), Some(_)) = (self.center, self.reference_point) {
                    if reference_ok {
                        let ids = copy_ids(self.entity_ids.as_slice());
                        self.reset();
                        return ModifyOutcome::Modify(ids, center, coord);
                    }
                }
                ModifyOutcome::Continue
            },
        }
    }

    /// A typed factor, accepted once the center is set and when the caller
    /// found it above zero; the entities get the segment from the center
    /// to itself, the factor being known outside.
    pub fn on_value(&mut self, value_ok: bool) -> (r: ModifyOutcome<P, Id>)
        ensures
            final(self).is_copy() == old(self).is_copy(),
            match old(self).pivot().0 {
                Some(c) if (old(self).stage() == PivotStatus::SetReference || old(self).stage()
                    == PivotStatus::SetTarget) && value_ok => (r matches ModifyOutcome::Modify(v, x, y)
                    && v@ == old(self).ids() && x == c && y == c) && final(self).stage()
                    == PivotStatus::SelectObjects && final(self).ids().len() == 0,
                _ => r is Continue && *final(self) == *old(self),
            },
    {
        if self.status == PivotStatus::SetReference || self.status == PivotStatus::SetTarget {
            if let Some(center) = self.center {
                if value_ok {
                    let ids = copy_ids(self.entity_ids.as_slice());
                    self.reset();
                    return ModifyOutcome::Modify(ids, center, center);
                }
            }
        }
        ModifyOutcome::Continue
    }

    /// A left click gives a point; a right click leaves the tool at the
    /// start and starts over otherwise.
    pub fn on_mouse_click(
        &mut self,
        button: MouseButton,
        point: P,
        selected: &[Id],
        reference_ok: bool,
    ) -> (r: ModifyOutcome<P, Id>)
        ensures
            button == MouseButton::Middle ==> r is Continue && *final(self) == *old(self),
            button == MouseButton::Right ==> if old(self).stage() == PivotStatus::SelectObjects {
                r is Cancel && *final(self) == *old(self)
            } else {
                r is Continue && final(self).stage() == PivotStatus::SelectObjects && final(self).ids().len()
                    == 0
            },
    {
        match button {
            MouseButton::Left => self.on_coordinate(point, selected, reference_ok),
            MouseButton::Right => match self.status {
                PivotStatus::SelectObjects => ModifyOutcome::Cancel,
                _ => {
                    self.reset();
                    ModifyOutcome::Continue
                },
            },
            MouseButton::Middle => ModifyOutcome::Continue,
        }
    }

    /// `C`/`COPY`, in any case, switches the copy mode.
    pub fn on_command(&mut self, cmd: &str) -> (r: Option<ModifyOutcome<P, Id>>)
        ensures
            ({
                let u = spec_to_uppercase(cmd@);
                if u == "C"@ || u == "COPY"@ {
                    r matches Some(ModifyOutcome::Continue) && final(self).is_copy() == !old(self).is_copy() && final(self).stage() == old(self).stage() && final(self).ids()
                        == old(self).ids() && final(self).pivot() == old(self).pivot()
                } else {
                    r is None && *final(self) == *old(self)
                }
            }),
    {
        let upper = to_uppercase(cmd);
        let u = chars_of(upper.as_str());
        if command_is(u.as_slice(), "C", "COPY") {
            self.copy_mode = !self.copy_mode;
            Some(ModifyOutcome::Continue)
        } else {
            None
        }
    }

    pub fn get_prompt(&self) -> (s: &'static str)
        ensures
            s@ == (match self.stage() {
                PivotStatus::SelectObjects => "选择要缩放的对象:"@,
                PivotStatus::SetCenter => "指定缩放中心:"@,
                PivotStatus::SetReference => "指定缩放比例 或 [复制(C)/参考(R)]:"@,
                PivotStatus::SetTarget => "指定第二点:"@,
            }),
    {
        match self.status {
            PivotStatus::SelectObjects => "选择要缩放的对象:",
            PivotStatus::SetCenter => "指定缩放中心:",
            PivotStatus::SetReference => "指定缩放比例 或 [复制(C)/参考(R)]:",
            PivotStatus::SetTarget => "指定第二点:",
        }
    }
}

/// Stage of the mirror tool.
#[derive(Debug, Clone, Copy, PartialEq, Eq, Structural)]
pub enum MirrorStatus {
    SelectObjects,
    SetPoint1,
    SetPoint2,
}

/// The mirror tool: entities, then two points of the mirror line.
pub struct MirrorAction<P, Id> {
    status: MirrorStatus,
    entity_ids: Vec<Id>,
    point1: Option<P>,
    delete_original: bool,
}

impl<P: Copy, Id: Copy> MirrorAction<P, Id> {
    /// The kind of action this tool carries out.
    pub fn action_type(&self) -> (a: ActionType)
        ensures
            a == ActionType::Mirror,
    {
        ActionType::Mirror
    }

    pub closed spec fn stage(&self) -> MirrorStatus {
        self.status
    }

    pub closed spec fn ids(&self) -> Seq<Id> {
        self.entity_ids@
    }

    pub closed spec fn first_point(&self) -> Option<P> {
        self.point1
    }

    pub closed spec fn deletes_original(&self) -> bool {
        self.delete_original
    }

    pub fn new() -> (a: Self)
        ensures
            a.stage() == MirrorStatus::SelectObjects,
            a.ids() == Seq::<Id>::empty(),
            a.first_point() is None,
            !a.deletes_original(),
    {
        Self {
            status: MirrorStatus::SelectObjects,
            entity_ids: Vec::new(),
            point1: None,
            delete_original: false,
        }
    }

    /// Back to the start; the choice about the originals is kept.
    pub fn reset(&mut self)
        ensures
            final(self).stage() == MirrorStatus::SelectObjects,
            final(self).ids() == Seq::<Id>::empty(),
            final(self).first_point() is None,
            final(self).deletes_original() == old(self).deletes_original(),
    {
        self.status = MirrorStatus::SelectObjects;
        self.entity_ids.clear();
        self.point1 = None;
    }

    /// A point: the selection, the first point of the mirror line, then
    /// the second, accepted when the caller found the line longer than zero.
    pub fn on_coordinate(&mut self, coord: P, selected: &[Id], line_ok: bool) -> (r: ModifyOutcome<P, Id>)
        ensures
            final(self).deletes_original() == old(self).deletes_original(),
            old(self).stage() == MirrorStatus::SelectObjects ==> if selected@.len() == 0 {
                r is NeedSelection && *final(self) == *old(self)
            } else {
                r is Continue && final(self).stage() == MirrorStatus::SetPoint1 && final(self).ids()
                    == selected@ && final(self).first_point() == old(self).first_point()
            },
            old(self).stage() == MirrorStatus::SetPoint1 ==> r is Continue && final(self).stage()
                == MirrorStatus::SetPoint2 && final(self).first_point() == Some(coord) && final(self).ids() == old(self).ids(),
            old(self).stage() == MirrorStatus::SetPoint2 ==> match old(self).first_point() {
                Some(p1) if line_ok => (r matches ModifyOutcome::Modify(v, x, y) && v@ == old(self).ids()
                    && x == p1 && y == coord) && final(self).stage() == MirrorStatus::SelectObjects
                    && final(self).ids().len() == 0 && final(self).first_point() is None,
                _ => r is Continue && *final(self) == *old(self),
            },
    {
        match self.status {
            MirrorStatus::SelectObjects => {
                if selected.len() > 0 {
                    self.entity_ids = copy_ids(selected);
                    self.status = MirrorStatus::SetPoint1;
                    ModifyOutcome::Continue
                } else {
                    ModifyOutcome::NeedSelection
                }
            },
            MirrorStatus::SetPoint1 => {
                self.point1 = Some(coord);
                self.status = MirrorStatus::SetPoint2;
                ModifyOutcome::Continue
            },
            MirrorStatus::SetPoint2 => {
                if let Some(p1) = self.point1 {
                    if line_ok {
                        let ids = copy_ids(self.entity_ids.as_slice());
                        self.reset();
                        return ModifyOutcome::Modify(ids, p1, coord);
                    }
                }
                ModifyOutcome::Continue
            },
        }
    }

    /// A left click gives a point; a right click leaves the tool at the
    /// start and starts over otherwise.
    pub fn on_mouse_click(
        &mut self,
        button: MouseButton,
        point: P,
        selected: &[Id],
        line_ok: bool,
    ) -> (r: ModifyOutcome<P, Id>)
        ensures
            button == MouseButton::Middle ==> r is Continue && *final(self) == *old(self),
            button == MouseButton::Right ==> if old(self).stage() == MirrorStatus::SelectObjects {
                r is Cancel && *final(self) == *old(self)
            } else {
                r is Continue && final(self).stage() == MirrorStatus::SelectObjects && final(self).ids().len()
                    == 0
            },
    {
        match button {
            MouseButton::Left => self.on_coordinate(point, selected, line_ok),
            MouseButton::Right => match self.status {
                MirrorStatus::SelectObjects => ModifyOutcome::Cancel,
                _ => {
                    self.reset();
                    ModifyOutcome::Continue
                },
            },
            MouseButton::Middle => ModifyOutcome::Continue,
        }
    }

    /// `Y`/`YES` deletes the originals, `N`/`NO` keeps them, in any case.
    pub fn on_command(&mut self, cmd: &str) -> (r: Option<ModifyOutcome<P, Id>>)
        ensures
            ({
                let u = spec_to_uppercase(cmd@);
                if u == "Y"@ || u == "YES"@ {
                    r matches Some(ModifyOutcome::Continue) && final(self).deletes_original()
                        && final(self).stage() == old(self).stage() && final(self).ids() == old(self).ids() && final(self).first_point() == old(self).first_point()
                } else if u == "N"@ || u == "NO"@ {
                    r matches Some(ModifyOutcome::Continue) && !final(self).deletes_original()
                        && final(self).stage() == old(self).stage() && final(self).ids() == old(self).ids() && final(self).first_point() == old(self).first_point()
                } else {
                    r is None && *final(self) == *old(self)
                }
            }),
    {
        let upper = to_uppercase(cmd);
        let u = chars_of(upper.as_str());
        if command_is(u.as_slice(), "Y", "YES") {
            self.delete_original = true;
            Some(ModifyOutcome::Continue)
        } else if command_is(u.as_slice(), "N", "NO") {
            self.delete_original = false;
            Some(ModifyOutcome::Continue)
        } else {
            None
        }
    }

    pub fn get_prompt(&self) -> (s: &'static str)
        ensures
            s@ == (match self.stage() {
                MirrorStatus::SelectObjects => "选择要镜像的对象:"@,
                MirrorStatus::SetPoint1 => "指定镜像线的第一点:"@,
                MirrorStatus::SetPoint2 => "指定镜像线的第二点:"@,
            }),
    {
        match self.status {
            MirrorStatus::SelectObjects => "选择要镜像的对象:",
            MirrorStatus::SetPoint1 => "指定镜像线的第一点:",
            MirrorStatus::SetPoint2 => "指定镜像线的第二点:",
        }
    }
}

} // verus!
