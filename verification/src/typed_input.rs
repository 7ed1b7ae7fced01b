//! Data typed on the command line while drawing a line, a circle, a
//! rectangle, an arc or a polyline.
//!
//! The caller reads the numbers of the typed text, which takes floating
//! point, and hands over one entry: the point it stands for (relative input
//! already measured from the last point) and the facts a step depends on.
//! What happens then is decided here: the points gathered, the input
//! expected next, the status line, and the shape to create.

use vstd::prelude::*;
use crate::canvas::{concat, entry_message, one, text_of, CanvasAction, PointEntry};
use crate::ui_session::{keeps_rest, EditState, UiState};
use crate::ui_state::{DrawingTool, InputType};

verus! {


/// Typed data for the circle tool.
#[derive(Debug, Clone)]
pub enum CircleEntry<P> {
    /// A point: the center, or, once the center is known, a point of the
    /// rim, with whether it lies more than 0.01 from the center.
    At(P, bool),
    /// A radius, as the rim point it gives from the center, with whether
    /// the radius is above zero.
    Radius(P, bool),
    /// The reader's error message.
    Invalid(String),
    /// A value that is neither a point nor a radius.
    Unusable,
}

/// Typed data for the rectangle tool.
#[derive(Debug, Clone)]
pub enum RectEntry<P> {
    /// The first corner.
    Corner(P),
    /// The opposite corner, typed or reached by a width and a height.
    Opposite(P),
    /// The opposite corner of a square, reached by one length.
    Square(P),
    /// The reader's error message.
    Invalid(String),
    /// A value that gives no corner.
    Unusable,
}

/// Typed data for the arc tool.
#[derive(Debug, Clone)]
pub enum ArcEntry<P> {
    /// A point, with whether the first two points and it make an arc (are
    /// not collinear); the flag matters for the third point only.
    At(P, bool),
    /// The reader's error message.
    Invalid(String),
}

/// Typed data for the polyline tool.
#[derive(Debug, Clone)]
pub enum PolylineEntry<P> {
    /// A typed point, with whether it lies within 0.001 of the first vertex.
    Point(P, bool),
    /// A point reached by a length (and an angle) from the last vertex,
    /// with whether it lies within 0.001 of the first vertex.
    FromLast(P, bool),
    /// A length or a length and angle with no vertex to measure from.
    NeedsReference,
    /// The reader's error message.
    Invalid(String),
    /// A value that is not a point.
    Unusable,
}

/// The edit state of drawing with a tool, its points and expected input.
pub open spec fn drawing_with<P, F>(
    e: EditState<P, F>,
    tool: DrawingTool,
    pts: Seq<P>,
    expected: Option<InputType>,
) -> bool {
    e matches EditState::Drawing { tool: t, points, expected_input } && t == tool && points@ == pts && expected_input
        == expected
}

/// Nothing but the status line changes, to `msg`.
pub open spec fn only_message<P, F>(old: UiState<P, F>, new: UiState<P, F>, msg: Seq<char>, r: CanvasAction<P>) -> bool {
    &&& new.edit_state == old.edit_state
    &&& new.status_message@ == msg
    &&& r == CanvasAction::<P>::Nothing
}

/// Nothing changes.
pub open spec fn no_step<P, F>(old: UiState<P, F>, new: UiState<P, F>, r: CanvasAction<P>) -> bool {
    &&& new.edit_state == old.edit_state
    &&& new.status_message == old.status_message
    &&& r == CanvasAction::<P>::Nothing
}

/// What typed data does to a line with `pts` gathered: a point starts it
/// or ends a segment, which the next one starts from.
pub open spec fn line_step<P, F>(
    old: UiState<P, F>,
    new: UiState<P, F>,
    pts: Seq<P>,
    expected: Option<InputType>,
    entry: PointEntry<P>,
    r: CanvasAction<P>,
) -> bool {
    match entry {
        PointEntry::At(p) => if pts.len() == 0 {
            &&& drawing_with(new.edit_state, DrawingTool::Line, seq![p], Some(InputType::Point))
            &&& new.status_message@ == "指定下一点:"@
            &&& r == CanvasAction::<P>::Nothing
        } else {
            &&& drawing_with(new.edit_state, DrawingTool::Line, seq![p], expected)
            &&& new.status_message@ == "直线已创建。下一点:"@
            &&& r == CanvasAction::CreateLine(pts[0], p)
        },
        _ => only_message(old, new, entry_message(entry), r),
    }
}

/// Finishing a shape: the editor goes idle with the status line `msg`.
pub open spec fn finished<P, F>(new: UiState<P, F>, msg: Seq<char>) -> bool {
    &&& new.edit_state is Idle
    &&& new.status_message@ == msg
}

/// What typed data does to a circle with `pts` gathered: first the center,
/// then a radius or a rim point.
pub open spec fn circle_step<P, F>(
    old: UiState<P, F>,
    new: UiState<P, F>,
    pts: Seq<P>,
    entry: CircleEntry<P>,
    r: CanvasAction<P>,
) -> bool {
    if pts.len() == 0 {
        match entry {
            CircleEntry::At(p, _) => {
                &&& drawing_with(new.edit_state, DrawingTool::Circle, seq![p], Some(InputType::Radius))
                &&& new.status_message@ == "指定半径:"@
                &&& r == CanvasAction::<P>::Nothing
            },
            CircleEntry::Invalid(m) => only_message(old, new, "输入错误: "@ + m@, r),
            _ => no_step(old, new, r),
        }
    } else {
        match entry {
            CircleEntry::At(q, apart) => if apart {
                &&& finished(new, "圆已创建"@)
                &&& r == CanvasAction::CreateCircle(pts[0], q)
            } else {
                only_message(old, new, "半径太小"@, r)
            },
            CircleEntry::Radius(q, positive) => if positive {
                &&& finished(new, "圆已创建"@)
                &&& r == CanvasAction::CreateCircle(pts[0], q)
            } else {
                only_message(old, new, "半径必须大于0"@, r)
            },
            CircleEntry::Invalid(m) => only_message(old, new, "输入错误: "@ + m@, r),
            CircleEntry::Unusable => only_message(old, new, "请输入半径值或点坐标"@, r),
        }
    }
}

/// What typed data does to a rectangle with `pts` gathered: first a
/// corner, then the opposite corner.
pub open spec fn rectangle_step<P, F>(
    old: UiState<P, F>,
    new: UiState<P, F>,
    pts: Seq<P>,
    entry: RectEntry<P>,
    r: CanvasAction<P>,
) -> bool {
    if pts.len() == 0 {
        match entry {
            RectEntry::Corner(p) => {
                &&& drawing_with(new.edit_state, DrawingTool::Rectangle, seq![p], Some(InputType::Point))
                &&& new.status_message@ == "指定对角点或尺寸:"@
                &&& r == CanvasAction::<P>::Nothing
            },
            RectEntry::Invalid(m) => only_message(old, new, "输入错误: "@ + m@, r),
            _ => no_step(old, new, r),
        }
    } else {
        match entry {
            RectEntry::Opposite(q) => {
                &&& finished(new, "矩形已创建"@)
                &&& r == CanvasAction::CreateRectangle(pts[0], q)
            },
            RectEntry::Square(q) => {
                &&& finished(new, "正方形已创建"@)
                &&& r == CanvasAction::CreateRectangle(pts[0], q)
            },
            RectEntry::Invalid(m) => only_message(old, new, "输入错误: "@ + m@, r),
            RectEntry::Unusable => only_message(old, new, "请输入对角点坐标或尺寸 (如: 100,50)"@, r),
            RectEntry::Corner(_) => no_step(old, new, r),
        }
    }
}

/// What typed data does to an arc with `pts` gathered: each point is added;
/// the third makes the arc if the three are not collinear.
pub open spec fn arc_step<P, F>(
    old: UiState<P, F>,
    new: UiState<P, F>,
    pts: Seq<P>,
    expected: Option<InputType>,
    entry: ArcEntry<P>,
    r: CanvasAction<P>,
) -> bool {
    match entry {
        ArcEntry::At(p, ok) => {
            let n = pts.push(p);
            if n.len() == 1 {
                &&& drawing_with(new.edit_state, DrawingTool::Arc, n, Some(InputType::Point))
                &&& new.status_message@ == "圆弧: 指定第二点:"@
                &&& r == CanvasAction::<P>::Nothing
            } else if n.len() == 2 {
                &&& drawing_with(new.edit_state, DrawingTool::Arc, n, expected)
                &&& new.status_message@ == "圆弧: 指定终点:"@
                &&& r == CanvasAction::<P>::Nothing
            } else if ok {
                &&& finished(new, "圆弧已创建"@)
                &&& r == CanvasAction::CreateArc(n[0], n[1], n[2])
            } else {
                &&& drawing_with(new.edit_state, DrawingTool::Arc, n, expected)
                &&& new.status_message@ == "无法创建圆弧（三点共线）"@
                &&& r == CanvasAction::<P>::Nothing
            }
        },
        ArcEntry::Invalid(m) => only_message(old, new, "输入错误: "@ + m@, r),
    }
}

/// A polyline vertex reached by typed data: back at the first vertex with
/// two or more gathered it closes the polyline, otherwise it is added.
pub open spec fn polyline_vertex<P, F>(
    new: UiState<P, F>,
    pts: Seq<P>,
    q: P,
    closes: bool,
    expected_after: Option<InputType>,
    r: CanvasAction<P>,
) -> bool {
    if pts.len() >= 2 && closes {
        &&& finished(new, "闭合多段线已创建"@)
        &&& r matches CanvasAction::CreatePolyline(v, closed) && v@ == pts && closed
    } else {
        &&& drawing_with(new.edit_state, DrawingTool::Polyline, pts.push(q), expected_after)
        &&& new.status_message@ == "多段线: 指定下一点 (右键结束, 点击起点闭合):"@
        &&& r == CanvasAction::<P>::Nothing
    }
}

/// What typed data does to a polyline with `pts` gathered.
pub open spec fn polyline_step<P, F>(
    old: UiState<P, F>,
    new: UiState<P, F>,
    pts: Seq<P>,
    expected: Option<InputType>,
    entry: PolylineEntry<P>,
    r: CanvasAction<P>,
) -> bool {
    match entry {
        PolylineEntry::Point(q, closes) => polyline_vertex(new, pts, q, closes, Some(InputType::Point), r),
        PolylineEntry::FromLast(q, closes) => polyline_vertex(new, pts, q, closes, expected, r),
        PolylineEntry::NeedsReference => only_message(old, new, "需要参考点"@, r),
        PolylineEntry::Invalid(m) => only_message(old, new, "输入错误: "@ + m@, r),
        PolylineEntry::Unusable => only_message(old, new, "无效的输入格式"@, r),
    }
}

/// The frame every typed-data step keeps.
pub open spec fn typed_frame<P, F>(old: UiState<P, F>, new: UiState<P, F>) -> bool {
    &&& keeps_rest(new, old)
    &&& new.command_history == old.command_history
    &&& new.last_command == old.last_command
    &&& new.current_tool == old.current_tool
    &&& new.selected_entities == old.selected_entities
}

impl<P: Copy, F: Copy> UiState<P, F> {
    /// Takes the tool, points and expected input out of the drawing state,
    /// leaving the editor idle.
    fn take_drawing(&mut self) -> (r: (DrawingTool, Vec<P>, Option<InputType>))
        requires
            old(self).edit_state is Drawing,
        ensures
            old(self).edit_state matches EditState::Drawing { tool, points, expected_input } && r.0 == tool && r.1@
                == points@ && r.2 == expected_input,
            final(self).edit_state is Idle,
            final(self).status_message == old(self).status_message,
            typed_frame(*old(self), *final(self)),
    {
        let mut st: EditState<P, F> = EditState::Idle;
        std::mem::swap(&mut st, &mut self.edit_state);
        match st {
            EditState::Drawing { tool, points, expected_input } => (tool, points, expected_input),
            _ => (DrawingTool::NoTool, Vec::new(), None),
        }
    }

    /// Typed data while drawing a line.
    #[verifier::rlimit(60)]
    pub fn line_input(&mut self, entry: PointEntry<P>) -> (r: CanvasAction<P>)
        requires
            old(self).edit_state matches EditState::Drawing { tool, .. } && tool == DrawingTool::Line,
        ensures
            typed_frame(*old(self), *final(self)),
            old(self).edit_state matches EditState::Drawing { points, expected_input, .. } ==> line_step(
                *old(self),
                *final(self),
                points@,
                expected_input,
                entry,
                r,
            ),
    {
        match entry {
            PointEntry::At(p) => {
                let (tool, points, expected_input) = self.take_drawing();
                if points.len() == 0 {
                    self.edit_state = EditState::Drawing { tool, points: one(p), expected_input: Some(InputType::Point) };
                    self.status_message = text_of("指定下一点:");
                    CanvasAction::Nothing
                } else {
                    let first = points[0];
                    self.edit_state = EditState::Drawing { tool, points: one(p), expected_input };
                    self.status_message = text_of("直线已创建。下一点:");
                    CanvasAction::CreateLine(first, p)
                }
            },
            PointEntry::NeedsReference => {
                self.status_message = text_of("需要参考点");
                CanvasAction::Nothing
            },
            PointEntry::Invalid(m) => {
                self.status_message = concat("输入错误: ", m.as_str());
                CanvasAction::Nothing
            },
            PointEntry::Unusable => {
                self.status_message = text_of("无效的输入格式");
                CanvasAction::Nothing
            },
        }
    }
    /// Typed data while drawing a circle.
    #[verifier::rlimit(60)]
    pub fn circle_input(&mut self, entry: CircleEntry<P>) -> (r: CanvasAction<P>)
        requires
            old(self).edit_state matches EditState::Drawing { tool, .. } && tool == DrawingTool::Circle,
        ensures
            typed_frame(*old(self), *final(self)),
            old(self).edit_state matches EditState::Drawing { points, .. } ==> circle_step(
                *old(self),
                *final(self),
                points@,
                entry,
                r,
            ),
    {
        let empty = match &self.edit_state {
            EditState::Drawing { points, .. } => points.len() == 0,
            _ => true,
        };
        match entry {
            CircleEntry::At(p, apart) => {
                if empty {
                    let (tool, _points, _expected) = self.take_drawing();
                    self.edit_state = EditState::Drawing { tool, points: one(p), expected_input: Some(InputType::Radius) };
                    self.status_message = text_of("指定半径:");
                    CanvasAction::Nothing
                } else if apart {
                    let (_tool, points, _expected) = self.take_drawing();
                    self.status_message = text_of("圆已创建");
                    CanvasAction::CreateCircle(points[0], p)
                } else {
                    self.status_message = text_of("半径太小");
                    CanvasAction::Nothing
                }
            },
            CircleEntry::Radius(q, positive) => {
                if empty {
                    CanvasAction::Nothing
                } else if positive {
                    let (_tool, points, _expected) = self.take_drawing();
                    self.status_message = text_of("圆已创建");
                    CanvasAction::CreateCircle(points[0], q)
                } else {
                    self.status_message = text_of("半径必须大于0");
                    CanvasAction::Nothing
                }
            },
            CircleEntry::Invalid(m) => {
                self.status_message = concat("输入错误: ", m.as_str());
                CanvasAction::Nothing
            },
            CircleEntry::Unusable => {
                if !empty {
                    self.status_message = text_of("请输入半径值或点坐标");
                }
                CanvasAction::Nothing
            },
        }
    }

    /// Typed data while drawing a rectangle.
    #[verifier::rlimit(60)]
    pub fn rectangle_input(&mut self, entry: RectEntry<P>) -> (r: CanvasAction<P>)
        requires
            old(self).edit_state matches EditState::Drawing { tool, .. } && tool == DrawingTool::Rectangle,
        ensures
            typed_frame(*old(self), *final(self)),
            old(self).edit_state matches EditState::Drawing { points, .. } ==> rectangle_step(
                *old(self),
                *final(self),
                points@,
                entry,
                r,
            ),
    {
        let empty = match &self.edit_state {
            EditState::Drawing { points, .. } => points.len() == 0,
            _ => true,
        };
        match entry {
            RectEntry::Corner(p) => {
                if empty {
                    let (tool, _points, _expected) = self.take_drawing();
                    self.edit_state = EditState::Drawing { tool, points: one(p), expected_input: Some(InputType::Point) };
                    self.status_message = text_of("指定对角点或尺寸:");
                }
                CanvasAction::Nothing
            },
            RectEntry::Opposite(q) => {
                if empty {
                    CanvasAction::Nothing
                } else {
                    let (_tool, points, _expected) = self.take_drawing();
                    self.status_message = text_of("矩形已创建");
                    CanvasAction::CreateRectangle(points[0], q)
                }
            },
            RectEntry::Square(q) => {
                if empty {
                    CanvasAction::Nothing
                } else {
                    let (_tool, points, _expected) = self.take_drawing();
                    self.status_message = text_of("正方形已创建");
                    CanvasAction::CreateRectangle(points[0], q)
                }
            },
            RectEntry::Invalid(m) => {
                self.status_message = concat("输入错误: ", m.as_str());
                CanvasAction::Nothing
            },
            RectEntry::Unusable => {
                if !empty {
                    self.status_message = text_of("请输入对角点坐标或尺寸 (如: 100,50)");
                }
                CanvasAction::Nothing
            },
        }
    }

    /// Typed data while drawing an arc.
    #[verifier::rlimit(90)]
    pub fn arc_input(&mut self, entry: ArcEntry<P>) -> (r: CanvasAction<P>)
        requires
            old(self).edit_state matches EditState::Drawing { tool, .. } && tool == DrawingTool::Arc,
        ensures
            typed_frame(*old(self), *final(self)),
            old(self).edit_state matches EditState::Drawing { points, expected_input, .. } ==> arc_step(
                *old(self),
                *final(self),
                points@,
                expected_input,
                entry,
                r,
            ),
    {
        match entry {
            ArcEntry::At(p, ok) => {
                let (tool, mut points, expected_input) = self.take_drawing();
                points.push(p);
                let n = points.len();
                if n == 1 {
                    self.edit_state = EditState::Drawing { tool, points, expected_input: Some(InputType::Point) };
                    self.status_message = text_of("圆弧: 指定第二点:");
                    CanvasAction::Nothing
                } else if n == 2 {
                    self.edit_state = EditState::Drawing { tool, points, expected_input };
                    self.status_message = text_of("圆弧: 指定终点:");
                    CanvasAction::Nothing
                } else if ok {
                    self.status_message = text_of("圆弧已创建");
                    CanvasAction::CreateArc(points[0], points[1], points[2])
                } else {
                    self.edit_state = EditState::Drawing { tool, points, expected_input };
                    self.status_message = text_of("无法创建圆弧（三点共线）");
                    CanvasAction::Nothing
                }
            },
            ArcEntry::Invalid(m) => {
                self.status_message = concat("输入错误: ", m.as_str());
                CanvasAction::Nothing
            },
        }
    }

    /// A vertex typed for the polyline: it closes the polyline or is added.
    #[verifier::rlimit(60)]
    fn polyline_vertex(&mut self, q: P, closes: bool, typed_point: bool) -> (r: CanvasAction<P>)
        requires
            old(self).edit_state matches EditState::Drawing { tool, .. } && tool == DrawingTool::Polyline,
        ensures
            typed_frame(*old(self), *final(self)),
            old(self).edit_state matches EditState::Drawing { points, expected_input, .. } ==> polyline_vertex(
                *final(self),
                points@,
                q,
                closes,
                if typed_point {
                    Some(InputType::Point)
                } else {
                    expected_input
                },
                r,
            ),
    {
        let (tool, mut points, expected_input) = self.take_drawing();
        if points.len() >= 2 && closes {
            self.status_message = text_of("闭合多段线已创建");
            CanvasAction::CreatePolyline(points, true)
        } else {
            points.push(q);
            let exp = if typed_point {
                Some(InputType::Point)
            } else {
                expected_input
            };
            self.edit_state = EditState::Drawing { tool, points, expected_input: exp };
            self.status_message = text_of("多段线: 指定下一点 (右键结束, 点击起点闭合):");
            CanvasAction::Nothing
        }
    }

    /// Typed data while drawing a polyline.
    #[verifier::rlimit(60)]
    pub fn polyline_input(&mut self, entry: PolylineEntry<P>) -> (r: CanvasAction<P>)
        requires
            old(self).edit_state matches EditState::Drawing { tool, .. } && tool == DrawingTool::Polyline,
        ensures
            typed_frame(*old(self), *final(self)),
            old(self).edit_state matches EditState::Drawing { points, expected_input, .. } ==> polyline_step(
                *old(self),
                *final(self),
                points@,
                expected_input,
                entry,
                r,
            ),
    {
        match entry {
            PolylineEntry::Point(q, closes) => self.polyline_vertex(q, closes, true),
            PolylineEntry::FromLast(q, closes) => self.polyline_vertex(q, closes, false),
            PolylineEntry::NeedsReference => {
                self.status_message = text_of("需要参考点");
                CanvasAction::Nothing
            },
            PolylineEntry::Invalid(m) => {
                self.status_message = concat("输入错误: ", m.as_str());
                CanvasAction::Nothing
            },
            PolylineEntry::Unusable => {
                self.status_message = text_of("无效的输入格式");
                CanvasAction::Nothing
            },
        }
    }
}

} // verus!
