//! What a click on the canvas and typed data do to the editor: which tool
//! takes the point, how many points each tool gathers, when a shape or a
//! dimension is finished, and the status line shown at each step.
//!
//! The caller measures what needs floating point (whether a click closes a
//! polyline, whether three points make an arc, the rim point of a picked
//! circle) and carries out the returned action on the document.

use vstd::prelude::*;
use crate::entity::{DimensionType, EntityId};
use crate::ui_session::{cancelled, keeps_rest, EditState, UiState};
use crate::ui_state::{tool_name, DrawingTool, InputType};
use crate::text::{chars_of, chars_eq, digits_in_base, digits_of, string_of, spec_to_uppercase, to_uppercase, trim_chars, trimmed};

verus! {

broadcast use vstd::string::group_string_axioms;

/// What the caller does to the document after a click or typed data.
#[derive(Debug, Clone, PartialEq)]
pub enum CanvasAction<P> {
    Nothing,
    CreatePoint(P),
    CreateLine(P, P),
    /// A circle through its center and a point of its rim.
    CreateCircle(P, P),
    /// A rectangle from two opposite corners.
    CreateRectangle(P, P),
    /// The arc through three points.
    CreateArc(P, P, P),
    CreatePolyline(Vec<P>, bool),
    /// A dimension from its two measured points and its text position.
    CreateDimension(DimensionType, P, P, P),
    MoveEntities(Vec<EntityId>, P, P),
    CopyEntities(Vec<EntityId>, P, P),
    /// Rotate about a center towards a point.
    RotateEntities(Vec<EntityId>, P, P),
    /// Scale about a center by the distance to a point.
    ScaleEntities(Vec<EntityId>, P, P),
    MirrorEntities(Vec<EntityId>, P, P),
    /// Typed data for a tool whose numbers are read with floating point:
    /// the caller reads them into the entry of that tool's input function
    /// (`line_input`, `circle_input`, `rectangle_input`, `arc_input`,
    /// `polyline_input`).
    ForTool(DrawingTool),
}

/// An entity under the click: its id, the name of its geometry, and, for
/// a circle or an arc, its center and the rim point the current
/// dimension tool measures to.
#[derive(Debug, Clone)]
pub struct Picked<P> {
    pub id: EntityId,
    pub kind_name: String,
    pub round: Option<(P, P)>,
}

/// What the caller measured about a click.
#[derive(Debug, Clone, Copy)]
pub struct ClickFacts<F> {
    /// The click is on the first point of the polyline being drawn.
    pub closes_polyline: bool,
    /// The click is away from the mirror line's first point.
    pub mirror_apart: bool,
    /// The arc's two points and the click make an arc (are not collinear).
    pub arc_ok: bool,
    /// The height of new text.
    pub text_height: F,
}

/// A point read from typed data.
#[derive(Debug, Clone)]
pub enum PointEntry<P> {
    At(P),
    /// A length or a length and angle, without a point to measure from.
    NeedsReference,
    /// The reader's error message.
    Invalid(String),
    /// A value that is not a point.
    Unusable,
}

/// The edit state of drawing with a tool.
pub open spec fn drawing_of<P, F>(e: EditState<P, F>, tool: DrawingTool, pts: Seq<P>, expected: InputType) -> bool {
    e matches EditState::Drawing { tool: t, points, expected_input } && t == tool && points@ == pts && expected_input
        == Some(expected)
}

/// The status line when drawing starts with a tool, and the input then
/// expected.
pub open spec fn start_prompt(t: DrawingTool) -> (Seq<char>, InputType) {
    match t {
        DrawingTool::Circle => ("指定半径 (或输入数值/点坐标):"@, InputType::Radius),
        DrawingTool::Rectangle => ("指定对角点 (或输入坐标/尺寸):"@, InputType::Point),
        DrawingTool::Arc => ("圆弧: 指定第二点 (或输入坐标):"@, InputType::Point),
        DrawingTool::Polyline => ("多段线: 指定下一点 (右键结束, 或输入坐标/长度+角度):"@, InputType::Point),
        DrawingTool::Dimension => ("标注: 指定第二个点:"@, InputType::Point),
        _ => ("指定下一点 (或输入坐标/长度+角度):"@, InputType::Point),
    }
}

/// The tools a click starts drawing with.
pub open spec fn starts_drawing(t: DrawingTool) -> bool {
    t == DrawingTool::Line || t == DrawingTool::Circle || t == DrawingTool::Rectangle || t == DrawingTool::Arc
        || t == DrawingTool::Polyline || t == DrawingTool::Dimension
}

/// The status line once a dimension of a kind is created.
pub open spec fn dimension_done(k: DimensionType) -> Seq<char> {
    match k {
        DimensionType::Radius => "半径标注已创建"@,
        DimensionType::Diameter => "直径标注已创建"@,
        _ => "标注已创建"@,
    }
}

/// What a click does while idle.
pub open spec fn idle_click<P, F>(
    old: UiState<P, F>,
    new: UiState<P, F>,
    pos: P,
    picked: Option<Picked<P>>,
    facts: ClickFacts<F>,
    r: CanvasAction<P>,
) -> bool {
    let t = old.current_tool;
    &&& new.current_tool == t
    &&& if starts_drawing(t) {
        &&& drawing_of(new.edit_state, t, seq![pos], start_prompt(t).1)
        &&& new.status_message@ == start_prompt(t).0
        &&& new.selected_entities == old.selected_entities
        &&& r == CanvasAction::<P>::Nothing
    } else if t == DrawingTool::Point {
        &&& new.edit_state == old.edit_state
        &&& new.status_message@ == "点已创建"@
        &&& new.selected_entities == old.selected_entities
        &&& r == CanvasAction::CreatePoint(pos)
    } else if t == DrawingTool::Text {
        &&& new.edit_state matches EditState::TextInput { position, content, height } && position == pos && content@
            == Seq::<char>::empty() && height == facts.text_height
        &&& new.status_message@ == "输入文本内容，按 Enter 确认:"@
        &&& new.selected_entities == old.selected_entities
        &&& r == CanvasAction::<P>::Nothing
    } else if t == DrawingTool::DimensionRadius || t == DrawingTool::DimensionDiameter {
        &&& new.selected_entities == old.selected_entities
        &&& r == CanvasAction::<P>::Nothing
        &&& match picked {
            Some(p) if p.round is Some => {
                let (c, rim) = p.round->0;
                &&& drawing_of(new.edit_state, t, seq![c, rim], InputType::Point)
                &&& new.status_message@ == if t == DrawingTool::DimensionRadius {
                    "半径标注: 指定文本位置:"@
                } else {
                    "直径标注: 指定文本位置:"@
                }
            },
            _ => {
                &&& new.edit_state == old.edit_state
                &&& new.status_message@ == "请选择圆或圆弧"@
            },
        }
    } else if t == DrawingTool::Select {
        &&& new.edit_state == old.edit_state
        &&& r == CanvasAction::<P>::Nothing
        &&& match picked {
            Some(p) => {
                &&& new.selected_entities@ == seq![p.id]
                &&& new.status_message@ == "已选择: "@ + p.kind_name@
            },
            None => {
                &&& new.selected_entities@ == Seq::<EntityId>::empty()
                &&& new.status_message@ == Seq::<char>::empty()
            },
        }
    } else {
        &&& new.edit_state == old.edit_state
        &&& new.status_message == old.status_message
        &&& new.selected_entities == old.selected_entities
        &&& r == CanvasAction::<P>::Nothing
    }
}

/// What a click does while drawing with a tool that has gathered `pts`:
/// the click is added, and a shape is made once the tool has its points.
pub open spec fn drawing_click<P, F>(
    old: UiState<P, F>,
    new: UiState<P, F>,
    tool: DrawingTool,
    pts: Seq<P>,
    pos: P,
    facts: ClickFacts<F>,
    r: CanvasAction<P>,
) -> bool {
    let n = pts.push(pos);
    let unchanged = new.edit_state == old.edit_state && new.status_message == old.status_message && r
        == CanvasAction::<P>::Nothing;
    if tool == DrawingTool::Line {
        if n.len() >= 2 {
            &&& r == CanvasAction::CreateLine(n[0], n[1])
            &&& drawing_of(new.edit_state, DrawingTool::Line, seq![n[1]], InputType::Point)
            &&& new.status_message@ == "直线已创建。下一点 (或输入坐标/长度+角度):"@
        } else {
            unchanged
        }
    } else if tool == DrawingTool::Circle || tool == DrawingTool::Rectangle {
        if n.len() >= 2 {
            &&& r == if tool == DrawingTool::Circle {
                CanvasAction::CreateCircle(n[0], n[1])
            } else {
                CanvasAction::CreateRectangle(n[0], n[1])
            }
            &&& new.edit_state is Idle
            &&& new.status_message@ == if tool == DrawingTool::Circle {
                "圆已创建"@
            } else {
                "矩形已创建"@
            }
        } else {
            unchanged
        }
    } else if tool == DrawingTool::Arc {
        if n.len() == 2 {
            &&& r == CanvasAction::<P>::Nothing
            &&& drawing_of(new.edit_state, DrawingTool::Arc, n, InputType::Point)
            &&& new.status_message@ == "圆弧: 指定终点 (或输入坐标):"@
        } else if n.len() >= 3 {
            &&& new.edit_state is Idle
            &&& if facts.arc_ok {
                &&& r == CanvasAction::CreateArc(n[0], n[1], n[2])
                &&& new.status_message@ == "圆弧已创建"@
            } else {
                &&& r == CanvasAction::<P>::Nothing
                &&& new.status_message@ == "无法创建圆弧（三点共线）"@
            }
        } else {
            unchanged
        }
    } else if tool == DrawingTool::Polyline {
        if n.len() >= 3 && facts.closes_polyline {
            &&& r matches CanvasAction::CreatePolyline(v, closed) && v@ == pts && closed
            &&& new.edit_state is Idle
            &&& new.status_message@ == "闭合多段线已创建"@
        } else {
            &&& r == CanvasAction::<P>::Nothing
            &&& drawing_of(new.edit_state, DrawingTool::Polyline, n, InputType::Point)
            &&& new.status_message@ == "多段线: 指定下一点 (右键结束, 点击起点闭合, 或输入坐标/长度+角度):"@
        }
    } else if tool == DrawingTool::Dimension {
        if n.len() == 2 {
            &&& r == CanvasAction::<P>::Nothing
            &&& drawing_of(new.edit_state, DrawingTool::Dimension, n, InputType::Point)
            &&& new.status_message@ == "标注: 指定标注线位置:"@
        } else if n.len() == 3 {
            &&& r == CanvasAction::CreateDimension(DimensionType::Aligned, n[0], n[1], n[2])
            &&& new.edit_state is Idle
            &&& new.status_message@ == dimension_done(DimensionType::Aligned)
        } else {
            unchanged
        }
    } else if tool == DrawingTool::DimensionRadius || tool == DrawingTool::DimensionDiameter {
        let k = if tool == DrawingTool::DimensionRadius {
            DimensionType::Radius
        } else {
            DimensionType::Diameter
        };
        if n.len() == 3 {
            &&& r == CanvasAction::CreateDimension(k, n[0], n[1], n[2])
            &&& new.edit_state is Idle
            &&& new.status_message@ == dimension_done(k)
        } else {
            unchanged
        }
    } else {
        unchanged
    }
}

/// What a click does during an editing operation on entities: the first
/// click fixes its base point (or center, or first mirror point), the
/// second carries it out.
pub open spec fn op_click<P, F>(old: UiState<P, F>, new: UiState<P, F>, pos: P, facts: ClickFacts<F>, r: CanvasAction<P>) -> bool {
    match old.edit_state {
        EditState::MoveOp { entity_ids, base_point } => match base_point {
            None => {
                &&& new.edit_state matches EditState::MoveOp { entity_ids: ids, base_point: b } && ids@ == entity_ids@
                    && b == Some(pos)
                &&& new.status_message@ == "移动: 指定第二点:"@
                &&& r == CanvasAction::<P>::Nothing
            },
            Some(b) => {
                &&& r matches CanvasAction::MoveEntities(ids, from, to) && ids@ == entity_ids@ && from == b && to == pos
                &&& new.edit_state is Idle
                &&& new.status_message@ == "移动完成"@
            },
        },
        EditState::CopyOp { entity_ids, base_point } => match base_point {
            None => {
                &&& new.edit_state matches EditState::CopyOp { entity_ids: ids, base_point: b } && ids@ == entity_ids@
                    && b == Some(pos)
                &&& new.status_message@ == "复制: 指定第二点:"@
                &&& r == CanvasAction::<P>::Nothing
            },
            Some(b) => {
                &&& r matches CanvasAction::CopyEntities(ids, from, to) && ids@ == entity_ids@ && from == b && to == pos
                &&& new.edit_state is Idle
                &&& new.status_message@ == "复制完成"@
            },
        },
        EditState::RotateOp { entity_ids, center, start_angle } => match center {
            None => {
                &&& new.edit_state matches EditState::RotateOp { entity_ids: ids, center: c, start_angle: a } && ids@
                    == entity_ids@ && c == Some(pos) && a is None
                &&& new.status_message@ == "旋转: 指定旋转角度 (或点):"@
                &&& r == CanvasAction::<P>::Nothing
            },
            Some(c) => {
                &&& r matches CanvasAction::RotateEntities(ids, cc, to) && ids@ == entity_ids@ && cc == c && to == pos
                &&& new.edit_state is Idle
                &&& new.status_message@ == "旋转完成"@
            },
        },
        EditState::ScaleOp { entity_ids, center, start_dist } => match center {
            None => {
                &&& new.edit_state matches EditState::ScaleOp { entity_ids: ids, center: c, start_dist: d } && ids@
                    == entity_ids@ && c == Some(pos) && d is None
                &&& new.status_message@ == "缩放: 指定缩放比例 (距离):"@
                &&& r == CanvasAction::<P>::Nothing
            },
            Some(c) => {
                &&& r matches CanvasAction::ScaleEntities(ids, cc, to) && ids@ == entity_ids@ && cc == c && to == pos
                &&& new.edit_state is Idle
                &&& new.status_message@ == "缩放完成"@
            },
        },
        EditState::MirrorOp { entity_ids, point1 } => match point1 {
            None => {
                &&& new.edit_state matches EditState::MirrorOp { entity_ids: ids, point1: p } && ids@ == entity_ids@
                    && p == Some(pos)
                &&& new.status_message@ == "镜像: 指定镜像线第二点:"@
                &&& r == CanvasAction::<P>::Nothing
            },
            Some(p1) => {
                &&& new.edit_state is Idle
                &&& if facts.mirror_apart {
                    &&& r matches CanvasAction::MirrorEntities(ids, a, b) && ids@ == entity_ids@ && a == p1 && b == pos
                    &&& new.status_message@ == "镜像完成"@
                } else {
                    &&& r == CanvasAction::<P>::Nothing
                    &&& new.status_message == old.status_message
                }
            },
        },
        _ => false,
    }
}

pub(crate) fn text_of(s: &str) -> (r: String)
    ensures
        r@ == s@,
{
    s.to_string()
}

pub(crate) fn concat(a: &str, b: &str) -> (r: String)
    ensures
        r@ == a@ + b@,
{
    let mut cs = chars_of(a);
    let bs = chars_of(b);
    let mut i: usize = 0;
    while i < bs.len()
        invariant
            i <= bs@.len(),
            cs@ == a@ + bs@.take(i as int),
        decreases bs@.len() - i,
    {
        cs.push(bs[i]);
        i = i + 1;
        assert(cs@ =~= a@ + bs@.take(i as int));
    }
    assert(bs@.take(bs@.len() as int) =~= b@);
    string_of(cs.as_slice())
}

fn copy_vec<T: Copy>(v: &Vec<T>) -> (r: Vec<T>)
    ensures
        r@ == v@,
{
    let mut r: Vec<T> = Vec::new();
    let mut i: usize = 0;
    while i < v.len()
        invariant
            i <= v@.len(),
            r@ == v@.take(i as int),
        decreases v@.len() - i,
    {
        r.push(v[i]);
        i = i + 1;
    }
    assert(v@.take(v@.len() as int) =~= v@);
    r
}

pub(crate) fn one<P>(p: P) -> (v: Vec<P>)
    ensures
        v@ == seq![p],
{
    let mut v: Vec<P> = Vec::new();
    v.push(p);
    v
}

fn two<P>(p: P, q: P) -> (v: Vec<P>)
    ensures
        v@ == seq![p, q],
{
    let mut v: Vec<P> = Vec::new();
    v.push(p);
    v.push(q);
    v
}


/// The tools whose typed data is read with floating point by the caller.
pub open spec fn reads_numbers(t: DrawingTool) -> bool {
    t == DrawingTool::Line || t == DrawingTool::Circle || t == DrawingTool::Rectangle || t == DrawingTool::Arc || t
        == DrawingTool::Polyline
}

/// The status line a point entry leaves before the dimension tool's own
/// prompt: `None` for a point.
pub open spec fn entry_message<P>(e: PointEntry<P>) -> Seq<char> {
    match e {
        PointEntry::At(_) => Seq::empty(),
        PointEntry::NeedsReference => "需要参考点"@,
        PointEntry::Invalid(m) => "输入错误: "@ + m@,
        PointEntry::Unusable => "无效的输入格式"@,
    }
}

/// The prompt of the dimension tool with `n` points, if it has one.
pub open spec fn dimension_prompt(n: nat) -> Option<Seq<char>> {
    if n == 1 {
        Some("标注: 指定第二个点:"@)
    } else if n == 2 {
        Some("标注: 指定标注线位置:"@)
    } else {
        None
    }
}

/// What typed data does to the dimension tool that has gathered `pts`,
/// past its sub-commands: a point goes the way of a line's point (a line
/// from the first point when there is one, then the point alone); three
/// points make the dimension.
pub open spec fn dimension_data<P, F>(
    old: UiState<P, F>,
    new: UiState<P, F>,
    pts: Seq<P>,
    expected: Option<InputType>,
    entry: PointEntry<P>,
    r: CanvasAction<P>,
) -> bool {
    &&& new.current_tool == old.current_tool
    &&& match entry {
        PointEntry::At(p) => {
            &&& new.edit_state matches EditState::Drawing { tool, points, expected_input } && tool
                == DrawingTool::Dimension && points@ == seq![p] && expected_input == if pts.len() == 0 {
                Some(InputType::Point)
            } else {
                expected
            }
            &&& new.status_message@ == "标注: 指定第二个点:"@
            &&& r == if pts.len() == 0 {
                CanvasAction::<P>::Nothing
            } else {
                CanvasAction::CreateLine(pts[0], p)
            }
        },
        _ => if pts.len() == 3 {
            &&& new.edit_state is Idle
            &&& new.status_message@ == dimension_done(DimensionType::Aligned)
            &&& r == CanvasAction::CreateDimension(DimensionType::Aligned, pts[0], pts[1], pts[2])
        } else {
            &&& new.edit_state == old.edit_state
            &&& new.status_message@ == match dimension_prompt(pts.len()) {
                Some(m) => m,
                None => entry_message(entry),
            }
            &&& r == CanvasAction::<P>::Nothing
        },
    }
}

/// What typed data does while drawing with a tool that has gathered `pts`.
pub open spec fn data_step<P, F>(
    old: UiState<P, F>,
    new: UiState<P, F>,
    tool: DrawingTool,
    pts: Seq<P>,
    expected: Option<InputType>,
    text: Seq<char>,
    entry: PointEntry<P>,
    r: CanvasAction<P>,
) -> bool {
    let u = spec_to_uppercase(trimmed(text));
    let unchanged = new.edit_state == old.edit_state && new.status_message == old.status_message && new.current_tool
        == old.current_tool && r == CanvasAction::<P>::Nothing;
    if reads_numbers(tool) {
        &&& new.edit_state == old.edit_state
        &&& new.status_message == old.status_message
        &&& new.current_tool == old.current_tool
        &&& r == CanvasAction::<P>::ForTool(tool)
    } else if tool == DrawingTool::Dimension {
        if u == "R"@ || u == "RADIUS"@ {
            &&& new.current_tool == DrawingTool::DimensionRadius
            &&& new.edit_state is Idle
            &&& new.status_message@ == "已切换到半径标注。请选择圆或圆弧:"@
            &&& r == CanvasAction::<P>::Nothing
        } else if u == "D"@ || u == "DIAMETER"@ {
            &&& new.current_tool == DrawingTool::DimensionDiameter
            &&& new.edit_state is Idle
            &&& new.status_message@ == "已切换到直径标注。请选择圆或圆弧:"@
            &&& r == CanvasAction::<P>::Nothing
        } else {
            dimension_data(old, new, pts, expected, entry, r)
        }
    } else if tool == DrawingTool::DimensionRadius || tool == DrawingTool::DimensionDiameter {
        let k = if tool == DrawingTool::DimensionRadius {
            DimensionType::Radius
        } else {
            DimensionType::Diameter
        };
        match entry {
            PointEntry::At(p) => if pts.len() == 2 {
                &&& new.current_tool == old.current_tool
                &&& new.edit_state is Idle
                &&& new.status_message@ == dimension_done(k)
                &&& r == CanvasAction::CreateDimension(k, pts[0], pts[1], p)
            } else {
                unchanged
            },
            PointEntry::Invalid(m) => {
                &&& new.current_tool == old.current_tool
                &&& new.edit_state == old.edit_state
                &&& new.status_message@ == "输入错误: "@ + m@
                &&& r == CanvasAction::<P>::Nothing
            },
            _ => unchanged,
        }
    } else {
        &&& new.current_tool == old.current_tool
        &&& new.edit_state == old.edit_state
        &&& new.status_message@ == "工具 "@ + tool_name(tool) + " 不支持数据输入"@
        &&& r == CanvasAction::<P>::Nothing
    }
}

/// Whether an edit state is an operation on entities.
pub open spec fn is_op<P, F>(e: EditState<P, F>) -> bool {
    e is MoveOp || e is CopyOp || e is RotateOp || e is ScaleOp || e is MirrorOp
}

impl<P: Copy, F: Copy> UiState<P, F> {
    fn drawing(tool: DrawingTool, points: Vec<P>, expected: InputType) -> (e: EditState<P, F>)
        ensures
            drawing_of(e, tool, points@, expected),
    {
        EditState::Drawing { tool, points, expected_input: Some(expected) }
    }

    /// A left click at `pos` (the snapped and ortho-constrained point), with
    /// the entity under it, if any: the next edit state and status line, and
    /// what the caller does to the document.
    pub fn left_click(&mut self, pos: P, picked: Option<Picked<P>>, facts: ClickFacts<F>) -> (r: CanvasAction<P>)
        ensures
            keeps_rest(*final(self), *old(self)),
            final(self).command_history == old(self).command_history,
            final(self).last_command == old(self).last_command,
            old(self).edit_state is Idle ==> idle_click(*old(self), *final(self), pos, picked, facts, r),
            old(self).edit_state matches EditState::Drawing { tool, points, .. } ==> {
                &&& final(self).current_tool == old(self).current_tool
                &&& final(self).selected_entities == old(self).selected_entities
                &&& drawing_click(*old(self), *final(self), tool, points@, pos, facts, r)
            },
            is_op(old(self).edit_state) ==> {
                &&& final(self).current_tool == old(self).current_tool
                &&& final(self).selected_entities == old(self).selected_entities
                &&& op_click(*old(self), *final(self), pos, facts, r)
            },
            !(old(self).edit_state is Idle) && !(old(self).edit_state is Drawing) && !is_op(old(self).edit_state) ==> {
                &&& final(self).current_tool == old(self).current_tool
                &&& final(self).selected_entities == old(self).selected_entities
                &&& final(self).edit_state == old(self).edit_state
                &&& final(self).status_message == old(self).status_message
                &&& r == CanvasAction::<P>::Nothing
            },
    {
        match &self.edit_state {
            EditState::Idle => self.idle_click(pos, picked, facts),
            EditState::Drawing { .. } => self.drawing_click(pos, facts),
            EditState::MoveOp { .. } | EditState::CopyOp { .. } | EditState::RotateOp { .. } | EditState::ScaleOp {
                ..
            } | EditState::MirrorOp { .. } => self.op_click(pos, facts),
            _ => CanvasAction::Nothing,
        }
    }

    #[verifier::rlimit(60)]
    fn drawing_click(&mut self, pos: P, facts: ClickFacts<F>) -> (r: CanvasAction<P>)
        requires
            old(self).edit_state is Drawing,
        ensures
            keeps_rest(*final(self), *old(self)),
            final(self).command_history == old(self).command_history,
            final(self).last_command == old(self).last_command,
            final(self).current_tool == old(self).current_tool,
            final(self).selected_entities == old(self).selected_entities,
            old(self).edit_state matches EditState::Drawing { tool, points, .. } ==> drawing_click(
                *old(self),
                *final(self),
                tool,
                points@,
                pos,
                facts,
                r,
            ),
    {
        let mut st: EditState<P, F> = EditState::Idle;
        std::mem::swap(&mut st, &mut self.edit_state);
        match st {
            EditState::Drawing { tool, points, expected_input } => {
                let len = points.len();
                let ghost pts = points@;
                if tool == DrawingTool::Line && len >= 1 {
                    let first = points[0];
                    let second = if len >= 2 { points[1] } else { pos };
                    assert(pts.push(pos)[0] == first && pts.push(pos)[1] == second);
                    self.edit_state = Self::drawing(DrawingTool::Line, one(second), InputType::Point);
                    self.status_message = text_of("直线已创建。下一点 (或输入坐标/长度+角度):");
                    CanvasAction::CreateLine(first, second)
                } else if (tool == DrawingTool::Circle || tool == DrawingTool::Rectangle) && len >= 1 {
                    let first = points[0];
                    let second = if len >= 2 { points[1] } else { pos };
                    assert(pts.push(pos)[0] == first && pts.push(pos)[1] == second);
                    self.edit_state = EditState::Idle;
                    if tool == DrawingTool::Circle {
                        self.status_message = text_of("圆已创建");
                        CanvasAction::CreateCircle(first, second)
                    } else {
                        self.status_message = text_of("矩形已创建");
                        CanvasAction::CreateRectangle(first, second)
                    }
                } else if tool == DrawingTool::Arc && len == 1 {
                    let mut n = copy_vec(&points);
                    n.push(pos);
                    self.edit_state = Self::drawing(DrawingTool::Arc, n, InputType::Point);
                    self.status_message = text_of("圆弧: 指定终点 (或输入坐标):");
                    CanvasAction::Nothing
                } else if tool == DrawingTool::Arc && len >= 2 {
                    let a = points[0];
                    let b = points[1];
                    let c = if len >= 3 { points[2] } else { pos };
                    assert(pts.push(pos)[0] == a && pts.push(pos)[1] == b && pts.push(pos)[2] == c);
                    self.edit_state = EditState::Idle;
                    if facts.arc_ok {
                        self.status_message = text_of("圆弧已创建");
                        CanvasAction::CreateArc(a, b, c)
                    } else {
                        self.status_message = text_of("无法创建圆弧（三点共线）");
                        CanvasAction::Nothing
                    }
                } else if tool == DrawingTool::Polyline {
                    if len >= 2 && facts.closes_polyline {
                        self.edit_state = EditState::Idle;
                        self.status_message = text_of("闭合多段线已创建");
                        CanvasAction::CreatePolyline(points, true)
                    } else {
                        let mut n = points;
                        n.push(pos);
                        self.edit_state = Self::drawing(DrawingTool::Polyline, n, InputType::Point);
                        self.status_message = text_of("多段线: 指定下一点 (右键结束, 点击起点闭合, 或输入坐标/长度+角度):");
                        CanvasAction::Nothing
                    }
                } else if tool == DrawingTool::Dimension && len == 1 {
                    let mut n = points;
                    n.push(pos);
                    self.edit_state = Self::drawing(DrawingTool::Dimension, n, InputType::Point);
                    self.status_message = text_of("标注: 指定标注线位置:");
                    CanvasAction::Nothing
                } else if (tool == DrawingTool::Dimension || tool == DrawingTool::DimensionRadius || tool
                    == DrawingTool::DimensionDiameter) && len == 2 {
                    let a = points[0];
                    let b = points[1];
                    assert(pts.push(pos)[0] == a && pts.push(pos)[1] == b && pts.push(pos)[2] == pos);
                    let k = if tool == DrawingTool::Dimension {
                        DimensionType::Aligned
                    } else if tool == DrawingTool::DimensionRadius {
                        DimensionType::Radius
                    } else {
                        DimensionType::Diameter
                    };
                    self.edit_state = EditState::Idle;
                    self.status_message = if tool == DrawingTool::Dimension {
                        text_of("标注已创建")
                    } else if tool == DrawingTool::DimensionRadius {
                        text_of("半径标注已创建")
                    } else {
                        text_of("直径标注已创建")
                    };
                    CanvasAction::CreateDimension(k, a, b, pos)
                } else {
                    self.edit_state = EditState::Drawing { tool, points, expected_input };
                    CanvasAction::Nothing
                }
            },
            other => {
                self.edit_state = other;
                CanvasAction::Nothing
            },
        }
    }

    fn op_click(&mut self, pos: P, facts: ClickFacts<F>) -> (r: CanvasAction<P>)
        requires
            is_op(old(self).edit_state),
        ensures
            keeps_rest(*final(self), *old(self)),
            final(self).command_history == old(self).command_history,
            final(self).last_command == old(self).last_command,
            final(self).current_tool == old(self).current_tool,
            final(self).selected_entities == old(self).selected_entities,
            op_click(*old(self), *final(self), pos, facts, r),
    {
        let mut st: EditState<P, F> = EditState::Idle;
        std::mem::swap(&mut st, &mut self.edit_state);
        match st {
            EditState::MoveOp { entity_ids, base_point } => match base_point {
                None => {
                    self.edit_state = EditState::MoveOp { entity_ids, base_point: Some(pos) };
                    self.status_message = text_of("移动: 指定第二点:");
                    CanvasAction::Nothing
                },
                Some(b) => {
                    self.status_message = text_of("移动完成");
                    CanvasAction::MoveEntities(entity_ids, b, pos)
                },
            },
            EditState::CopyOp { entity_ids, base_point } => match base_point {
                None => {
                    self.edit_state = EditState::CopyOp { entity_ids, base_point: Some(pos) };
                    self.status_message = text_of("复制: 指定第二点:");
                    CanvasAction::Nothing
                },
                Some(b) => {
                    self.status_message = text_of("复制完成");
                    CanvasAction::CopyEntities(entity_ids, b, pos)
                },
            },
            EditState::RotateOp { entity_ids, center, start_angle } => match center {
                None => {
                    self.edit_state = EditState::RotateOp { entity_ids, center: Some(pos), start_angle: None };
                    self.status_message = text_of("旋转: 指定旋转角度 (或点):");
                    CanvasAction::Nothing
                },
                Some(c) => {
                    self.status_message = text_of("旋转完成");
                    CanvasAction::RotateEntities(entity_ids, c, pos)
                },
            },
            EditState::ScaleOp { entity_ids, center, start_dist } => match center {
                None => {
                    self.edit_state = EditState::ScaleOp { entity_ids, center: Some(pos), start_dist: None };
                    self.status_message = text_of("缩放: 指定缩放比例 (距离):");
                    CanvasAction::Nothing
                },
                Some(c) => {
                    self.status_message = text_of("缩放完成");
                    CanvasAction::ScaleEntities(entity_ids, c, pos)
                },
            },
            EditState::MirrorOp { entity_ids, point1 } => match point1 {
                None => {
                    self.edit_state = EditState::MirrorOp { entity_ids, point1: Some(pos) };
                    self.status_message = text_of("镜像: 指定镜像线第二点:");
                    CanvasAction::Nothing
                },
                Some(p1) => {
                    if facts.mirror_apart {
                        self.status_message = text_of("镜像完成");
                        CanvasAction::MirrorEntities(entity_ids, p1, pos)
                    } else {
                        CanvasAction::Nothing
                    }
                },
            },
            other => {
                self.edit_state = other;
                CanvasAction::Nothing
            },
        }
    }

    /// Data typed on the command line while drawing, with the point the
    /// caller read from it (for the dimension tools): the dimension tool's
    /// sub-commands R/RADIUS and D/DIAMETER switch to the radius and
    /// diameter tools; points go to the dimension tools; tools whose data is
    /// read with floating point are handed back to the caller, who passes
    /// the entry it reads to that tool's input function; other tools
    /// take no data.
    pub fn data_input(&mut self, text: &str, entry: PointEntry<P>) -> (r: CanvasAction<P>)
        ensures
            keeps_rest(*final(self), *old(self)),
            final(self).command_history == old(self).command_history,
            final(self).last_command == old(self).last_command,
            final(self).selected_entities == old(self).selected_entities,
            old(self).edit_state matches EditState::Drawing { tool, points, expected_input } ==> data_step(
                *old(self),
                *final(self),
                tool,
                points@,
                expected_input,
                text@,
                entry,
                r,
            ),
            !(old(self).edit_state is Drawing) ==> {
                &&& final(self).current_tool == old(self).current_tool
                &&& final(self).edit_state == old(self).edit_state
                &&& final(self).status_message == old(self).status_message
                &&& r == CanvasAction::<P>::Nothing
            },
    {
        let tool = match &self.edit_state {
            EditState::Drawing { tool, .. } => *tool,
            _ => {
                return CanvasAction::Nothing;
            },
        };
        if tool == DrawingTool::Line || tool == DrawingTool::Circle || tool == DrawingTool::Rectangle || tool
            == DrawingTool::Arc || tool == DrawingTool::Polyline {
            return CanvasAction::ForTool(tool);
        }
        if tool == DrawingTool::Dimension {
            let t = trim_chars(chars_of(text).as_slice());
            let upper = to_uppercase(string_of(t.as_slice()).as_str());
            let u = chars_of(upper.as_str());
            if chars_eq(u.as_slice(), chars_of("R").as_slice()) || chars_eq(u.as_slice(), chars_of("RADIUS").as_slice()) {
                self.set_tool(DrawingTool::DimensionRadius);
                self.status_message = text_of("已切换到半径标注。请选择圆或圆弧:");
                return CanvasAction::Nothing;
            }
            if chars_eq(u.as_slice(), chars_of("D").as_slice()) || chars_eq(u.as_slice(), chars_of("DIAMETER").as_slice()) {
                self.set_tool(DrawingTool::DimensionDiameter);
                self.status_message = text_of("已切换到直径标注。请选择圆或圆弧:");
                return CanvasAction::Nothing;
            }
            return self.dimension_entry(entry);
        }
        if tool == DrawingTool::DimensionRadius || tool == DrawingTool::DimensionDiameter {
            return self.round_dimension_entry(tool, entry);
        }
        let msg = concat("工具 ", tool.name());
        self.status_message = concat(msg.as_str(), " 不支持数据输入");
        CanvasAction::Nothing
    }

    #[verifier::rlimit(60)]
    fn dimension_entry(&mut self, entry: PointEntry<P>) -> (r: CanvasAction<P>)
        requires
            old(self).edit_state matches EditState::Drawing { tool, .. } && tool == DrawingTool::Dimension,
        ensures
            keeps_rest(*final(self), *old(self)),
            final(self).command_history == old(self).command_history,
            final(self).last_command == old(self).last_command,
            final(self).selected_entities == old(self).selected_entities,
            old(self).edit_state matches EditState::Drawing { points, expected_input, .. } ==> dimension_data(
                *old(self),
                *final(self),
                points@,
                expected_input,
                entry,
                r,
            ),
    {
        let mut st: EditState<P, F> = EditState::Idle;
        std::mem::swap(&mut st, &mut self.edit_state);
        match st {
            EditState::Drawing { tool, points, expected_input } => {
                let len = points.len();
                let ghost pts = points@;
                match entry {
                    PointEntry::At(p) => {
                        let exp = if len == 0 { Some(InputType::Point) } else { expected_input };
                        self.edit_state = EditState::Drawing { tool, points: one(p), expected_input: exp };
                        self.status_message = text_of("标注: 指定第二个点:");
                        if len == 0 {
                            CanvasAction::Nothing
                        } else {
                            CanvasAction::CreateLine(points[0], p)
                        }
                    },
                    other => {
                        if len == 3 {
                            let (a, b, c) = (points[0], points[1], points[2]);
                            self.edit_state = EditState::Idle;
                            self.status_message = text_of("标注已创建");
                            CanvasAction::CreateDimension(DimensionType::Aligned, a, b, c)
                        } else {
                            self.edit_state = EditState::Drawing { tool, points, expected_input };
                            if len == 1 {
                                self.status_message = text_of("标注: 指定第二个点:");
                            } else if len == 2 {
                                self.status_message = text_of("标注: 指定标注线位置:");
                            } else {
                                self.status_message = match other {
                                    PointEntry::NeedsReference => text_of("需要参考点"),
                                    PointEntry::Invalid(m) => concat("输入错误: ", m.as_str()),
                                    _ => text_of("无效的输入格式"),
                                };
                            }
                            CanvasAction::Nothing
                        }
                    },
                }
            },
            other => {
                self.edit_state = other;
                CanvasAction::Nothing
            },
        }
    }

    fn round_dimension_entry(&mut self, tool: DrawingTool, entry: PointEntry<P>) -> (r: CanvasAction<P>)
        requires
            tool == DrawingTool::DimensionRadius || tool == DrawingTool::DimensionDiameter,
            old(self).edit_state matches EditState::Drawing { tool: t, .. } && t == tool,
        ensures
            keeps_rest(*final(self), *old(self)),
            final(self).command_history == old(self).command_history,
            final(self).last_command == old(self).last_command,
            final(self).selected_entities == old(self).selected_entities,
            old(self).edit_state matches EditState::Drawing { points, expected_input, .. } ==> data_step(
                *old(self),
                *final(self),
                tool,
                points@,
                expected_input,
                Seq::empty(),
                entry,
                r,
            ),
    {
        let k = if tool == DrawingTool::DimensionRadius {
            DimensionType::Radius
        } else {
            DimensionType::Diameter
        };
        match entry {
            PointEntry::At(p) => {
                let two_points = match &self.edit_state {
                    EditState::Drawing { points, .. } => if points.len() == 2 {
                        Some((points[0], points[1]))
                    } else {
                        None
                    },
                    _ => None,
                };
                match two_points {
                    Some((a, b)) => {
                        self.edit_state = EditState::Idle;
                        self.status_message = match k {
                            DimensionType::Radius => text_of("半径标注已创建"),
                            _ => text_of("直径标注已创建"),
                        };
                        CanvasAction::CreateDimension(k, a, b, p)
                    },
                    None => CanvasAction::Nothing,
                }
            },
            PointEntry::Invalid(m) => {
                self.status_message = concat("输入错误: ", m.as_str());
                CanvasAction::Nothing
            },
            _ => CanvasAction::Nothing,
        }
    }

    /// A right click: it finishes the polyline being drawn (open, with two
    /// points or more, otherwise it is dropped), and cancels anything else.
    pub fn right_click(&mut self) -> (r: CanvasAction<P>)
        ensures
            keeps_rest(*final(self), *old(self)),
            final(self).command_history == old(self).command_history,
            final(self).last_command == old(self).last_command,
            old(self).edit_state matches EditState::Drawing { tool, points, .. } ==> tool == DrawingTool::Polyline ==> {
                &&& final(self).edit_state is Idle
                &&& final(self).current_tool == old(self).current_tool
                &&& final(self).selected_entities == old(self).selected_entities
                &&& if points@.len() >= 2 {
                    &&& r matches CanvasAction::CreatePolyline(v, closed) && v@ == points@ && !closed
                    &&& final(self).status_message@ == "多段线已创建 ("@ + digits_in_base(points@.len(), 10)
                        + " 个点)"@
                } else {
                    &&& r == CanvasAction::<P>::Nothing
                    &&& final(self).status_message@ == "取消"@
                }
            },
            !(old(self).edit_state matches EditState::Drawing { tool, .. } && tool == DrawingTool::Polyline) ==> {
                &&& cancelled(*final(self), old(self).current_tool, old(self).selected_entities@)
                &&& r == CanvasAction::<P>::Nothing
            },
    {
        let is_polyline = match &self.edit_state {
            EditState::Drawing { tool, .. } => *tool == DrawingTool::Polyline,
            _ => false,
        };
        if !is_polyline {
            self.cancel();
            return CanvasAction::Nothing;
        }
        let mut st: EditState<P, F> = EditState::Idle;
        std::mem::swap(&mut st, &mut self.edit_state);
        match st {
            EditState::Drawing { points, .. } => {
                if points.len() >= 2 {
                    let digits = digits_of(points.len() as u64, 10);
                    let count = string_of(digits.as_slice());
                    let head = concat("多段线已创建 (", count.as_str());
                    self.status_message = concat(head.as_str(), " 个点)");
                    CanvasAction::CreatePolyline(points, false)
                } else {
                    self.status_message = text_of("取消");
                    CanvasAction::Nothing
                }
            },
            _ => CanvasAction::Nothing,
        }
    }

    fn idle_click(&mut self, pos: P, picked: Option<Picked<P>>, facts: ClickFacts<F>) -> (r: CanvasAction<P>)
        requires
            old(self).edit_state is Idle,
        ensures
            keeps_rest(*final(self), *old(self)),
            final(self).command_history == old(self).command_history,
            final(self).last_command == old(self).last_command,
            idle_click(*old(self), *final(self), pos, picked, facts, r),
    {
        let t = self.current_tool;
        match t {
            DrawingTool::Line => {
                self.edit_state = Self::drawing(t, one(pos), InputType::Point);
                self.status_message = text_of("指定下一点 (或输入坐标/长度+角度):");
                CanvasAction::Nothing
            },
            DrawingTool::Circle => {
                self.edit_state = Self::drawing(t, one(pos), InputType::Radius);
                self.status_message = text_of("指定半径 (或输入数值/点坐标):");
                CanvasAction::Nothing
            },
            DrawingTool::Rectangle => {
                self.edit_state = Self::drawing(t, one(pos), InputType::Point);
                self.status_message = text_of("指定对角点 (或输入坐标/尺寸):");
                CanvasAction::Nothing
            },
            DrawingTool::Arc => {
                self.edit_state = Self::drawing(t, one(pos), InputType::Point);
                self.status_message = text_of("圆弧: 指定第二点 (或输入坐标):");
                CanvasAction::Nothing
            },
            DrawingTool::Polyline => {
                self.edit_state = Self::drawing(t, one(pos), InputType::Point);
                self.status_message = text_of("多段线: 指定下一点 (右键结束, 或输入坐标/长度+角度):");
                CanvasAction::Nothing
            },
            DrawingTool::Dimension => {
                self.edit_state = Self::drawing(t, one(pos), InputType::Point);
                self.status_message = text_of("标注: 指定第二个点:");
                CanvasAction::Nothing
            },
            DrawingTool::Point => {
                self.status_message = text_of("点已创建");
                CanvasAction::CreatePoint(pos)
            },
            DrawingTool::Text => {
                self.edit_state = EditState::TextInput { position: pos, content: String::new(), height: facts.text_height };
                self.status_message = text_of("输入文本内容，按 Enter 确认:");
                CanvasAction::Nothing
            },
            DrawingTool::DimensionRadius | DrawingTool::DimensionDiameter => {
                match picked {
                    Some(p) => match p.round {
                        Some((c, rim)) => {
                            self.edit_state = Self::drawing(t, two(c, rim), InputType::Point);
                            self.status_message = if t == DrawingTool::DimensionRadius {
                                text_of("半径标注: 指定文本位置:")
                            } else {
                                text_of("直径标注: 指定文本位置:")
                            };
                        },
                        None => {
                            self.status_message = text_of("请选择圆或圆弧");
                        },
                    },
                    None => {
                        self.status_message = text_of("请选择圆或圆弧");
                    },
                }
                CanvasAction::Nothing
            },
            DrawingTool::Select => {
                self.selected_entities = Vec::new();
                match picked {
                    Some(p) => {
                        self.selected_entities.push(p.id);
                        self.status_message = concat("已选择: ", p.kind_name.as_str());
                    },
                    None => {
                        self.status_message = String::new();
                    },
                }
                CanvasAction::Nothing
            },
            DrawingTool::NoTool => CanvasAction::Nothing,
        }
    }
}

} // verus!
