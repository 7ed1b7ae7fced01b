use zcad::canvas::{CanvasAction, ClickFacts, Picked, PointEntry};
use zcad::entity::{DimensionType, EntityId};
use zcad::ui_session::{EditState, UiState};
use zcad::typed_input::{ArcEntry, CircleEntry, PolylineEntry, RectEntry};
use zcad::ui_state::{DrawingTool, InputType};

type P = (f64, f64);
type State = UiState<P, f64>;

fn fresh(tool: DrawingTool) -> State {
    let mut s: State = UiState::new((0.0, 0.0), 10.0);
    s.set_tool(tool);
    s
}

fn plain() -> ClickFacts<f64> {
    ClickFacts { closes_polyline: false, mirror_apart: true, arc_ok: true, text_height: 2.5 }
}

fn points_of(s: &State) -> Vec<P> {
    match &s.edit_state {
        EditState::Drawing { points, .. } => points.clone(),
        _ => panic!("not drawing"),
    }
}

#[test]
fn line_clicks_chain_segments() {
    let mut s = fresh(DrawingTool::Line);
    assert_eq!(s.left_click((0.0, 0.0), None, plain()), CanvasAction::Nothing);
    assert_eq!(points_of(&s), vec![(0.0, 0.0)]);
    assert_eq!(s.status_message, "指定下一点 (或输入坐标/长度+角度):");
    assert_eq!(s.left_click((10.0, 0.0), None, plain()), CanvasAction::CreateLine((0.0, 0.0), (10.0, 0.0)));
    assert_eq!(points_of(&s), vec![(10.0, 0.0)]);
    assert_eq!(s.status_message, "直线已创建。下一点 (或输入坐标/长度+角度):");
    assert_eq!(s.current_tool, DrawingTool::Line);
    assert_eq!(s.data_input("5,5", PointEntry::Unusable), CanvasAction::ForTool(DrawingTool::Line));
}

#[test]
fn circle_rectangle_point_text_clicks() {
    let mut c = fresh(DrawingTool::Circle);
    c.left_click((1.0, 1.0), None, plain());
    assert_eq!(c.status_message, "指定半径 (或输入数值/点坐标):");
    assert_eq!(c.left_click((4.0, 5.0), None, plain()), CanvasAction::CreateCircle((1.0, 1.0), (4.0, 5.0)));
    assert!(matches!(c.edit_state, EditState::Idle));
    assert_eq!(c.status_message, "圆已创建");

    let mut r = fresh(DrawingTool::Rectangle);
    r.left_click((0.0, 0.0), None, plain());
    assert_eq!(r.status_message, "指定对角点 (或输入坐标/尺寸):");
    assert_eq!(r.left_click((2.0, 3.0), None, plain()), CanvasAction::CreateRectangle((0.0, 0.0), (2.0, 3.0)));
    assert_eq!(r.status_message, "矩形已创建");

    let mut p = fresh(DrawingTool::Point);
    assert_eq!(p.left_click((7.0, 8.0), None, plain()), CanvasAction::CreatePoint((7.0, 8.0)));
    assert_eq!(p.status_message, "点已创建");
    assert!(matches!(p.edit_state, EditState::Idle));

    let mut t = fresh(DrawingTool::Text);
    assert_eq!(t.left_click((3.0, 4.0), None, plain()), CanvasAction::Nothing);
    match &t.edit_state {
        EditState::TextInput { position, content, height } => {
            assert_eq!(*position, (3.0, 4.0));
            assert!(content.is_empty());
            assert_eq!(*height, 2.5);
        }
        _ => panic!("expected text input"),
    }
    assert_eq!(t.status_message, "输入文本内容，按 Enter 确认:");
}

#[test]
fn arc_needs_three_points_off_a_line() {
    let mut a = fresh(DrawingTool::Arc);
    a.left_click((0.0, 0.0), None, plain());
    assert_eq!(a.status_message, "圆弧: 指定第二点 (或输入坐标):");
    assert_eq!(a.left_click((1.0, 1.0), None, plain()), CanvasAction::Nothing);
    assert_eq!(a.status_message, "圆弧: 指定终点 (或输入坐标):");
    let straight = ClickFacts { arc_ok: false, ..plain() };
    assert_eq!(a.left_click((2.0, 2.0), None, straight), CanvasAction::Nothing);
    assert_eq!(a.status_message, "无法创建圆弧（三点共线）");
    assert!(matches!(a.edit_state, EditState::Idle));

    let mut b = fresh(DrawingTool::Arc);
    b.left_click((0.0, 0.0), None, plain());
    b.left_click((1.0, 1.0), None, plain());
    assert_eq!(
        b.left_click((2.0, 0.0), None, plain()),
        CanvasAction::CreateArc((0.0, 0.0), (1.0, 1.0), (2.0, 0.0))
    );
    assert_eq!(b.status_message, "圆弧已创建");
}

#[test]
fn polyline_closes_or_finishes_on_right_click() {
    let mut s = fresh(DrawingTool::Polyline);
    s.left_click((0.0, 0.0), None, plain());
    s.left_click((1.0, 0.0), None, plain());
    s.left_click((1.0, 1.0), None, plain());
    assert_eq!(s.status_message, "多段线: 指定下一点 (右键结束, 点击起点闭合, 或输入坐标/长度+角度):");
    let closing = ClickFacts { closes_polyline: true, ..plain() };
    assert_eq!(
        s.left_click((0.0, 0.0), None, closing),
        CanvasAction::CreatePolyline(vec![(0.0, 0.0), (1.0, 0.0), (1.0, 1.0)], true)
    );
    assert_eq!(s.status_message, "闭合多段线已创建");

    let mut o = fresh(DrawingTool::Polyline);
    o.left_click((0.0, 0.0), None, plain());
    o.left_click((2.0, 0.0), None, plain());
    o.left_click((2.0, 2.0), None, plain());
    assert_eq!(
        o.right_click(),
        CanvasAction::CreatePolyline(vec![(0.0, 0.0), (2.0, 0.0), (2.0, 2.0)], false)
    );
    assert_eq!(o.status_message, "多段线已创建 (3 个点)");
    assert!(matches!(o.edit_state, EditState::Idle));
    assert_eq!(o.current_tool, DrawingTool::Polyline);

    let mut one = fresh(DrawingTool::Polyline);
    one.left_click((0.0, 0.0), None, plain());
    assert_eq!(one.right_click(), CanvasAction::Nothing);
    assert_eq!(one.status_message, "取消");
}

#[test]
fn right_click_elsewhere_cancels() {
    let mut s = fresh(DrawingTool::Line);
    s.left_click((0.0, 0.0), None, plain());
    assert_eq!(s.right_click(), CanvasAction::Nothing);
    assert_eq!(s.current_tool, DrawingTool::Select);
    assert!(matches!(s.edit_state, EditState::Idle));
    assert_eq!(s.status_message, "Cancelled. Tool reset to Select.");
}

#[test]
fn linear_dimension_by_clicks() {
    let mut s = fresh(DrawingTool::Dimension);
    s.left_click((0.0, 0.0), None, plain());
    assert_eq!(s.status_message, "标注: 指定第二个点:");
    s.left_click((10.0, 0.0), None, plain());
    assert_eq!(s.status_message, "标注: 指定标注线位置:");
    assert_eq!(
        s.left_click((5.0, 3.0), None, plain()),
        CanvasAction::CreateDimension(DimensionType::Aligned, (0.0, 0.0), (10.0, 0.0), (5.0, 3.0))
    );
    assert_eq!(s.status_message, "标注已创建");
    assert!(matches!(s.edit_state, EditState::Idle));
}

#[test]
fn dimension_sub_commands() {
    let mut s = fresh(DrawingTool::Dimension);
    s.left_click((0.0, 0.0), None, plain());
    assert_eq!(s.data_input(" radius ", PointEntry::Unusable), CanvasAction::Nothing);
    assert_eq!(s.current_tool, DrawingTool::DimensionRadius);
    assert_eq!(s.status_message, "已切换到半径标注。请选择圆或圆弧:");

    let mut d = fresh(DrawingTool::Dimension);
    d.left_click((0.0, 0.0), None, plain());
    assert_eq!(d.data_input("d", PointEntry::Unusable), CanvasAction::Nothing);
    assert_eq!(d.current_tool, DrawingTool::DimensionDiameter);
    assert_eq!(d.status_message, "已切换到直径标注。请选择圆或圆弧:");

    let mut e = fresh(DrawingTool::Dimension);
    e.left_click((0.0, 0.0), None, plain());
    e.left_click((4.0, 0.0), None, plain());
    assert_eq!(e.data_input("oops", PointEntry::Invalid("bad".to_string())), CanvasAction::Nothing);
    assert_eq!(e.status_message, "标注: 指定标注线位置:");
    assert_eq!(e.current_tool, DrawingTool::Dimension);
}

#[test]
fn radius_dimension_on_a_picked_circle() {
    let mut s = fresh(DrawingTool::DimensionRadius);
    assert_eq!(s.left_click((9.0, 9.0), None, plain()), CanvasAction::Nothing);
    assert_eq!(s.status_message, "请选择圆或圆弧");
    let circle = Picked { id: EntityId(3), kind_name: "Circle".to_string(), round: Some(((0.0, 0.0), (5.0, 0.0))) };
    s.left_click((5.0, 0.0), Some(circle), plain());
    assert_eq!(points_of(&s), vec![(0.0, 0.0), (5.0, 0.0)]);
    assert_eq!(s.status_message, "半径标注: 指定文本位置:");
    assert_eq!(s.data_input("x", PointEntry::Invalid("bad".to_string())), CanvasAction::Nothing);
    assert_eq!(s.status_message, "输入错误: bad");
    assert_eq!(
        s.data_input("8,0", PointEntry::At((8.0, 0.0))),
        CanvasAction::CreateDimension(DimensionType::Radius, (0.0, 0.0), (5.0, 0.0), (8.0, 0.0))
    );
    assert_eq!(s.status_message, "半径标注已创建");
    assert!(matches!(s.edit_state, EditState::Idle));

    let mut d = fresh(DrawingTool::DimensionDiameter);
    let arc = Picked { id: EntityId(4), kind_name: "Arc".to_string(), round: Some(((1.0, 1.0), (1.0, 3.0))) };
    d.left_click((1.0, 3.0), Some(arc), plain());
    assert_eq!(d.status_message, "直径标注: 指定文本位置:");
    assert_eq!(
        d.left_click((1.0, 6.0), None, plain()),
        CanvasAction::CreateDimension(DimensionType::Diameter, (1.0, 1.0), (1.0, 3.0), (1.0, 6.0))
    );
    assert_eq!(d.status_message, "直径标注已创建");
}

#[test]
fn select_click_picks_one_entity() {
    let mut s = fresh(DrawingTool::Select);
    s.add_to_selection(EntityId(1));
    let line = Picked { id: EntityId(9), kind_name: "Line".to_string(), round: None };
    assert_eq!(s.left_click((0.0, 0.0), Some(line), plain()), CanvasAction::Nothing);
    assert_eq!(s.selected_entities, vec![EntityId(9)]);
    assert_eq!(s.status_message, "已选择: Line");
    s.left_click((50.0, 50.0), None, plain());
    assert!(s.selected_entities.is_empty());
    assert_eq!(s.status_message, "");
}

#[test]
fn move_operation_takes_two_points() {
    let mut s = fresh(DrawingTool::Select);
    s.edit_state = EditState::MoveOp { entity_ids: vec![EntityId(2), EntityId(5)], base_point: None };
    assert_eq!(s.left_click((1.0, 1.0), None, plain()), CanvasAction::Nothing);
    assert_eq!(s.status_message, "移动: 指定第二点:");
    assert_eq!(
        s.left_click((4.0, 5.0), None, plain()),
        CanvasAction::MoveEntities(vec![EntityId(2), EntityId(5)], (1.0, 1.0), (4.0, 5.0))
    );
    assert_eq!(s.status_message, "移动完成");
    assert!(matches!(s.edit_state, EditState::Idle));

    let mut c = fresh(DrawingTool::Select);
    c.edit_state = EditState::CopyOp { entity_ids: vec![EntityId(1)], base_point: Some((0.0, 0.0)) };
    assert_eq!(
        c.left_click((2.0, 0.0), None, plain()),
        CanvasAction::CopyEntities(vec![EntityId(1)], (0.0, 0.0), (2.0, 0.0))
    );
    assert_eq!(c.status_message, "复制完成");
}

#[test]
fn data_input_outside_drawing_does_nothing() {
    let mut s = fresh(DrawingTool::Line);
    assert_eq!(s.data_input("10", PointEntry::Unusable), CanvasAction::Nothing);
    assert_eq!(s.status_message, "Line 工具已选择");
}

fn drawing(tool: DrawingTool, points: Vec<P>) -> State {
    let mut s = fresh(tool);
    s.edit_state = EditState::Drawing { tool, points, expected_input: None };
    s
}

fn expected_of(s: &State) -> Option<InputType> {
    match &s.edit_state {
        EditState::Drawing { expected_input, .. } => *expected_input,
        _ => panic!("not drawing"),
    }
}

#[test]
fn typed_line_points() {
    let mut s = drawing(DrawingTool::Line, vec![]);
    assert_eq!(s.data_input("0,0", PointEntry::Unusable), CanvasAction::ForTool(DrawingTool::Line));
    assert_eq!(s.line_input(PointEntry::At((0.0, 0.0))), CanvasAction::Nothing);
    assert_eq!(points_of(&s), vec![(0.0, 0.0)]);
    assert_eq!(expected_of(&s), Some(InputType::Point));
    assert_eq!(s.status_message, "指定下一点:");
    assert_eq!(s.line_input(PointEntry::At((3.0, 4.0))), CanvasAction::CreateLine((0.0, 0.0), (3.0, 4.0)));
    assert_eq!(points_of(&s), vec![(3.0, 4.0)]);
    assert_eq!(s.status_message, "直线已创建。下一点:");
    s.line_input(PointEntry::Invalid("Invalid format: x".to_string()));
    assert_eq!(s.status_message, "输入错误: Invalid format: x");
    s.line_input(PointEntry::Unusable);
    assert_eq!(s.status_message, "无效的输入格式");
    let mut e = drawing(DrawingTool::Line, vec![]);
    e.line_input(PointEntry::NeedsReference);
    assert_eq!(e.status_message, "需要参考点");
    assert!(points_of(&e).is_empty());
}

#[test]
fn typed_circle_center_and_radius() {
    let mut s = drawing(DrawingTool::Circle, vec![]);
    s.circle_input(CircleEntry::At((1.0, 1.0), true));
    assert_eq!(points_of(&s), vec![(1.0, 1.0)]);
    assert_eq!(expected_of(&s), Some(InputType::Radius));
    assert_eq!(s.status_message, "指定半径:");
    s.circle_input(CircleEntry::Radius((1.0, 1.0), false));
    assert_eq!(s.status_message, "半径必须大于0");
    s.circle_input(CircleEntry::At((1.0, 1.001), false));
    assert_eq!(s.status_message, "半径太小");
    s.circle_input(CircleEntry::Unusable);
    assert_eq!(s.status_message, "请输入半径值或点坐标");
    assert_eq!(s.circle_input(CircleEntry::Radius((6.0, 1.0), true)), CanvasAction::CreateCircle((1.0, 1.0), (6.0, 1.0)));
    assert_eq!(s.status_message, "圆已创建");
    assert!(matches!(s.edit_state, EditState::Idle));
    let mut e = drawing(DrawingTool::Circle, vec![]);
    e.circle_input(CircleEntry::Invalid("Missing value: r".to_string()));
    assert_eq!(e.status_message, "输入错误: Missing value: r");
}

#[test]
fn typed_rectangle_and_square() {
    let mut s = drawing(DrawingTool::Rectangle, vec![]);
    assert_eq!(s.rectangle_input(RectEntry::Corner((0.0, 0.0))), CanvasAction::Nothing);
    assert_eq!(points_of(&s), vec![(0.0, 0.0)]);
    assert_eq!(s.status_message, "指定对角点或尺寸:");
    s.rectangle_input(RectEntry::Unusable);
    assert_eq!(s.status_message, "请输入对角点坐标或尺寸 (如: 100,50)");
    assert_eq!(
        s.rectangle_input(RectEntry::Opposite((100.0, 50.0))),
        CanvasAction::CreateRectangle((0.0, 0.0), (100.0, 50.0))
    );
    assert_eq!(s.status_message, "矩形已创建");
    assert!(matches!(s.edit_state, EditState::Idle));

    let mut q = drawing(DrawingTool::Rectangle, vec![(1.0, 1.0)]);
    assert_eq!(q.rectangle_input(RectEntry::Square((6.0, 6.0))), CanvasAction::CreateRectangle((1.0, 1.0), (6.0, 6.0)));
    assert_eq!(q.status_message, "正方形已创建");
}

#[test]
fn typed_arc_three_points() {
    let mut s = drawing(DrawingTool::Arc, vec![]);
    s.arc_input(ArcEntry::At((0.0, 0.0), true));
    assert_eq!(s.status_message, "圆弧: 指定第二点:");
    assert_eq!(expected_of(&s), Some(InputType::Point));
    s.arc_input(ArcEntry::At((1.0, 1.0), true));
    assert_eq!(s.status_message, "圆弧: 指定终点:");
    assert_eq!(s.arc_input(ArcEntry::At((2.0, 2.0), false)), CanvasAction::Nothing);
    assert_eq!(s.status_message, "无法创建圆弧（三点共线）");
    assert_eq!(points_of(&s), vec![(0.0, 0.0), (1.0, 1.0), (2.0, 2.0)]);

    let mut t = drawing(DrawingTool::Arc, vec![(0.0, 0.0), (1.0, 1.0)]);
    assert_eq!(
        t.arc_input(ArcEntry::At((2.0, 0.0), true)),
        CanvasAction::CreateArc((0.0, 0.0), (1.0, 1.0), (2.0, 0.0))
    );
    assert_eq!(t.status_message, "圆弧已创建");
    t.edit_state = EditState::Drawing { tool: DrawingTool::Arc, points: vec![], expected_input: None };
    t.arc_input(ArcEntry::Invalid("bad".to_string()));
    assert_eq!(t.status_message, "输入错误: bad");
}

#[test]
fn typed_polyline_vertices_and_closing() {
    let mut s = drawing(DrawingTool::Polyline, vec![(0.0, 0.0)]);
    s.polyline_input(PolylineEntry::FromLast((5.0, 0.0), false));
    assert_eq!(points_of(&s), vec![(0.0, 0.0), (5.0, 0.0)]);
    assert_eq!(expected_of(&s), None);
    assert_eq!(s.status_message, "多段线: 指定下一点 (右键结束, 点击起点闭合):");
    s.polyline_input(PolylineEntry::Point((5.0, 5.0), false));
    assert_eq!(expected_of(&s), Some(InputType::Point));
    assert_eq!(
        s.polyline_input(PolylineEntry::Point((0.0, 0.0), true)),
        CanvasAction::CreatePolyline(vec![(0.0, 0.0), (5.0, 0.0), (5.0, 5.0)], true)
    );
    assert_eq!(s.status_message, "闭合多段线已创建");
    assert!(matches!(s.edit_state, EditState::Idle));

    let mut e = drawing(DrawingTool::Polyline, vec![]);
    e.polyline_input(PolylineEntry::NeedsReference);
    assert_eq!(e.status_message, "需要参考点");
    e.polyline_input(PolylineEntry::Unusable);
    assert_eq!(e.status_message, "无效的输入格式");
    e.polyline_input(PolylineEntry::Point((0.0, 0.0), true));
    assert_eq!(points_of(&e), vec![(0.0, 0.0)]);
}
