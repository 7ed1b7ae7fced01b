use zcad::action::{ActionContext, ActionHistory, ActionType, MouseButton};
use zcad::actions::{
    CircleStatus, CopyAction, DrawArcAction, DrawCircleAction, DrawLineAction, DrawOutcome,
    DrawPointAction, DrawPolylineAction, DrawRectangleAction, LineStatus, MirrorAction,
    ModifyOutcome, MoveAction, MoveStatus, RotateAction, ScaleAction, SelectAction, Shape,
};

type P = (f64, f64);

fn far(a: P, b: P) -> bool {
    ((a.0 - b.0).powi(2) + (a.1 - b.1).powi(2)).sqrt() > 1e-6
}

#[test]
fn test_draw_line_basic() {
    let mut action: DrawLineAction<P> = DrawLineAction::new();

    let result = action.on_coordinate((0.0, 0.0), false);
    assert!(matches!(result, DrawOutcome::Continue));
    assert_eq!(action.status(), LineStatus::SetEndpoint);

    let start = action.start_point().unwrap();
    let end = (100.0, 100.0);
    let result = action.on_coordinate(end, far(start, end));
    assert!(matches!(result, DrawOutcome::Create(_)));
}

#[test]
fn test_draw_line_undo() {
    let mut action: DrawLineAction<P> = DrawLineAction::new();

    action.on_coordinate((0.0, 0.0), false);
    assert_eq!(action.status(), LineStatus::SetEndpoint);

    assert!(action.can_undo());
    action.undo();
    assert_eq!(action.status(), LineStatus::SetStartpoint);
}

#[test]
fn line_chain_close_undo_redo() {
    let mut a: DrawLineAction<P> = DrawLineAction::new();
    a.on_coordinate((0.0, 0.0), true);
    // a zero-length segment is refused
    assert!(matches!(a.on_coordinate((0.0, 0.0), false), DrawOutcome::Continue));
    match a.on_coordinate((10.0, 0.0), true) {
        DrawOutcome::Create(Shape::Line(s, e)) => {
            assert_eq!(s, (0.0, 0.0));
            assert_eq!(e, (10.0, 0.0));
        }
        _ => panic!("expected a line"),
    }
    a.on_coordinate((10.0, 10.0), true);
    assert_eq!(a.points().len(), 3);
    assert_eq!(a.get_prompt(), "指定下一点 或 [闭合(C)/放弃(U)]:");
    assert_eq!(a.get_available_commands(), vec!["undo", "close"]);
    // undo the last segment, redo it
    assert!(matches!(a.on_command("u", true), Some(DrawOutcome::Continue)));
    assert_eq!(a.points().len(), 2);
    assert_eq!(a.start_point(), Some((10.0, 0.0)));
    assert_eq!(a.get_available_commands(), vec!["undo", "close", "redo"]);
    assert!(matches!(a.on_command("REDO", true), Some(DrawOutcome::Continue)));
    assert_eq!(a.points().len(), 3);
    // close back to the first point
    match a.on_command("close", true) {
        Some(DrawOutcome::Create(Shape::Line(s, e))) => {
            assert_eq!(s, (10.0, 10.0));
            assert_eq!(e, (0.0, 0.0));
        }
        _ => panic!("expected the closing line"),
    }
    assert_eq!(a.status(), LineStatus::SetStartpoint);
    assert!(a.on_command("C", true).is_none());
    assert!(a.on_command("bogus", true).is_none());
    // undoing the close reopens the chain
    a.undo();
    assert_eq!(a.status(), LineStatus::SetEndpoint);
    assert_eq!(a.start_point(), Some((10.0, 10.0)));
}

#[test]
fn line_right_click() {
    let mut a: DrawLineAction<P> = DrawLineAction::new();
    assert!(matches!(a.on_mouse_click(MouseButton::Right, (0.0, 0.0), true), DrawOutcome::Cancel));
    a.on_mouse_click(MouseButton::Left, (1.0, 1.0), true);
    assert!(matches!(a.on_mouse_click(MouseButton::Right, (0.0, 0.0), true), DrawOutcome::Continue));
    assert_eq!(a.status(), LineStatus::SetStartpoint);
    assert_eq!(a.start_point(), None);
    // undoing the new chain resumes the old one
    a.undo();
    assert_eq!(a.status(), LineStatus::SetEndpoint);
    assert_eq!(a.start_point(), Some((1.0, 1.0)));
    a.reset();
    assert!(!a.can_undo());
}

#[test]
fn circle_arc_rectangle_point() {
    let mut c: DrawCircleAction<P> = DrawCircleAction::new();
    c.on_coordinate((1.0, 1.0), false);
    assert!(matches!(c.on_coordinate((1.0, 1.0), false), DrawOutcome::Continue));
    match c.on_value(true) {
        DrawOutcome::Create(Shape::CircleWithRadius(center)) => assert_eq!(center, (1.0, 1.0)),
        _ => panic!("expected a circle"),
    }
    c.on_coordinate((0.0, 0.0), false);
    match c.on_coordinate((3.0, 4.0), true) {
        DrawOutcome::Create(Shape::CircleThrough(center, on)) => {
            assert_eq!(center, (0.0, 0.0));
            assert_eq!(on, (3.0, 4.0));
        }
        _ => panic!("expected a circle"),
    }
    assert_eq!(c.get_prompt(), "指定圆心:");
    c.on_coordinate((0.0, 0.0), false);
    assert!(matches!(c.on_mouse_click(MouseButton::Right, (0.0, 0.0), false), DrawOutcome::Continue));
    assert!(matches!(c.on_mouse_click(MouseButton::Right, (0.0, 0.0), false), DrawOutcome::Cancel));

    let mut arc: DrawArcAction<P> = DrawArcAction::new();
    arc.on_coordinate((0.0, 0.0), false);
    arc.on_coordinate((1.0, 1.0), false);
    assert_eq!(arc.get_prompt(), "指定圆弧的终点:");
    assert!(matches!(arc.on_coordinate((2.0, 2.0), false), DrawOutcome::Continue));
    assert!(matches!(arc.on_coordinate((2.0, 0.0), true), DrawOutcome::Create(Shape::Arc(_, _, _))));

    let mut r: DrawRectangleAction<P> = DrawRectangleAction::new();
    r.on_coordinate((0.0, 0.0), false);
    assert!(matches!(r.on_coordinate((5.0, 0.0), false), DrawOutcome::Continue));
    assert!(matches!(r.on_coordinate((5.0, 5.0), true), DrawOutcome::Create(Shape::Rectangle(_, _))));

    let mut p = DrawPointAction::new();
    match p.on_coordinate((7.0, 8.0)) {
        DrawOutcome::Create(Shape::Point(q)) => assert_eq!(q, (7.0, 8.0)),
        _ => panic!("expected a point"),
    }
    assert_eq!(p.get_prompt(), "指定点的位置:");
}

#[test]
fn polyline_flow() {
    let mut pl: DrawPolylineAction<P> = DrawPolylineAction::new();
    pl.on_coordinate((0.0, 0.0), false);
    pl.on_coordinate((0.0, 0.0), true);
    pl.on_coordinate((1.0, 0.0), false);
    assert!(pl.on_command("close").is_none());
    pl.on_coordinate((1.0, 1.0), false);
    assert!(pl.can_undo());
    assert!(matches!(pl.on_command("U"), Some(DrawOutcome::Continue)));
    pl.on_coordinate((1.0, 1.0), false);
    match pl.on_command("c") {
        Some(DrawOutcome::Create(Shape::Polyline(v, closed))) => {
            assert_eq!(v, vec![(0.0, 0.0), (1.0, 0.0), (1.0, 1.0)]);
            assert!(closed);
        }
        _ => panic!("expected a closed polyline"),
    }
    pl.on_coordinate((0.0, 0.0), false);
    pl.on_coordinate((2.0, 0.0), false);
    match pl.on_mouse_click(MouseButton::Right, (0.0, 0.0), false) {
        DrawOutcome::Create(Shape::Polyline(v, closed)) => {
            assert_eq!(v.len(), 2);
            assert!(!closed);
        }
        _ => panic!("expected an open polyline"),
    }
}

#[test]
fn select_box() {
    let mut s: SelectAction<P> = SelectAction::new();
    assert!(!s.is_box_selecting());
    s.on_mouse_click(MouseButton::Left, (1.0, 2.0));
    assert!(s.is_box_selecting());
    assert_eq!(s.get_box_select(), Some((1.0, 2.0)));
    assert_eq!(s.get_prompt(), "指定对角点:");
    s.on_mouse_click(MouseButton::Left, (3.0, 4.0));
    assert_eq!(s.get_box_select(), None);
    s.on_mouse_click(MouseButton::Left, (3.0, 4.0));
    s.on_mouse_click(MouseButton::Right, (0.0, 0.0));
    assert!(!s.is_box_selecting());
}

#[test]
fn move_and_copy() {
    let mut m: MoveAction<P, u64> = MoveAction::new();
    assert!(matches!(m.on_coordinate((0.0, 0.0), &[]), ModifyOutcome::NeedSelection));
    m.on_coordinate((0.0, 0.0), &[4, 5]);
    m.on_coordinate((1.0, 1.0), &[]);
    match m.on_coordinate((3.0, 1.0), &[]) {
        ModifyOutcome::Modify(ids, a, b) => {
            assert_eq!(ids, vec![4, 5]);
            assert_eq!(a, (1.0, 1.0));
            assert_eq!(b, (3.0, 1.0));
        }
        _ => panic!("expected a move"),
    }
    let mut m2: MoveAction<P, u64> = MoveAction::with_selection(vec![9]);
    assert_eq!(m2.get_prompt(), "指定基点:");
    m2.on_coordinate((0.0, 0.0), &[]);
    assert!(matches!(m2.on_mouse_click(MouseButton::Right, (0.0, 0.0), &[]), ModifyOutcome::Continue));
    assert_eq!(m2.get_prompt(), "指定基点:");

    let mut c: CopyAction<P, u64> = CopyAction::with_selection(vec![1]);
    c.on_coordinate((0.0, 0.0), &[]);
    assert!(matches!(c.on_coordinate((1.0, 0.0), &[]), ModifyOutcome::Modify(_, _, _)));
    assert!(matches!(c.on_coordinate((2.0, 0.0), &[]), ModifyOutcome::Modify(_, _, _)));
    assert_eq!(c.get_prompt(), "指定第二点 或 [多次(M)]:");
    assert!(c.on_command("m").is_some());
    assert_eq!(c.get_prompt(), "指定第二点:");
    assert!(matches!(c.on_coordinate((3.0, 0.0), &[]), ModifyOutcome::Modify(_, _, _)));
    assert!(matches!(c.on_coordinate((3.0, 0.0), &[]), ModifyOutcome::NeedSelection));
    let _empty: CopyAction<P, u64> = CopyAction::new();
    let _mv = MoveStatus::SelectObjects;
}

#[test]
fn rotate_scale_mirror() {
    let mut r: RotateAction<P, u64> = RotateAction::new();
    r.on_coordinate((0.0, 0.0), &[1]);
    r.on_coordinate((0.0, 0.0), &[]);
    r.on_coordinate((1.0, 0.0), &[]);
    assert!(r.on_command("copy").is_some());
    match r.on_coordinate((0.0, 1.0), &[]) {
        ModifyOutcome::Modify(ids, c, t) => {
            assert_eq!(ids, vec![1]);
            assert_eq!(c, (0.0, 0.0));
            assert_eq!(t, (0.0, 1.0));
        }
        _ => panic!("expected a rotation"),
    }
    assert_eq!(r.get_prompt(), "选择要旋转的对象:");

    let mut s: ScaleAction<P, u64> = ScaleAction::new();
    s.on_coordinate((0.0, 0.0), &[2], false);
    s.on_coordinate((5.0, 5.0), &[], false);
    match s.on_value(true) {
        ModifyOutcome::Modify(_, a, b) => assert_eq!(a, b),
        _ => panic!("expected a scale"),
    }

    let mut mi: MirrorAction<P, u64> = MirrorAction::new();
    mi.on_coordinate((0.0, 0.0), &[3], false);
    mi.on_coordinate((0.0, 0.0), &[], false);
    assert!(matches!(mi.on_coordinate((0.0, 0.0), &[], false), ModifyOutcome::Continue));
    assert!(mi.on_command("Yes").is_some());
    assert!(matches!(mi.on_coordinate((0.0, 5.0), &[], true), ModifyOutcome::Modify(_, _, _)));
    assert!(mi.on_command("maybe").is_none());
}

#[test]
fn context_and_history() {
    let ids: [u64; 0] = [];
    let ents: [u8; 0] = [];
    let ctx = ActionContext {
        mouse_pos: (1.0, 2.0),
        snap_pos: Some((3.0, 4.0)),
        selected_entities: &ids,
        entities: &ents,
        ortho_mode: false,
        reference_point: None,
    };
    assert_eq!(ctx.effective_point(), (3.0, 4.0));
    let ctx2 = ActionContext { snap_pos: None, ..ctx };
    assert_eq!(ctx2.effective_point(), (1.0, 2.0));

    let mut h: ActionHistory<u32> = ActionHistory::new();
    assert!(h.is_empty());
    h.push(1);
    h.push(2);
    assert_eq!(h.current(), Some(&2));
    assert_eq!(h.undo(), Some(&2));
    assert_eq!(h.current(), Some(&1));
    assert!(h.can_redo());
    h.push(3);
    assert!(!h.can_redo());
    assert_eq!(h.len(), 2);
    assert_eq!(h.undo(), Some(&3));
    assert_eq!(h.redo(), Some(&3));
    h.clear();
    assert!(!h.can_undo());
    assert_eq!(ActionType::DrawLine.name(), "Line");
    assert_eq!(ActionType::NoAction.shortcut(), None);
    let _ = CircleStatus::SetCenter;
}

#[test]
fn kinds_and_sub_commands() {
    let empty: Vec<&str> = Vec::new();

    let c0: CopyAction<P, u64> = CopyAction::with_selection(vec![]);
    assert_eq!(c0.get_prompt(), "选择要复制的对象:");
    assert_eq!(c0.action_type(), ActionType::Copy);
    assert_eq!(c0.get_available_commands(), empty);
    let mut c1: CopyAction<P, u64> = CopyAction::with_selection(vec![7]);
    assert_eq!(c1.get_prompt(), "指定基点:");
    assert_eq!(c1.action_type(), ActionType::Copy);
    assert_eq!(c1.get_available_commands(), empty);
    c1.on_coordinate((0.0, 0.0), &[]);
    assert_eq!(c1.get_available_commands(), vec!["multiple"]);

    let mut pl: DrawPolylineAction<P> = DrawPolylineAction::new();
    assert_eq!(pl.action_type(), ActionType::DrawPolyline);
    assert_eq!(pl.get_available_commands(), empty);
    pl.on_coordinate((0.0, 0.0), false);
    assert_eq!(pl.get_available_commands(), vec!["undo"]);
    pl.on_coordinate((1.0, 0.0), false);
    pl.on_coordinate((1.0, 1.0), false);
    assert_eq!(pl.get_available_commands(), vec!["undo", "close"]);

    let mut r: RotateAction<P, u64> = RotateAction::new();
    assert_eq!(r.action_type(), ActionType::Rotate);
    r.on_coordinate((0.0, 0.0), &[1]);
    assert_eq!(r.get_available_commands(), empty);
    r.on_coordinate((0.0, 0.0), &[]);
    assert_eq!(r.get_available_commands(), vec!["copy"]);
    r.on_coordinate((1.0, 0.0), &[]);
    assert_eq!(r.get_available_commands(), empty);

    let mut s: ScaleAction<P, u64> = ScaleAction::new();
    assert_eq!(s.action_type(), ActionType::Scale);
    s.on_coordinate((0.0, 0.0), &[2], false);
    assert_eq!(s.get_available_commands(), empty);
    s.on_coordinate((5.0, 5.0), &[], false);
    assert_eq!(s.get_available_commands(), vec!["copy", "reference"]);

    let line: DrawLineAction<P> = DrawLineAction::new();
    assert_eq!(line.action_type(), ActionType::DrawLine);
    let circle: DrawCircleAction<P> = DrawCircleAction::new();
    assert_eq!(circle.action_type(), ActionType::DrawCircle);
    let arc: DrawArcAction<P> = DrawArcAction::new();
    assert_eq!(arc.action_type(), ActionType::DrawArc);
    let rect: DrawRectangleAction<P> = DrawRectangleAction::new();
    assert_eq!(rect.action_type(), ActionType::DrawRectangle);
    assert_eq!(DrawPointAction::new().action_type(), ActionType::DrawPoint);
    let sel: SelectAction<P> = SelectAction::new();
    assert_eq!(sel.action_type(), ActionType::Select);
    let mv: MoveAction<P, u64> = MoveAction::new();
    assert_eq!(mv.action_type(), ActionType::Move);
    let mi: MirrorAction<P, u64> = MirrorAction::new();
    assert_eq!(mi.action_type(), ActionType::Mirror);
}
