use zcad::entity::EntityId;
use zcad::ui_session::{command_text, EditState, EditorAction, UiState};
use zcad::ui_state::{Command, DrawingTool};

type State = UiState<(f64, f64), f64>;

fn fresh() -> State {
    UiState::new((0.0, 0.0), 10.0)
}

#[test]
fn starts_ready_with_select_tool() {
    let s = fresh();
    assert_eq!(s.current_tool, DrawingTool::Select);
    assert!(matches!(s.edit_state, EditState::Idle));
    assert_eq!(s.status_message, "Ready");
    assert!(s.show_grid);
    assert_eq!(s.grid_spacing, 10.0);
    assert!(s.selected_entities.is_empty());
    assert!(s.last_command.is_none());
}

#[test]
fn set_tool_and_cancel() {
    let mut s = fresh();
    s.set_tool(DrawingTool::Line);
    assert_eq!(s.status_message, "Line 工具已选择");
    s.set_tool(DrawingTool::DimensionRadius);
    assert_eq!(s.status_message, "半径标注工具已选择。请选择圆或圆弧:");
    s.cancel();
    assert_eq!(s.current_tool, DrawingTool::Select);
    assert_eq!(s.status_message, "Cancelled. Tool reset to Select.");
    s.add_to_selection(EntityId(4));
    s.cancel();
    assert!(s.selected_entities.is_empty());
    assert_eq!(s.status_message, "Selection cleared.");
    s.cancel();
    assert_eq!(s.status_message, "Cancelled.");
}

#[test]
fn selection_operations() {
    let mut s = fresh();
    s.add_to_selection(EntityId(1));
    s.add_to_selection(EntityId(2));
    s.add_to_selection(EntityId(1));
    assert_eq!(s.selected_entities, vec![EntityId(1), EntityId(2)]);
    s.toggle_selection(EntityId(3));
    assert_eq!(s.selected_entities, vec![EntityId(1), EntityId(2), EntityId(3)]);
    s.toggle_selection(EntityId(3));
    assert_eq!(s.selected_entities, vec![EntityId(1), EntityId(2)]);
    s.remove_from_selection(&EntityId(1));
    assert_eq!(s.selected_entities, vec![EntityId(2)]);
    s.clear_selection();
    assert!(s.selected_entities.is_empty());
}

#[test]
fn command_line_runs_and_repeats() {
    let mut s = fresh();
    assert_eq!(s.execute_command("  "), None);
    assert!(s.command_history.is_empty());
    assert_eq!(s.execute_command(" line "), Some(Command::SetTool(DrawingTool::Line)));
    assert_eq!(s.status_message, "Command: SetTool(Line)");
    assert_eq!(s.command_history, vec![" line ".to_string()]);
    assert_eq!(s.execute_command(""), Some(Command::SetTool(DrawingTool::Line)));
    assert_eq!(s.command_history.len(), 1);
    assert_eq!(s.execute_command("foo"), None);
    assert_eq!(s.status_message, "Unknown command: foo");
    assert_eq!(s.last_command, Some(Command::SetTool(DrawingTool::Line)));
    s.set_tool(DrawingTool::Circle);
    assert_eq!(s.execute_command("Esc"), None);
    assert_eq!(s.current_tool, DrawingTool::Select);
}

#[test]
fn command_line_while_drawing() {
    let mut s = fresh();
    s.edit_state = EditState::Drawing { tool: DrawingTool::Line, points: vec![(1.0, 2.0)], expected_input: None };
    assert_eq!(s.execute_command(" 100,50 "), Some(Command::DataInput("100,50".to_string())));
    assert_eq!(s.status_message, "Ready");
    assert!(s.last_command.is_none());
    assert_eq!(s.execute_command("circle"), Some(Command::SetTool(DrawingTool::Circle)));
    s.edit_state = EditState::Drawing { tool: DrawingTool::Dimension, points: vec![], expected_input: None };
    assert_eq!(s.execute_command("r"), Some(Command::DataInput("r".to_string())));
    assert_eq!(s.command_history.len(), 3);
}

#[test]
fn handle_command_edits_and_actions() {
    let mut s = fresh();
    assert_eq!(s.handle_command(Command::Move), EditorAction::Nothing);
    assert_eq!(s.status_message, "请先选择要移动的对象");
    assert!(matches!(s.edit_state, EditState::Idle));
    s.add_to_selection(EntityId(7));
    s.add_to_selection(EntityId(8));
    assert_eq!(s.handle_command(Command::Rotate), EditorAction::Nothing);
    match &s.edit_state {
        EditState::RotateOp { entity_ids, center, start_angle } => {
            assert_eq!(entity_ids, &vec![EntityId(7), EntityId(8)]);
            assert!(center.is_none() && start_angle.is_none());
        }
        _ => panic!("expected a rotation"),
    }
    assert_eq!(s.status_message, "旋转: 指定基点:");
    assert_eq!(s.handle_command(Command::DeleteSelected), EditorAction::RemoveEntities(vec![EntityId(7), EntityId(8)]));
    assert!(s.selected_entities.is_empty());
    assert_eq!(s.handle_command(Command::New), EditorAction::NewDocument);
    assert_eq!(s.status_message, "新文档");
    assert_eq!(s.handle_command(Command::Save), EditorAction::QuickSave);
    assert_eq!(s.handle_command(Command::DataInput("5".to_string())), EditorAction::DataInput("5".to_string()));
    assert_eq!(s.handle_command(Command::SetTool(DrawingTool::Arc)), EditorAction::Nothing);
    assert_eq!(s.status_message, "Arc 工具已选择");
}

#[test]
fn command_labels_match_debug_output() {
    let tools = [
        DrawingTool::Select, DrawingTool::Line, DrawingTool::Circle, DrawingTool::Arc, DrawingTool::Polyline,
        DrawingTool::Rectangle, DrawingTool::Point, DrawingTool::Text, DrawingTool::Dimension,
        DrawingTool::DimensionRadius, DrawingTool::DimensionDiameter,
    ];
    for t in tools {
        let c = Command::SetTool(t);
        assert_eq!(command_text(&c), format!("{:?}", c));
    }
    for c in [Command::DeleteSelected, Command::Move, Command::Copy, Command::Rotate, Command::Scale, Command::Mirror,
        Command::ZoomExtents, Command::Undo, Command::Redo, Command::New, Command::Open, Command::Save, Command::ExportDxf] {
        assert_eq!(command_text(&c), format!("{:?}", c));
    }
}
