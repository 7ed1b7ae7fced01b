use zcad::entity::EntityId;
use zcad::shortcuts::ShortcutKey;
use zcad::ui_session::{EditState, EditorAction, UiState};
use zcad::ui_state::{Command, DrawingTool};

type State = UiState<(f64, f64), f64>;

fn fresh() -> State {
    UiState::new((0.0, 0.0), 10.0)
}

#[test]
fn letter_keys_pick_tools() {
    let mut s = fresh();
    let keys = [
        (ShortcutKey::L, DrawingTool::Line),
        (ShortcutKey::C, DrawingTool::Circle),
        (ShortcutKey::R, DrawingTool::Rectangle),
        (ShortcutKey::A, DrawingTool::Arc),
        (ShortcutKey::P, DrawingTool::Polyline),
        (ShortcutKey::T, DrawingTool::Text),
        (ShortcutKey::D, DrawingTool::Dimension),
    ];
    for (k, t) in keys {
        assert_eq!(s.key_pressed(k, false, false), EditorAction::Nothing);
        assert_eq!(s.current_tool, t);
    }
    assert_eq!(s.status_message, "标注工具已选择。指定第一点或 [半径(R)/直径(D)]:");
    s.key_pressed(ShortcutKey::L, false, false);
    assert_eq!(s.status_message, "Line 工具已选择");
}

#[test]
fn escape_delete_and_move() {
    let mut s = fresh();
    s.add_to_selection(EntityId(3));
    s.add_to_selection(EntityId(4));
    s.mouse_world_pos = (2.0, 3.0);
    assert_eq!(s.key_pressed(ShortcutKey::M, false, false), EditorAction::Nothing);
    match &s.edit_state {
        EditState::MovingEntities { start_pos, entity_ids } => {
            assert_eq!(*start_pos, (2.0, 3.0));
            assert_eq!(*entity_ids, vec![EntityId(3), EntityId(4)]);
        }
        _ => panic!("expected a move"),
    }
    assert_eq!(s.status_message, "移动: 指定目标点或拖动鼠标:");
    assert_eq!(
        s.key_pressed(ShortcutKey::Delete, false, false),
        EditorAction::RemoveEntities(vec![EntityId(3), EntityId(4)])
    );
    assert!(s.selected_entities.is_empty());
    assert_eq!(s.key_pressed(ShortcutKey::Backspace, false, false), EditorAction::RemoveEntities(vec![]));
    s.key_pressed(ShortcutKey::L, false, false);
    s.key_pressed(ShortcutKey::Escape, false, false);
    assert_eq!(s.current_tool, DrawingTool::Select);
    assert_eq!(s.status_message, "Cancelled. Tool reset to Select.");
}

#[test]
fn toggles_grid_snap_and_ortho() {
    let mut s = fresh();
    assert!(s.snap_enabled);
    s.key_pressed(ShortcutKey::G, false, false);
    assert!(!s.show_grid);
    s.key_pressed(ShortcutKey::F3, false, false);
    assert!(!s.snap_enabled);
    assert_eq!(s.status_message, "捕捉已禁用");
    s.key_pressed(ShortcutKey::F3, false, false);
    assert_eq!(s.status_message, "捕捉已启用");
    s.key_pressed(ShortcutKey::F8, false, false);
    assert!(s.ortho_mode);
    assert_eq!(s.status_message, "正交模式已启用");
    s.key_pressed(ShortcutKey::F8, false, false);
    assert_eq!(s.status_message, "正交模式已禁用");
}

#[test]
fn command_keys_ask_the_caller() {
    let mut s = fresh();
    assert_eq!(s.key_pressed(ShortcutKey::N, false, false), EditorAction::Nothing);
    s.add_to_selection(EntityId(1));
    assert_eq!(s.key_pressed(ShortcutKey::N, true, false), EditorAction::NewDocument);
    assert!(s.selected_entities.is_empty());
    assert_eq!(s.status_message, "新文档");
    assert_eq!(s.key_pressed(ShortcutKey::O, true, false), EditorAction::ShowOpenDialog);
    assert_eq!(s.key_pressed(ShortcutKey::S, true, false), EditorAction::QuickSave);
    assert_eq!(s.key_pressed(ShortcutKey::S, true, true), EditorAction::ShowSaveDialog);
    assert_eq!(s.key_pressed(ShortcutKey::S, false, false), EditorAction::Nothing);
    assert_eq!(s.key_pressed(ShortcutKey::V, true, false), EditorAction::Paste);
    assert_eq!(s.key_pressed(ShortcutKey::Z, false, false), EditorAction::ZoomExtents);
    assert_eq!(s.key_pressed(ShortcutKey::C, true, false), EditorAction::CopySelection);
    assert_eq!(s.current_tool, DrawingTool::Circle);
}

#[test]
fn space_repeats_the_last_command() {
    let mut s = fresh();
    assert_eq!(s.execute_command("zoom"), Some(Command::ZoomExtents));
    s.key_pressed(ShortcutKey::L, false, false);
    assert_eq!(s.key_pressed(ShortcutKey::Space, false, false), EditorAction::ZoomExtents);
    assert_eq!(s.current_tool, DrawingTool::Select);
    assert_eq!(s.status_message, "Select 工具已选择");
    s.command_input = "1".to_string();
    assert_eq!(s.key_pressed(ShortcutKey::Space, false, false), EditorAction::Nothing);
}

#[test]
fn keys_are_text_while_typing() {
    let mut s = fresh();
    s.edit_state = EditState::TextInput { position: (0.0, 0.0), content: String::new(), height: 2.5 };
    assert_eq!(s.key_pressed(ShortcutKey::L, false, false), EditorAction::Nothing);
    assert_eq!(s.current_tool, DrawingTool::Select);
    assert!(matches!(s.edit_state, EditState::TextInput { .. }));
}
