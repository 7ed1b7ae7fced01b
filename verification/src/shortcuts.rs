//! Keyboard shortcuts on the canvas.
//!
//! While no text is being entered, a key picks a tool, cancels, deletes the
//! selection, starts a move, switches the grid, snapping or the orthogonal
//! mode, or asks the caller for work on the document (new, open, save,
//! copy, paste, zoom). Space repeats the last command when the editor is
//! idle and the command line is empty, and then picks the select tool.

use vstd::prelude::*;
use crate::entity::EntityId;
use crate::ui_session::{cancelled, copy_command, copy_ids, tool_message, text, EditState, EditorAction, UiState};
use crate::ui_state::{Command, DrawingTool};

verus! {

/// A key with a meaning on the canvas.
#[derive(Debug, Clone, Copy, PartialEq, Eq, Structural)]
pub enum ShortcutKey {
    N,
    O,
    S,
    Escape,
    Delete,
    Backspace,
    C,
    V,
    M,
    L,
    R,
    Space,
    Z,
    G,
    F3,
    F8,
    A,
    P,
    T,
    D,
}

/// The tool a key picks, whatever modifier is held.
pub open spec fn key_tool(k: ShortcutKey) -> Option<DrawingTool> {
    match k {
        ShortcutKey::L => Some(DrawingTool::Line),
        ShortcutKey::C => Some(DrawingTool::Circle),
        ShortcutKey::R => Some(DrawingTool::Rectangle),
        ShortcutKey::A => Some(DrawingTool::Arc),
        ShortcutKey::P => Some(DrawingTool::Polyline),
        ShortcutKey::T => Some(DrawingTool::Text),
        ShortcutKey::D => Some(DrawingTool::Dimension),
        ShortcutKey::Space => Some(DrawingTool::Select),
        _ => None,
    }
}

/// Whether text is being typed into an entity, when keys are text.
pub open spec fn typing_text<P, F>(e: EditState<P, F>) -> bool {
    e is TextInput || e is TextEdit
}

/// What running a command returns, and the selection it leaves.
pub open spec fn command_effect(c: Command, sel: Seq<EntityId>, r: EditorAction, new_sel: Seq<EntityId>) -> bool {
    match c {
        Command::DeleteSelected => r matches EditorAction::RemoveEntities(ids) && ids@ == sel && new_sel
            == Seq::<EntityId>::empty(),
        Command::New => r == EditorAction::NewDocument && new_sel == Seq::<EntityId>::empty(),
        Command::DataInput(d) => r == EditorAction::DataInput(d) && new_sel == sel,
        _ => new_sel == sel && r == match c {
            Command::ZoomExtents => EditorAction::ZoomExtents,
            Command::Open => EditorAction::ShowOpenDialog,
            Command::Save => EditorAction::QuickSave,
            Command::ExportDxf => EditorAction::ShowExportDxfDialog,
            _ => EditorAction::Nothing,
        },
    }
}

/// Whether Space repeats the last command: the editor is idle, the command
/// line is empty and not about to take the keys, and there is a command.
pub open spec fn repeats<P, F>(s: UiState<P, F>) -> bool {
    &&& s.edit_state is Idle
    &&& !s.should_focus_command_line
    &&& s.command_input@.len() == 0
    &&& s.last_command is Some
}

/// The tool, edit state, selection and status line stay.
pub open spec fn stays<P, F>(old: UiState<P, F>, new: UiState<P, F>) -> bool {
    &&& new.current_tool == old.current_tool
    &&& new.edit_state == old.edit_state
    &&& new.selected_entities == old.selected_entities
    &&& new.status_message == old.status_message
}

/// What a key does to the tool, the edit state, the selection and the
/// status line, and what it asks of the caller, while no text is typed.
pub open spec fn key_step<P, F>(
    old: UiState<P, F>,
    new: UiState<P, F>,
    key: ShortcutKey,
    command: bool,
    shift: bool,
    r: EditorAction,
) -> bool {
    match key {
        ShortcutKey::Space => {
            &&& new.current_tool == DrawingTool::Select
            &&& new.edit_state is Idle
            &&& new.status_message@ == tool_message(DrawingTool::Select)
            &&& if repeats(old) {
                command_effect(old.last_command->0, old.selected_entities@, r, new.selected_entities@)
            } else {
                &&& r == EditorAction::Nothing
                &&& new.selected_entities == old.selected_entities
            }
        },
        ShortcutKey::L | ShortcutKey::C | ShortcutKey::R | ShortcutKey::A | ShortcutKey::P | ShortcutKey::T
        | ShortcutKey::D => {
            &&& new.current_tool == key_tool(key)->0
            &&& new.edit_state is Idle
            &&& new.status_message@ == tool_message(key_tool(key)->0)
            &&& new.selected_entities == old.selected_entities
            &&& r == if key == ShortcutKey::C && command {
                EditorAction::CopySelection
            } else {
                EditorAction::Nothing
            }
        },
        ShortcutKey::Escape => {
            &&& cancelled(new, old.current_tool, old.selected_entities@)
            &&& r == EditorAction::Nothing
        },
        ShortcutKey::Delete | ShortcutKey::Backspace => {
            &&& r matches EditorAction::RemoveEntities(ids) && ids@ == old.selected_entities@
            &&& new.selected_entities@ == Seq::<EntityId>::empty()
            &&& new.current_tool == old.current_tool
            &&& new.edit_state == old.edit_state
            &&& new.status_message == old.status_message
        },
        ShortcutKey::N => if command {
            &&& r == EditorAction::NewDocument
            &&& new.selected_entities@ == Seq::<EntityId>::empty()
            &&& new.status_message@ == "新文档"@
            &&& new.current_tool == old.current_tool
            &&& new.edit_state == old.edit_state
        } else {
            &&& stays(old, new)
            &&& r == EditorAction::Nothing
        },
        ShortcutKey::M => {
            &&& r == EditorAction::Nothing
            &&& if old.selected_entities@.len() > 0 {
                &&& new.edit_state matches EditState::MovingEntities { start_pos, entity_ids } && start_pos
                    == old.mouse_world_pos && entity_ids@ == old.selected_entities@
                &&& new.status_message@ == "移动: 指定目标点或拖动鼠标:"@
                &&& new.current_tool == old.current_tool
                &&& new.selected_entities == old.selected_entities
            } else {
                stays(old, new)
            }
        },
        ShortcutKey::F3 => {
            &&& new.current_tool == old.current_tool
            &&& new.edit_state == old.edit_state
            &&& new.selected_entities == old.selected_entities
            &&& new.status_message@ == if new.snap_enabled {
                "捕捉已启用"@
            } else {
                "捕捉已禁用"@
            }
            &&& r == EditorAction::Nothing
        },
        ShortcutKey::F8 => {
            &&& new.current_tool == old.current_tool
            &&& new.edit_state == old.edit_state
            &&& new.selected_entities == old.selected_entities
            &&& new.status_message@ == if new.ortho_mode {
                "正交模式已启用"@
            } else {
                "正交模式已禁用"@
            }
            &&& r == EditorAction::Nothing
        },
        _ => {
            &&& stays(old, new)
            &&& r == match key {
                ShortcutKey::O => if command {
                    EditorAction::ShowOpenDialog
                } else {
                    EditorAction::Nothing
                },
                ShortcutKey::S => if !command {
                    EditorAction::Nothing
                } else if shift {
                    EditorAction::ShowSaveDialog
                } else {
                    EditorAction::QuickSave
                },
                ShortcutKey::V => if command {
                    EditorAction::Paste
                } else {
                    EditorAction::Nothing
                },
                ShortcutKey::Z => EditorAction::ZoomExtents,
                _ => EditorAction::Nothing,
            }
        },
    }
}

/// The fields no key touches.
pub open spec fn keys_keep<P, F>(old: UiState<P, F>, new: UiState<P, F>) -> bool {
    &&& new.mouse_world_pos == old.mouse_world_pos
    &&& new.snap_point == old.snap_point
    &&& new.snap_mode == old.snap_mode
    &&& new.grid_spacing == old.grid_spacing
    &&& new.command_input == old.command_input
    &&& new.show_layers_panel == old.show_layers_panel
    &&& new.show_properties_panel == old.show_properties_panel
    &&& new.pending_command == old.pending_command
    &&& new.should_focus_command_line == old.should_focus_command_line
    &&& new.command_history == old.command_history
    &&& new.last_command == old.last_command
}

impl<P: Copy, F> UiState<P, F> {
    /// A key pressed on the canvas, with whether the command (Ctrl) and
    /// shift modifiers are held. While text is typed into an entity the
    /// keys are text and nothing happens here.
    #[verifier::rlimit(60)]
    pub fn key_pressed(&mut self, key: ShortcutKey, command: bool, shift: bool) -> (r: EditorAction)
        ensures
            keys_keep(*old(self), *final(self)),
            typing_text(old(self).edit_state) ==> *final(self) == *old(self) && r == EditorAction::Nothing,
            !typing_text(old(self).edit_state) ==> {
                &&& key_step(*old(self), *final(self), key, command, shift, r)
                &&& final(self).show_grid == (if key == ShortcutKey::G {
                    !old(self).show_grid
                } else {
                    old(self).show_grid
                })
                &&& final(self).snap_enabled == (if key == ShortcutKey::F3 {
                    !old(self).snap_enabled
                } else {
                    old(self).snap_enabled
                })
                &&& final(self).ortho_mode == (if key == ShortcutKey::F8 {
                    !old(self).ortho_mode
                } else {
                    old(self).ortho_mode
                })
            },
    {
        let typing = match &self.edit_state {
            EditState::TextInput { .. } | EditState::TextEdit { .. } => true,
            _ => false,
        };
        if typing {
            return EditorAction::Nothing;
        }
        match key {
            ShortcutKey::Space => {
                let idle = match &self.edit_state {
                    EditState::Idle => true,
                    _ => false,
                };
                let mut r = EditorAction::Nothing;
                if idle && !self.should_focus_command_line && self.command_input.as_str().is_empty() {
                    match &self.last_command {
                        Some(c) => {
                            let cmd = copy_command(c);
                            r = self.handle_command(cmd);
                        },
                        None => {},
                    }
                }
                self.set_tool(DrawingTool::Select);
                r
            },
            ShortcutKey::L => {
                self.set_tool(DrawingTool::Line);
                EditorAction::Nothing
            },
            ShortcutKey::C => {
                self.set_tool(DrawingTool::Circle);
                if command {
                    EditorAction::CopySelection
                } else {
                    EditorAction::Nothing
                }
            },
            ShortcutKey::R => {
                self.set_tool(DrawingTool::Rectangle);
                EditorAction::Nothing
            },
            ShortcutKey::A => {
                self.set_tool(DrawingTool::Arc);
                EditorAction::Nothing
            },
            ShortcutKey::P => {
                self.set_tool(DrawingTool::Polyline);
                EditorAction::Nothing
            },
            ShortcutKey::T => {
                self.set_tool(DrawingTool::Text);
                EditorAction::Nothing
            },
            ShortcutKey::D => {
                self.set_tool(DrawingTool::Dimension);
                EditorAction::Nothing
            },
            ShortcutKey::Escape => {
                self.cancel();
                EditorAction::Nothing
            },
            ShortcutKey::Delete | ShortcutKey::Backspace => {
                let ids = copy_ids(&self.selected_entities);
                self.clear_selection();
                EditorAction::RemoveEntities(ids)
            },
            ShortcutKey::N => {
                if command {
                    self.clear_selection();
                    self.status_message = text("新文档");
                    EditorAction::NewDocument
                } else {
                    EditorAction::Nothing
                }
            },
            ShortcutKey::M => {
                if self.selected_entities.len() > 0 {
                    self.edit_state = EditState::MovingEntities {
                        start_pos: self.mouse_world_pos,
                        entity_ids: copy_ids(&self.selected_entities),
                    };
                    self.status_message = text("移动: 指定目标点或拖动鼠标:");
                }
                EditorAction::Nothing
            },
            ShortcutKey::G => {
                self.show_grid = !self.show_grid;
                EditorAction::Nothing
            },
            ShortcutKey::F3 => {
                self.snap_enabled = !self.snap_enabled;
                self.status_message = if self.snap_enabled {
                    text("捕捉已启用")
                } else {
                    text("捕捉已禁用")
                };
                EditorAction::Nothing
            },
            ShortcutKey::F8 => {
                self.ortho_mode = !self.ortho_mode;
                self.status_message = if self.ortho_mode {
                    text("正交模式已启用")
                } else {
                    text("正交模式已禁用")
                };
                EditorAction::Nothing
            },
            ShortcutKey::O => if command {
                EditorAction::ShowOpenDialog
            } else {
                EditorAction::Nothing
            },
            ShortcutKey::S => if !command {
                EditorAction::Nothing
            } else if shift {
                EditorAction::ShowSaveDialog
            } else {
                EditorAction::QuickSave
            },
            ShortcutKey::V => if command {
                EditorAction::Paste
            } else {
                EditorAction::Nothing
            },
            ShortcutKey::Z => EditorAction::ZoomExtents,
        }
    }
}

} // verus!
