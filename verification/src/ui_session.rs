//! The editor's interaction state: the tool, what is being edited, the
//! selection and the command line.
//!
//! Points (`P`) and lengths or angles (`F`) are the caller's; the state
//! only carries them.

use vstd::prelude::*;
use crate::entity::{lemma_without_absent, retain_others, without_entity, EntityId};
use crate::ui_state::{read_command, named_command, tool_name, Command, CommandInput, DrawingTool, InputType, SnapMode};
use crate::text::{chars_of, string_of, trimmed};

verus! {

broadcast use vstd::string::group_string_axioms;

/// What the editor is in the middle of.
#[derive(Debug, Clone)]
pub enum EditState<P, F> {
    Idle,
    Drawing { tool: DrawingTool, points: Vec<P>, expected_input: Option<InputType> },
    Selecting { start: P },
    Moving { start: P, offset: P },
    Command { input: String },
    TextInput { position: P, content: String, height: F },
    TextEdit { entity_id: EntityId, position: P, content: String, height: F },
    MovingEntities { start_pos: P, entity_ids: Vec<EntityId> },
    MoveOp { entity_ids: Vec<EntityId>, base_point: Option<P> },
    CopyOp { entity_ids: Vec<EntityId>, base_point: Option<P> },
    RotateOp { entity_ids: Vec<EntityId>, center: Option<P>, start_angle: Option<F> },
    ScaleOp { entity_ids: Vec<EntityId>, center: Option<P>, start_dist: Option<F> },
    MirrorOp { entity_ids: Vec<EntityId>, point1: Option<P> },
}

/// The state of the editor's interaction.
pub struct UiState<P, F> {
    pub current_tool: DrawingTool,
    pub edit_state: EditState<P, F>,
    pub selected_entities: Vec<EntityId>,
    /// Where the mouse is, in world coordinates.
    pub mouse_world_pos: P,
    pub snap_point: Option<P>,
    pub snap_mode: SnapMode,
    /// Whether snapping is on.
    pub snap_enabled: bool,
    pub show_grid: bool,
    pub grid_spacing: F,
    pub command_input: String,
    pub command_history: Vec<String>,
    pub status_message: String,
    pub show_layers_panel: bool,
    pub show_properties_panel: bool,
    pub ortho_mode: bool,
    /// A command raised by a widget, waiting to run.
    pub pending_command: Option<Command>,
    /// The last command run, repeated by an empty line.
    pub last_command: Option<Command>,
    pub should_focus_command_line: bool,
}

/// The status line once a tool is chosen.
pub open spec fn tool_message(t: DrawingTool) -> Seq<char> {
    match t {
        DrawingTool::Dimension => "标注工具已选择。指定第一点或 [半径(R)/直径(D)]:"@,
        DrawingTool::DimensionRadius => "半径标注工具已选择。请选择圆或圆弧:"@,
        DrawingTool::DimensionDiameter => "直径标注工具已选择。请选择圆或圆弧:"@,
        _ => tool_name(t) + " 工具已选择"@,
    }
}

/// The name of a tool as `{:?}` writes it.
pub open spec fn tool_variant(t: DrawingTool) -> Seq<char> {
    match t {
        DrawingTool::NoTool => "None"@,
        DrawingTool::Select => "Select"@,
        DrawingTool::Line => "Line"@,
        DrawingTool::Circle => "Circle"@,
        DrawingTool::Arc => "Arc"@,
        DrawingTool::Polyline => "Polyline"@,
        DrawingTool::Rectangle => "Rectangle"@,
        DrawingTool::Point => "Point"@,
        DrawingTool::Text => "Text"@,
        DrawingTool::Dimension => "Dimension"@,
        DrawingTool::DimensionRadius => "DimensionRadius"@,
        DrawingTool::DimensionDiameter => "DimensionDiameter"@,
    }
}

/// A command as `{:?}` writes it, for the commands a name stands for.
pub open spec fn command_label(c: Command) -> Seq<char> {
    match c {
        Command::SetTool(t) => "SetTool("@ + tool_variant(t) + ")"@,
        Command::DeleteSelected => "DeleteSelected"@,
        Command::Move => "Move"@,
        Command::Copy => "Copy"@,
        Command::Rotate => "Rotate"@,
        Command::Scale => "Scale"@,
        Command::Mirror => "Mirror"@,
        Command::ZoomExtents => "ZoomExtents"@,
        Command::Undo => "Undo"@,
        Command::Redo => "Redo"@,
        Command::New => "New"@,
        Command::Open => "Open"@,
        Command::Save => "Save"@,
        Command::ExportDxf => "ExportDxf"@,
        Command::DataInput(_) => "DataInput"@,
    }
}

/// The tool being drawn with, if the editor is drawing.
pub open spec fn drawing_tool<P, F>(e: EditState<P, F>) -> Option<DrawingTool> {
    match e {
        EditState::Drawing { tool, .. } => Some(tool),
        _ => None,
    }
}

/// What the editor does besides changing its own state.
#[derive(Debug, Clone, PartialEq, Eq)]
pub enum EditorAction {
    Nothing,
    /// Remove these entities from the document.
    RemoveEntities(Vec<EntityId>),
    ZoomExtents,
    /// Start an empty document.
    NewDocument,
    ShowOpenDialog,
    QuickSave,
    /// Ask where to save the document.
    ShowSaveDialog,
    /// Copy the selected entities to the clipboard.
    CopySelection,
    /// Paste the clipboard's entities at the mouse.
    Paste,
    ShowExportDxfDialog,
    /// Read typed data for the current tool.
    DataInput(String),
}

pub(crate) fn text(s: &str) -> (r: String)
    ensures
        r@ == s@,
{
    s.to_string()
}

fn concat(a: &str, b: &str) -> (r: String)
    ensures
        r@ == a@ + b@,
{
    let mut cs = chars_of(a);
    let bs = chars_of(b);
    let mut i: usize = 0;
    while i < bs.len()
        invariant
            i <= bs@.len(),
            cs@ == a@ + bs@.take(i as int),
        decreases bs@.len() - i,
    {
        cs.push(bs[i]);
        i = i + 1;
        assert(cs@ =~= a@ + bs@.take(i as int));
    }
    assert(bs@.take(bs@.len() as int) =~= b@);
    string_of(cs.as_slice())
}

fn tool_variant_text(t: DrawingTool) -> (r: &'static str)
    ensures
        r@ == tool_variant(t),
{
    match t {
        DrawingTool::NoTool => "None",
        DrawingTool::Select => "Select",
        DrawingTool::Line => "Line",
        DrawingTool::Circle => "Circle",
        DrawingTool::Arc => "Arc",
        DrawingTool::Polyline => "Polyline",
        DrawingTool::Rectangle => "Rectangle",
        DrawingTool::Point => "Point",
        DrawingTool::Text => "Text",
        DrawingTool::Dimension => "Dimension",
        DrawingTool::DimensionRadius => "DimensionRadius",
        DrawingTool::DimensionDiameter => "DimensionDiameter",
    }
}

/// A command as `{:?}` writes it, for the commands a name stands for.
pub fn command_text(c: &Command) -> (r: String)
    ensures
        r@ == command_label(*c),
{
    match c {
        Command::SetTool(t) => {
            let inner = concat("SetTool(", tool_variant_text(*t));
            concat(inner.as_str(), ")")
        },
        Command::DeleteSelected => text("DeleteSelected"),
        Command::Move => text("Move"),
        Command::Copy => text("Copy"),
        Command::Rotate => text("Rotate"),
        Command::Scale => text("Scale"),
        Command::Mirror => text("Mirror"),
        Command::ZoomExtents => text("ZoomExtents"),
        Command::Undo => text("Undo"),
        Command::Redo => text("Redo"),
        Command::New => text("New"),
        Command::Open => text("Open"),
        Command::Save => text("Save"),
        Command::ExportDxf => text("ExportDxf"),
        Command::DataInput(_) => text("DataInput"),
    }
}

/// The same command.
pub(crate) fn copy_command(c: &Command) -> (r: Command)
    ensures
        r == *c,
{
    match c {
        Command::SetTool(t) => Command::SetTool(*t),
        Command::DeleteSelected => Command::DeleteSelected,
        Command::Move => Command::Move,
        Command::Copy => Command::Copy,
        Command::Rotate => Command::Rotate,
        Command::Scale => Command::Scale,
        Command::Mirror => Command::Mirror,
        Command::ZoomExtents => Command::ZoomExtents,
        Command::Undo => Command::Undo,
        Command::Redo => Command::Redo,
        Command::New => Command::New,
        Command::Open => Command::Open,
        Command::Save => Command::Save,
        Command::ExportDxf => Command::ExportDxf,
        Command::DataInput(s) => Command::DataInput(s.clone()),
    }
}

pub(crate) fn copy_ids(v: &Vec<EntityId>) -> (r: Vec<EntityId>)
    ensures
        r@ == v@,
{
    let mut r: Vec<EntityId> = Vec::new();
    let mut i: usize = 0;
    while i < v.len()
        invariant
            i <= v@.len(),
            r@ == v@.take(i as int),
        decreases v@.len() - i,
    {
        r.push(v[i]);
        i = i + 1;
    }
    assert(v@.take(v@.len() as int) =~= v@);
    r
}


/// Everything but the tool, the edit state, the selection, the command
/// history, the status line and the last command is as before.
pub open spec fn keeps_rest<P, F>(a: UiState<P, F>, b: UiState<P, F>) -> bool {
    &&& a.mouse_world_pos == b.mouse_world_pos
    &&& a.snap_point == b.snap_point
    &&& a.snap_mode == b.snap_mode
    &&& a.snap_enabled == b.snap_enabled
    &&& a.show_grid == b.show_grid
    &&& a.grid_spacing == b.grid_spacing
    &&& a.command_input == b.command_input
    &&& a.show_layers_panel == b.show_layers_panel
    &&& a.show_properties_panel == b.show_properties_panel
    &&& a.ortho_mode == b.ortho_mode
    &&& a.pending_command == b.pending_command
    &&& a.should_focus_command_line == b.should_focus_command_line
}

/// What cancelling does to the tool, the edit state, the selection and
/// the status line: back to the select tool, or, with it, the selection
/// cleared.
pub open spec fn cancelled<P, F>(after: UiState<P, F>, tool: DrawingTool, selection: Seq<EntityId>) -> bool {
    &&& after.edit_state is Idle
    &&& if tool != DrawingTool::Select {
        &&& after.current_tool == DrawingTool::Select
        &&& after.selected_entities@ == selection
        &&& after.status_message@ == "Cancelled. Tool reset to Select."@
    } else if selection.len() > 0 {
        &&& after.current_tool == tool
        &&& after.selected_entities@ == Seq::<EntityId>::empty()
        &&& after.status_message@ == "Selection cleared."@
    } else {
        &&& after.current_tool == tool
        &&& after.selected_entities@ == selection
        &&& after.status_message@ == "Cancelled."@
    }
}

/// Whether a typed text is data for the tool being drawn with.
pub open spec fn reads_as_data(t: Seq<char>, drawing: Option<DrawingTool>) -> bool {
    ||| drawing == Some(DrawingTool::Dimension) && crate::ui_state::is_dimension_sub(crate::text::spec_to_uppercase(t))
    ||| drawing is Some && crate::ui_state::looks_like_data(t)
}

/// The edit operation a command starts on a selection, with the status
/// line it shows, or the complaint when nothing is selected.
pub open spec fn edit_prompt(c: Command) -> Option<(Seq<char>, Seq<char>)> {
    match c {
        Command::Move => Some(("移动: 指定基点:"@, "请先选择要移动的对象"@)),
        Command::Copy => Some(("复制: 指定基点:"@, "请先选择要复制的对象"@)),
        Command::Rotate => Some(("旋转: 指定基点:"@, "请先选择要旋转的对象"@)),
        Command::Scale => Some(("缩放: 指定基点:"@, "请先选择要缩放的对象"@)),
        Command::Mirror => Some(("镜像: 指定镜像线第一点:"@, "请先选择要镜像的对象"@)),
        _ => None,
    }
}

/// The edit state an operation command starts on the selected entities.
pub open spec fn started_op<P, F>(c: Command, e: EditState<P, F>, ids: Seq<EntityId>) -> bool {
    match c {
        Command::Move => e matches EditState::MoveOp { entity_ids, base_point } && entity_ids@ == ids && base_point is None,
        Command::Copy => e matches EditState::CopyOp { entity_ids, base_point } && entity_ids@ == ids && base_point is None,
        Command::Rotate => e matches EditState::RotateOp { entity_ids, center, start_angle } && entity_ids@ == ids
            && center is None && start_angle is None,
        Command::Scale => e matches EditState::ScaleOp { entity_ids, center, start_dist } && entity_ids@ == ids
            && center is None && start_dist is None,
        Command::Mirror => e matches EditState::MirrorOp { entity_ids, point1 } && entity_ids@ == ids && point1 is None,
        _ => false,
    }
}

/// The selection with an entity toggled: taken out if it is in, added at
/// the end if not.
pub open spec fn toggled(s: Seq<EntityId>, id: EntityId) -> Seq<EntityId> {
    if s.contains(id) {
        without_entity(s, id)
    } else {
        s.push(id)
    }
}

/// Toggling an entity that is not selected twice leaves the selection as
/// it was.
pub proof fn lemma_toggle_selection_twice(s: Seq<EntityId>, id: EntityId)
    requires
        !s.contains(id),
    ensures
        toggled(toggled(s, id), id) == s,
{
    let t = s.push(id);
    assert(t[s.len() as int] == id);
    assert(t.contains(id));
    assert(t.drop_last() =~= s);
    assert(t.last() == id);
    lemma_without_absent(s, id);
}

fn contains_id(v: &Vec<EntityId>, id: EntityId) -> (r: bool)
    ensures
        r == v@.contains(id),
{
    let mut i: usize = 0;
    while i < v.len()
        invariant
            i <= v@.len(),
            forall|j: int| 0 <= j < i ==> v@[j] != id,
        decreases v@.len() - i,
    {
        if v[i] == id {
            assert(v@[i as int] == id);
            return true;
        }
        i = i + 1;
    }
    false
}

impl<P, F> UiState<P, F> {
    /// The state at start: the select tool, nothing selected, the grid
    /// shown, snapping on, both panels shown, status `Ready`.
    pub fn new(origin: P, grid_spacing: F) -> (s: Self)
        ensures
            s.current_tool == DrawingTool::Select,
            s.edit_state is Idle,
            s.selected_entities@ == Seq::<EntityId>::empty(),
            s.mouse_world_pos == origin,
            s.snap_point is None,
            s.snap_mode == (SnapMode {
                endpoint: true,
                midpoint: true,
                center: true,
                intersection: true,
                perpendicular: false,
                tangent: false,
                nearest: false,
                grid: false,
            }),
            s.snap_enabled,
            s.show_grid,
            s.grid_spacing == grid_spacing,
            s.command_input@ == Seq::<char>::empty(),
            s.command_history@ == Seq::<String>::empty(),
            s.status_message@ == "Ready"@,
            s.show_layers_panel,
            s.show_properties_panel,
            !s.ortho_mode,
            s.pending_command is None,
            s.last_command is None,
            !s.should_focus_command_line,
    {
        UiState {
            current_tool: DrawingTool::Select,
            edit_state: EditState::Idle,
            selected_entities: Vec::new(),
            mouse_world_pos: origin,
            snap_point: None,
            snap_mode: SnapMode::default(),
            snap_enabled: true,
            show_grid: true,
            grid_spacing,
            command_input: String::new(),
            command_history: Vec::new(),
            status_message: text("Ready"),
            show_layers_panel: true,
            show_properties_panel: true,
            ortho_mode: false,
            pending_command: None,
            last_command: None,
            should_focus_command_line: false,
        }
    }

    /// Chooses a tool: nothing is being edited any more, and the status
    /// line names the tool.
    pub fn set_tool(&mut self, tool: DrawingTool)
        ensures
            final(self).current_tool == tool,
            final(self).edit_state is Idle,
            final(self).status_message@ == tool_message(tool),
            final(self).selected_entities == old(self).selected_entities,
            final(self).command_history == old(self).command_history,
            final(self).last_command == old(self).last_command,
            keeps_rest(*final(self), *old(self)),
    {
        self.current_tool = tool;
        self.edit_state = EditState::Idle;
        self.status_message = match tool {
            DrawingTool::Dimension => text("标注工具已选择。指定第一点或 [半径(R)/直径(D)]:"),
            DrawingTool::DimensionRadius => text("半径标注工具已选择。请选择圆或圆弧:"),
            DrawingTool::DimensionDiameter => text("直径标注工具已选择。请选择圆或圆弧:"),
            _ => concat(tool.name(), " 工具已选择"),
        };
    }

    /// Cancels the current operation: a drawing tool gives way to the
    /// select tool; with the select tool, the selection is cleared.
    pub fn cancel(&mut self)
        ensures
            cancelled(*final(self), old(self).current_tool, old(self).selected_entities@),
            final(self).command_history == old(self).command_history,
            final(self).last_command == old(self).last_command,
            keeps_rest(*final(self), *old(self)),
    {
        self.edit_state = EditState::Idle;
        if self.current_tool != DrawingTool::Select {
            self.current_tool = DrawingTool::Select;
            self.status_message = text("Cancelled. Tool reset to Select.");
        } else if self.selected_entities.len() > 0 {
            self.selected_entities = Vec::new();
            self.status_message = text("Selection cleared.");
        } else {
            self.status_message = text("Cancelled.");
        }
    }

    /// Selects nothing.
    pub fn clear_selection(&mut self)
        ensures
            final(self).selected_entities@ == Seq::<EntityId>::empty(),
            final(self).current_tool == old(self).current_tool,
            final(self).edit_state == old(self).edit_state,
            final(self).status_message == old(self).status_message,
            final(self).command_history == old(self).command_history,
            final(self).last_command == old(self).last_command,
            keeps_rest(*final(self), *old(self)),
    {
        self.selected_entities = Vec::new();
    }

    /// Adds an entity to the selection, at the end, unless it is selected.
    pub fn add_to_selection(&mut self, id: EntityId)
        ensures
            final(self).selected_entities@ == if old(self).selected_entities@.contains(id) {
                old(self).selected_entities@
            } else {
                old(self).selected_entities@.push(id)
            },
            final(self).current_tool == old(self).current_tool,
            final(self).edit_state == old(self).edit_state,
            final(self).status_message == old(self).status_message,
            final(self).command_history == old(self).command_history,
            final(self).last_command == old(self).last_command,
            keeps_rest(*final(self), *old(self)),
    {
        if !contains_id(&self.selected_entities, id) {
            self.selected_entities.push(id);
        }
    }

    /// Takes an entity out of the selection.
    pub fn remove_from_selection(&mut self, id: &EntityId)
        ensures
            final(self).selected_entities@ == without_entity(old(self).selected_entities@, *id),
            final(self).current_tool == old(self).current_tool,
            final(self).edit_state == old(self).edit_state,
            final(self).status_message == old(self).status_message,
            final(self).command_history == old(self).command_history,
            final(self).last_command == old(self).last_command,
            keeps_rest(*final(self), *old(self)),
    {
        let mut v: Vec<EntityId> = Vec::new();
        std::mem::swap(&mut v, &mut self.selected_entities);
        self.selected_entities = retain_others(v, *id);
    }

    /// Selects an entity that is not selected, and the other way round.
    pub fn toggle_selection(&mut self, id: EntityId)
        ensures
            final(self).selected_entities@ == toggled(old(self).selected_entities@, id),
            final(self).current_tool == old(self).current_tool,
            final(self).edit_state == old(self).edit_state,
            final(self).status_message == old(self).status_message,
            final(self).command_history == old(self).command_history,
            final(self).last_command == old(self).last_command,
            keeps_rest(*final(self), *old(self)),
    {
        if contains_id(&self.selected_entities, id) {
            self.remove_from_selection(&id);
        } else {
            self.add_to_selection(id);
        }
    }

    /// Runs a line typed on the command line and returns the command it
    /// stands for. An empty line repeats the last command and records
    /// nothing. Otherwise the line joins the history; while drawing, data
    /// goes to the tool; `ESC` cancels; a name sets the status line to the
    /// command and becomes the last command; an unknown name is reported.
    pub fn execute_command(&mut self, command: &str) -> (r: Option<Command>)
        ensures
            ({
                let t = trimmed(command@);
                let u = crate::text::spec_to_uppercase(t);
                let hist = old(self).command_history@;
                if t.len() == 0 {
                    &&& r == old(self).last_command
                    &&& *final(self) == *old(self)
                } else {
                    &&& final(self).command_history@.len() == hist.len() + 1
                    &&& final(self).command_history@.take(hist.len() as int) == hist
                    &&& final(self).command_history@.last()@ == command@
                    &&& keeps_rest(*final(self), *old(self))
                    &&& if reads_as_data(t, drawing_tool(old(self).edit_state)) {
                        &&& r matches Some(Command::DataInput(d)) && d@ == t
                        &&& final(self).current_tool == old(self).current_tool
                        &&& final(self).edit_state == old(self).edit_state
                        &&& final(self).selected_entities == old(self).selected_entities
                        &&& final(self).status_message == old(self).status_message
                        &&& final(self).last_command == old(self).last_command
                    } else if u == "ESC"@ {
                        &&& r is None
                        &&& cancelled(*final(self), old(self).current_tool, old(self).selected_entities@)
                        &&& final(self).last_command == old(self).last_command
                    } else {
                        &&& final(self).current_tool == old(self).current_tool
                        &&& final(self).edit_state == old(self).edit_state
                        &&& final(self).selected_entities == old(self).selected_entities
                        &&& match named_command(u) {
                            Some(c) => {
                                &&& r == Some(c)
                                &&& final(self).status_message@ == "Command: "@ + command_label(c)
                                &&& final(self).last_command == Some(c)
                            },
                            None => {
                                &&& r is None
                                &&& final(self).status_message@ == "Unknown command: "@ + command@
                                &&& final(self).last_command == old(self).last_command
                            },
                        }
                    }
                }
            }),
    {
        let drawing = match &self.edit_state {
            EditState::Drawing { tool, .. } => Some(*tool),
            _ => None,
        };
        let read = read_command(command, drawing);
        if let CommandInput::Repeat = read {
            return match &self.last_command {
                Some(c) => Some(copy_command(c)),
                None => None,
            };
        }
        self.command_history.push(text(command));
        match read {
            CommandInput::Repeat => None,
            CommandInput::Cancel => {
                self.cancel();
                None
            },
            CommandInput::Unknown => {
                self.status_message = concat("Unknown command: ", command);
                None
            },
            CommandInput::Run(c) => {
                if let Command::DataInput(_) = c {
                    return Some(c);
                }
                let label = command_text(&c);
                self.status_message = concat("Command: ", label.as_str());
                self.last_command = Some(copy_command(&c));
                Some(c)
            },
        }
    }

    /// Carries out a command: the state changes it makes here, and the
    /// work on the document or the screen it leaves to the caller.
    pub fn handle_command(&mut self, command: Command) -> (r: EditorAction)
        ensures
            final(self).command_history == old(self).command_history,
            final(self).last_command == old(self).last_command,
            keeps_rest(*final(self), *old(self)),
            match command {
                Command::SetTool(t) => {
                    &&& r == EditorAction::Nothing
                    &&& final(self).current_tool == t
                    &&& final(self).edit_state is Idle
                    &&& final(self).status_message@ == tool_message(t)
                    &&& final(self).selected_entities == old(self).selected_entities
                },
                Command::DeleteSelected => {
                    &&& r matches EditorAction::RemoveEntities(ids) && ids@ == old(self).selected_entities@
                    &&& final(self).selected_entities@ == Seq::<EntityId>::empty()
                    &&& final(self).current_tool == old(self).current_tool
                    &&& final(self).edit_state == old(self).edit_state
                    &&& final(self).status_message == old(self).status_message
                },
                Command::New => {
                    &&& r == EditorAction::NewDocument
                    &&& final(self).selected_entities@ == Seq::<EntityId>::empty()
                    &&& final(self).status_message@ == "新文档"@
                    &&& final(self).current_tool == old(self).current_tool
                    &&& final(self).edit_state == old(self).edit_state
                },
                Command::DataInput(d) => {
                    &&& r == EditorAction::DataInput(d)
                    &&& final(self).current_tool == old(self).current_tool
                    &&& final(self).edit_state == old(self).edit_state
                    &&& final(self).selected_entities == old(self).selected_entities
                    &&& final(self).status_message == old(self).status_message
                },
                _ => {
                    &&& r == match command {
                        Command::ZoomExtents => EditorAction::ZoomExtents,
                        Command::Open => EditorAction::ShowOpenDialog,
                        Command::Save => EditorAction::QuickSave,
                        Command::ExportDxf => EditorAction::ShowExportDxfDialog,
                        _ => EditorAction::Nothing,
                    }
                    &&& final(self).current_tool == old(self).current_tool
                    &&& final(self).selected_entities == old(self).selected_entities
                    &&& match edit_prompt(command) {
                        Some((started, refused)) => if old(self).selected_entities@.len() > 0 {
                            &&& started_op(command, final(self).edit_state, old(self).selected_entities@)
                            &&& final(self).status_message@ == started
                        } else {
                            &&& final(self).edit_state == old(self).edit_state
                            &&& final(self).status_message@ == refused
                        },
                        None => {
                            &&& final(self).edit_state == old(self).edit_state
                            &&& final(self).status_message == old(self).status_message
                        },
                    }
                },
            },
    {
        match command {
            Command::SetTool(tool) => {
                self.set_tool(tool);
                EditorAction::Nothing
            },
            Command::DeleteSelected => {
                let ids = copy_ids(&self.selected_entities);
                self.clear_selection();
                EditorAction::RemoveEntities(ids)
            },
            Command::Move => {
                if self.selected_entities.len() > 0 {
                    self.edit_state = EditState::MoveOp { entity_ids: copy_ids(&self.selected_entities), base_point: None };
                    self.status_message = text("移动: 指定基点:");
                } else {
                    self.status_message = text("请先选择要移动的对象");
                }
                EditorAction::Nothing
            },
            Command::Copy => {
                if self.selected_entities.len() > 0 {
                    self.edit_state = EditState::CopyOp { entity_ids: copy_ids(&self.selected_entities), base_point: None };
                    self.status_message = text("复制: 指定基点:");
                } else {
                    self.status_message = text("请先选择要复制的对象");
                }
                EditorAction::Nothing
            },
            Command::Rotate => {
                if self.selected_entities.len() > 0 {
                    self.edit_state = EditState::RotateOp {
                        entity_ids: copy_ids(&self.selected_entities),
                        center: None,
                        start_angle: None,
                    };
                    self.status_message = text("旋转: 指定基点:");
                } else {
                    self.status_message = text("请先选择要旋转的对象");
                }
                EditorAction::Nothing
            },
            Command::Scale => {
                if self.selected_entities.len() > 0 {
                    self.edit_state = EditState::ScaleOp {
                        entity_ids: copy_ids(&self.selected_entities),
                        center: None,
                        start_dist: None,
                    };
                    self.status_message = text("缩放: 指定基点:");
                } else {
                    self.status_message = text("请先选择要缩放的对象");
                }
                EditorAction::Nothing
            },
            Command::Mirror => {
                if self.selected_entities.len() > 0 {
                    self.edit_state = EditState::MirrorOp { entity_ids: copy_ids(&self.selected_entities), point1: None };
                    self.status_message = text("镜像: 指定镜像线第一点:");
                } else {
                    self.status_message = text("请先选择要镜像的对象");
                }
                EditorAction::Nothing
            },
            Command::ZoomExtents => EditorAction::ZoomExtents,
            Command::New => {
                self.clear_selection();
                self.status_message = text("新文档");
                EditorAction::NewDocument
            },
            Command::Open => EditorAction::ShowOpenDialog,
            Command::Save => EditorAction::QuickSave,
            Command::ExportDxf => EditorAction::ShowExportDxfDialog,
            Command::Undo => EditorAction::Nothing,
            Command::Redo => EditorAction::Nothing,
            Command::DataInput(input) => EditorAction::DataInput(input),
        }
    }
}

} // verus!
