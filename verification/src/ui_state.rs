//! Tools, expected inputs and the command-line vocabulary of the editor.

use vstd::prelude::*;
use crate::action::{action_name, action_shortcut, ActionType};
use crate::text::{chars_eq, chars_of, spec_to_uppercase, to_uppercase, trim_chars, trimmed};

verus! {

/// The drawing tool in use.
#[derive(Debug, Clone, Copy, PartialEq, Eq, Structural)]
pub enum DrawingTool {
    NoTool,
    Select,
    Line,
    Circle,
    Arc,
    Polyline,
    Rectangle,
    Point,
    Text,
    Dimension,
    DimensionRadius,
    DimensionDiameter,
}

/// Display name of a tool.
pub open spec fn tool_name(t: DrawingTool) -> Seq<char> {
    match t {
        DrawingTool::NoTool => "None"@,
        DrawingTool::Select => "Select"@,
        DrawingTool::Line => "Line"@,
        DrawingTool::Circle => "Circle"@,
        DrawingTool::Arc => "Arc"@,
        DrawingTool::Polyline => "Polyline"@,
        DrawingTool::Rectangle => "Rectangle"@,
        DrawingTool::Point => "Point"@,
        DrawingTool::Text => "Text"@,
        DrawingTool::Dimension => "Dimension"@,
        DrawingTool::DimensionRadius => "Radius Dimension"@,
        DrawingTool::DimensionDiameter => "Diameter Dimension"@,
    }
}

/// Keyboard shortcut of a tool, if it has one.
pub open spec fn tool_shortcut(t: DrawingTool) -> Option<Seq<char>> {
    match t {
        DrawingTool::NoTool => None,
        DrawingTool::Select => Some("Space"@),
        DrawingTool::Line => Some("L"@),
        DrawingTool::Circle => Some("C"@),
        DrawingTool::Arc => Some("A"@),
        DrawingTool::Polyline => Some("P"@),
        DrawingTool::Rectangle => Some("R"@),
        DrawingTool::Point => Some("."@),
        DrawingTool::Text => Some("T"@),
        DrawingTool::Dimension => Some("D"@),
        DrawingTool::DimensionRadius => Some("DRA"@),
        DrawingTool::DimensionDiameter => Some("DDI"@),
    }
}

/// The length, first and last character of the shortcut of a value.
spec fn tool_shortcut_sig(a: DrawingTool) -> (nat, char, char) {
    match a {
        DrawingTool::Select => (5, 'S', 'e'),
        DrawingTool::Line => (1, 'L', 'L'),
        DrawingTool::Circle => (1, 'C', 'C'),
        DrawingTool::Arc => (1, 'A', 'A'),
        DrawingTool::Polyline => (1, 'P', 'P'),
        DrawingTool::Rectangle => (1, 'R', 'R'),
        DrawingTool::Point => (1, '.', '.'),
        DrawingTool::Text => (1, 'T', 'T'),
        DrawingTool::Dimension => (1, 'D', 'D'),
        DrawingTool::DimensionRadius => (3, 'D', 'A'),
        DrawingTool::DimensionDiameter => (3, 'D', 'I'),
        DrawingTool::NoTool => (0, ' ', ' '),
    }
}

proof fn lemma_tool_shortcut_sig(a: DrawingTool)
    ensures
        tool_shortcut(a) is Some ==> tool_shortcut(a)->0.len() == tool_shortcut_sig(a).0 && tool_shortcut(a)->0[0] == tool_shortcut_sig(a).1
            && tool_shortcut(a)->0[tool_shortcut(a)->0.len() - 1] == tool_shortcut_sig(a).2,
{
    match a {
        DrawingTool::Select => {
            reveal_strlit("Space");
        },
        DrawingTool::Line => {
            reveal_strlit("L");
        },
        DrawingTool::Circle => {
            reveal_strlit("C");
        },
        DrawingTool::Arc => {
            reveal_strlit("A");
        },
        DrawingTool::Polyline => {
            reveal_strlit("P");
        },
        DrawingTool::Rectangle => {
            reveal_strlit("R");
        },
        DrawingTool::Point => {
            reveal_strlit(".");
        },
        DrawingTool::Text => {
            reveal_strlit("T");
        },
        DrawingTool::Dimension => {
            reveal_strlit("D");
        },
        DrawingTool::DimensionRadius => {
            reveal_strlit("DRA");
        },
        DrawingTool::DimensionDiameter => {
            reveal_strlit("DDI");
        },
        DrawingTool::NoTool => {},
    }
}

/// Only `NoTool` has no shortcut, and no two tools share one.
pub proof fn lemma_tool_shortcuts_distinct(a: DrawingTool, b: DrawingTool)
    requires
        a != b,
    ensures
        tool_shortcut(a) is None <==> a == DrawingTool::NoTool,
        tool_shortcut(a) is Some && tool_shortcut(b) is Some ==> tool_shortcut(a)->0 != tool_shortcut(b)->0,
{
    lemma_tool_shortcut_sig(a);
    lemma_tool_shortcut_sig(b);
}

impl DrawingTool {
    pub fn name(&self) -> (r: &'static str)
        ensures
            r@ == tool_name(*self),
    {
        match self {
            DrawingTool::NoTool => "None",
            DrawingTool::Select => "Select",
            DrawingTool::Line => "Line",
            DrawingTool::Circle => "Circle",
            DrawingTool::Arc => "Arc",
            DrawingTool::Polyline => "Polyline",
            DrawingTool::Rectangle => "Rectangle",
            DrawingTool::Point => "Point",
            DrawingTool::Text => "Text",
            DrawingTool::Dimension => "Dimension",
            DrawingTool::DimensionRadius => "Radius Dimension",
            DrawingTool::DimensionDiameter => "Diameter Dimension",
        }
    }

    pub fn shortcut(&self) -> (r: Option<&'static str>)
        ensures
            match tool_shortcut(*self) {
                Some(s) => r matches Some(x) && x@ == s,
                None => r is None,
            },
    {
        match self {
            DrawingTool::NoTool => None,
            DrawingTool::Select => Some("Space"),
            DrawingTool::Line => Some("L"),
            DrawingTool::Circle => Some("C"),
            DrawingTool::Arc => Some("A"),
            DrawingTool::Polyline => Some("P"),
            DrawingTool::Rectangle => Some("R"),
            DrawingTool::Point => Some("."),
            DrawingTool::Text => Some("T"),
            DrawingTool::Dimension => Some("D"),
            DrawingTool::DimensionRadius => Some("DRA"),
            DrawingTool::DimensionDiameter => Some("DDI"),
        }
    }
}

/// Which kinds of snap points are looked for.
#[derive(Debug, Clone, Copy, PartialEq, Eq, Structural)]
pub struct SnapMode {
    pub endpoint: bool,
    pub midpoint: bool,
    pub center: bool,
    pub intersection: bool,
    pub perpendicular: bool,
    pub tangent: bool,
    pub nearest: bool,
    pub grid: bool,
}

impl Default for SnapMode {
    /// Endpoints, midpoints, centers and intersections.
    fn default() -> (m: Self)
        ensures
            m == (SnapMode {
                endpoint: true,
                midpoint: true,
                center: true,
                intersection: true,
                perpendicular: false,
                tangent: false,
                nearest: false,
                grid: false,
            }),
    {
        SnapMode {
            endpoint: true,
            midpoint: true,
            center: true,
            intersection: true,
            perpendicular: false,
            tangent: false,
            nearest: false,
            grid: false,
        }
    }
}

/// The kind of value the command line expects.
#[derive(Debug, Clone, Copy, PartialEq, Eq, Structural)]
pub enum InputType {
    Point,
    Radius,
    Length,
    Angle,
    Dimensions,
    LengthAngle,
}

/// The hint shown for an expected input.
pub open spec fn input_hint(t: InputType) -> Seq<char> {
    match t {
        InputType::Point => "输入坐标 (如: 100,50 或 @100,50 或 @100<45)"@,
        InputType::Radius => "输入半径 (如: 50)"@,
        InputType::Length => "输入长度 (如: 100)"@,
        InputType::Angle => "输入角度 (如: <45)"@,
        InputType::Dimensions => "输入尺寸 (如: 100,50)"@,
        InputType::LengthAngle => "输入长度和角度 (如: 100<45)"@,
    }
}

impl InputType {
    pub fn hint(&self) -> (r: &'static str)
        ensures
            r@ == input_hint(*self),
    {
        match self {
            InputType::Point => "输入坐标 (如: 100,50 或 @100,50 或 @100<45)",
            InputType::Radius => "输入半径 (如: 50)",
            InputType::Length => "输入长度 (如: 100)",
            InputType::Angle => "输入角度 (如: <45)",
            InputType::Dimensions => "输入尺寸 (如: 100,50)",
            InputType::LengthAngle => "输入长度和角度 (如: 100<45)",
        }
    }
}

/// A command of the editor.
#[derive(Debug, Clone, PartialEq, Eq)]
pub enum Command {
    SetTool(DrawingTool),
    DeleteSelected,
    Move,
    Copy,
    Rotate,
    Scale,
    Mirror,
    ZoomExtents,
    Undo,
    Redo,
    New,
    Open,
    Save,
    ExportDxf,
    /// Data typed while drawing.
    DataInput(String),
}

/// A character that marks typed data: a digit, `@`, `<`, `,`, `.` or `-`.
pub open spec fn is_data_char(c: char) -> bool {
    ('0' <= c && c <= '9') || c == '@' || c == '<' || c == ',' || c == '.' || c == '-'
}

/// Whether a text holds a character that marks typed data.
pub open spec fn looks_like_data(s: Seq<char>) -> bool {
    exists|i: int| 0 <= i < s.len() && is_data_char(#[trigger] s[i])
}

/// Whether a typed text looks like data rather than a command.
pub fn looks_like_data_input(input: &str) -> (r: bool)
    ensures
        r == looks_like_data(input@),
{
    let cs = chars_of(input);
    let mut i: usize = 0;
    while i < cs.len()
        invariant
            i <= cs@.len(),
            cs@ == input@,
            forall|j: int| 0 <= j < i ==> !is_data_char(#[trigger] cs@[j]),
        decreases cs@.len() - i,
    {
        let c = cs[i];
        if ('0' <= c && c <= '9') || c == '@' || c == '<' || c == ',' || c == '.' || c == '-' {
            return true;
        }
        i = i + 1;
    }
    false
}

/// The command an upper-cased name stands for, `None` for an unknown name
/// (`ESC` is handled apart).
pub open spec fn named_command(u: Seq<char>) -> Option<Command> {
    if u == "L"@ || u == "LINE"@ {
        Some(Command::SetTool(DrawingTool::Line))
    } else if u == "C"@ || u == "CIRCLE"@ {
        Some(Command::SetTool(DrawingTool::Circle))
    } else if u == "A"@ || u == "ARC"@ {
        Some(Command::SetTool(DrawingTool::Arc))
    } else if u == "P"@ || u == "PL"@ || u == "PLINE"@ || u == "POLYLINE"@ {
        Some(Command::SetTool(DrawingTool::Polyline))
    } else if u == "R"@ || u == "REC"@ || u == "RECTANGLE"@ {
        Some(Command::SetTool(DrawingTool::Rectangle))
    } else if u == "T"@ || u == "TEXT"@ || u == "DTEXT"@ || u == "MTEXT"@ {
        Some(Command::SetTool(DrawingTool::Text))
    } else if u == "D"@ || u == "DIM"@ || u == "DIMENSION"@ || u == "DIMLINEAR"@ || u
        == "DIMALIGNED"@ {
        Some(Command::SetTool(DrawingTool::Dimension))
    } else if u == "DRA"@ || u == "DIMRADIUS"@ {
        Some(Command::SetTool(DrawingTool::DimensionRadius))
    } else if u == "DDI"@ || u == "DIMDIAMETER"@ {
        Some(Command::SetTool(DrawingTool::DimensionDiameter))
    } else if u == "E"@ || u == "ERASE"@ || u == "DELETE"@ {
        Some(Command::DeleteSelected)
    } else if u == "M"@ || u == "MOVE"@ {
        Some(Command::Move)
    } else if u == "CO"@ || u == "COPY"@ {
        Some(Command::Copy)
    } else if u == "RO"@ || u == "ROTATE"@ {
        Some(Command::Rotate)
    } else if u == "SC"@ || u == "SCALE"@ {
        Some(Command::Scale)
    } else if u == "MI"@ || u == "MIRROR"@ {
        Some(Command::Mirror)
    } else if u == "Z"@ || u == "ZOOM"@ || u == "ZE"@ || u == "ZOOM EXTENTS"@ {
        Some(Command::ZoomExtents)
    } else if u == "U"@ || u == "UNDO"@ {
        Some(Command::Undo)
    } else if u == "REDO"@ {
        Some(Command::Redo)
    } else if u == "EXPORT"@ || u == "DXFOUT"@ {
        Some(Command::ExportDxf)
    } else {
        None
    }
}

/// The command each built-in name stands for, upper-cased: tool names pick
/// their tool, `E`/`ERASE`/`DELETE` delete the selection, `M`/`MOVE`,
/// `CO`/`COPY`, `RO`/`ROTATE`, `SC`/`SCALE` and `MI`/`MIRROR` start their
/// operation, `Z`/`ZOOM`/`ZE`/`ZOOM EXTENTS` zoom to the drawing, `U`/`UNDO`
/// and `REDO` undo and redo, `EXPORT`/`DXFOUT` export; `ESC` and the file
/// commands are not names here.
pub proof fn lemma_command_names()
    ensures
        named_command("L"@) == Some(Command::SetTool(DrawingTool::Line)),
        named_command("LINE"@) == Some(Command::SetTool(DrawingTool::Line)),
        named_command("C"@) == Some(Command::SetTool(DrawingTool::Circle)),
        named_command("CIRCLE"@) == Some(Command::SetTool(DrawingTool::Circle)),
        named_command("A"@) == Some(Command::SetTool(DrawingTool::Arc)),
        named_command("ARC"@) == Some(Command::SetTool(DrawingTool::Arc)),
        named_command("P"@) == Some(Command::SetTool(DrawingTool::Polyline)),
        named_command("PL"@) == Some(Command::SetTool(DrawingTool::Polyline)),
        named_command("PLINE"@) == Some(Command::SetTool(DrawingTool::Polyline)),
        named_command("POLYLINE"@) == Some(Command::SetTool(DrawingTool::Polyline)),
        named_command("R"@) == Some(Command::SetTool(DrawingTool::Rectangle)),
        named_command("REC"@) == Some(Command::SetTool(DrawingTool::Rectangle)),
        named_command("RECTANGLE"@) == Some(Command::SetTool(DrawingTool::Rectangle)),
        named_command("T"@) == Some(Command::SetTool(DrawingTool::Text)),
        named_command("TEXT"@) == Some(Command::SetTool(DrawingTool::Text)),
        named_command("DTEXT"@) == Some(Command::SetTool(DrawingTool::Text)),
        named_command("MTEXT"@) == Some(Command::SetTool(DrawingTool::Text)),
        named_command("D"@) == Some(Command::SetTool(DrawingTool::Dimension)),
        named_command("DIM"@) == Some(Command::SetTool(DrawingTool::Dimension)),
        named_command("DIMENSION"@) == Some(Command::SetTool(DrawingTool::Dimension)),
        named_command("DIMLINEAR"@) == Some(Command::SetTool(DrawingTool::Dimension)),
        named_command("DIMALIGNED"@) == Some(Command::SetTool(DrawingTool::Dimension)),
        named_command("DRA"@) == Some(Command::SetTool(DrawingTool::DimensionRadius)),
        named_command("DIMRADIUS"@) == Some(Command::SetTool(DrawingTool::DimensionRadius)),
        named_command("DDI"@) == Some(Command::SetTool(DrawingTool::DimensionDiameter)),
        named_command("DIMDIAMETER"@) == Some(Command::SetTool(DrawingTool::DimensionDiameter)),
        named_command("E"@) == Some(Command::DeleteSelected),
        named_command("ERASE"@) == Some(Command::DeleteSelected),
        named_command("DELETE"@) == Some(Command::DeleteSelected),
        named_command("M"@) == Some(Command::Move),
        named_command("MOVE"@) == Some(Command::Move),
        named_command("CO"@) == Some(Command::Copy),
        named_command("COPY"@) == Some(Command::Copy),
        named_command("RO"@) == Some(Command::Rotate),
        named_command("ROTATE"@) == Some(Command::Rotate),
        named_command("SC"@) == Some(Command::Scale),
        named_command("SCALE"@) == Some(Command::Scale),
        named_command("MI"@) == Some(Command::Mirror),
        named_command("MIRROR"@) == Some(Command::Mirror),
        named_command("Z"@) == Some(Command::ZoomExtents),
        named_command("ZOOM"@) == Some(Command::ZoomExtents),
        named_command("ZE"@) == Some(Command::ZoomExtents),
        named_command("ZOOM EXTENTS"@) == Some(Command::ZoomExtents),
        named_command("U"@) == Some(Command::Undo),
        named_command("UNDO"@) == Some(Command::Undo),
        named_command("REDO"@) == Some(Command::Redo),
        named_command("EXPORT"@) == Some(Command::ExportDxf),
        named_command("DXFOUT"@) == Some(Command::ExportDxf),
        named_command("ESC"@) is None,
        named_command("NEW"@) is None,
        named_command("OPEN"@) is None,
        named_command("SAVE"@) is None,
        named_command("SELECT"@) is None,
        named_command("POINT"@) is None,
{
    reveal_strlit("L");
    assert("L"@.len() == 1 && "L"@[0] == 'L');
    reveal_strlit("LINE");
    assert("LINE"@.len() == 4 && "LINE"@[0] == 'L' && "LINE"@[1] == 'I' && "LINE"@[2] == 'N' && "LINE"@[3] == 'E');
    reveal_strlit("C");
    assert("C"@.len() == 1 && "C"@[0] == 'C');
    reveal_strlit("CIRCLE");
    assert("CIRCLE"@.len() == 6 && "CIRCLE"@[0] == 'C' && "CIRCLE"@[1] == 'I' && "CIRCLE"@[2] == 'R' && "CIRCLE"@[3] == 'C' && "CIRCLE"@[4] == 'L' && "CIRCLE"@[5] == 'E');
    reveal_strlit("A");
    assert("A"@.len() == 1 && "A"@[0] == 'A');
    reveal_strlit("ARC");
    assert("ARC"@.len() == 3 && "ARC"@[0] == 'A' && "ARC"@[1] == 'R' && "ARC"@[2] == 'C');
    reveal_strlit("P");
    assert("P"@.len() == 1 && "P"@[0] == 'P');
    reveal_strlit("PL");
    assert("PL"@.len() == 2 && "PL"@[0] == 'P' && "PL"@[1] == 'L');
    reveal_strlit("PLINE");
    assert("PLINE"@.len() == 5 && "PLINE"@[0] == 'P' && "PLINE"@[1] == 'L' && "PLINE"@[2] == 'I' && "PLINE"@[3] == 'N' && "PLINE"@[4] == 'E');
    reveal_strlit("POLYLINE");
    assert("POLYLINE"@.len() == 8 && "POLYLINE"@[0] == 'P' && "POLYLINE"@[1] == 'O' && "POLYLINE"@[2] == 'L' && "POLYLINE"@[3] == 'Y' && "POLYLINE"@[4] == 'L' && "POLYLINE"@[5] == 'I' && "POLYLINE"@[6] == 'N' && "POLYLINE"@[7] == 'E');
    reveal_strlit("R");
    assert("R"@.len() == 1 && "R"@[0] == 'R');
    reveal_strlit("REC");
    assert("REC"@.len() == 3 && "REC"@[0] == 'R' && "REC"@[1] == 'E' && "REC"@[2] == 'C');
    reveal_strlit("RECTANGLE");
    assert("RECTANGLE"@.len() == 9 && "RECTANGLE"@[0] == 'R' && "RECTANGLE"@[1] == 'E' && "RECTANGLE"@[2] == 'C' && "RECTANGLE"@[3] == 'T' && "RECTANGLE"@[4] == 'A' && "RECTANGLE"@[5] == 'N' && "RECTANGLE"@[6] == 'G' && "RECTANGLE"@[7] == 'L' && "RECTANGLE"@[8] == 'E');
    reveal_strlit("T");
    assert("T"@.len() == 1 && "T"@[0] == 'T');
    reveal_strlit("TEXT");
    assert("TEXT"@.len() == 4 && "TEXT"@[0] == 'T' && "TEXT"@[1] == 'E' && "TEXT"@[2] == 'X' && "TEXT"@[3] == 'T');
    reveal_strlit("DTEXT");
    assert("DTEXT"@.len() == 5 && "DTEXT"@[0] == 'D' && "DTEXT"@[1] == 'T' && "DTEXT"@[2] == 'E' && "DTEXT"@[3] == 'X' && "DTEXT"@[4] == 'T');
    reveal_strlit("MTEXT");
    assert("MTEXT"@.len() == 5 && "MTEXT"@[0] == 'M' && "MTEXT"@[1] == 'T' && "MTEXT"@[2] == 'E' && "MTEXT"@[3] == 'X' && "MTEXT"@[4] == 'T');
    reveal_strlit("D");
    assert("D"@.len() == 1 && "D"@[0] == 'D');
    reveal_strlit("DIM");
    assert("DIM"@.len() == 3 && "DIM"@[0] == 'D' && "DIM"@[1] == 'I' && "DIM"@[2] == 'M');
    reveal_strlit("DIMENSION");
    assert("DIMENSION"@.len() == 9 && "DIMENSION"@[0] == 'D' && "DIMENSION"@[1] == 'I' && "DIMENSION"@[2] == 'M' && "DIMENSION"@[3] == 'E' && "DIMENSION"@[4] == 'N' && "DIMENSION"@[5] == 'S' && "DIMENSION"@[6] == 'I' && "DIMENSION"@[7] == 'O' && "DIMENSION"@[8] == 'N');
    reveal_strlit("DIMLINEAR");
    assert("DIMLINEAR"@.len() == 9 && "DIMLINEAR"@[0] == 'D' && "DIMLINEAR"@[1] == 'I' && "DIMLINEAR"@[2] == 'M' && "DIMLINEAR"@[3] == 'L' && "DIMLINEAR"@[4] == 'I' && "DIMLINEAR"@[5] == 'N' && "DIMLINEAR"@[6] == 'E' && "DIMLINEAR"@[7] == 'A' && "DIMLINEAR"@[8] == 'R');
    reveal_strlit("DIMALIGNED");
    assert("DIMALIGNED"@.len() == 10 && "DIMALIGNED"@[0] == 'D' && "DIMALIGNED"@[1] == 'I' && "DIMALIGNED"@[2] == 'M' && "DIMALIGNED"@[3] == 'A' && "DIMALIGNED"@[4] == 'L' && "DIMALIGNED"@[5] == 'I' && "DIMALIGNED"@[6] == 'G' && "DIMALIGNED"@[7] == 'N' && "DIMALIGNED"@[8] == 'E' && "DIMALIGNED"@[9] == 'D');
    reveal_strlit("DRA");
    assert("DRA"@.len() == 3 && "DRA"@[0] == 'D' && "DRA"@[1] == 'R' && "DRA"@[2] == 'A');
    reveal_strlit("DIMRADIUS");
    assert("DIMRADIUS"@.len() == 9 && "DIMRADIUS"@[0] == 'D' && "DIMRADIUS"@[1] == 'I' && "DIMRADIUS"@[2] == 'M' && "DIMRADIUS"@[3] == 'R' && "DIMRADIUS"@[4] == 'A' && "DIMRADIUS"@[5] == 'D' && "DIMRADIUS"@[6] == 'I' && "DIMRADIUS"@[7] == 'U' && "DIMRADIUS"@[8] == 'S');
    reveal_strlit("DDI");
    assert("DDI"@.len() == 3 && "DDI"@[0] == 'D' && "DDI"@[1] == 'D' && "DDI"@[2] == 'I');
    reveal_strlit("DIMDIAMETER");
    assert("DIMDIAMETER"@.len() == 11 && "DIMDIAMETER"@[0] == 'D' && "DIMDIAMETER"@[1] == 'I' && "DIMDIAMETER"@[2] == 'M' && "DIMDIAMETER"@[3] == 'D' && "DIMDIAMETER"@[4] == 'I' && "DIMDIAMETER"@[5] == 'A' && "DIMDIAMETER"@[6] == 'M' && "DIMDIAMETER"@[7] == 'E' && "DIMDIAMETER"@[8] == 'T' && "DIMDIAMETER"@[9] == 'E' && "DIMDIAMETER"@[10] == 'R');
    reveal_strlit("E");
    assert("E"@.len() == 1 && "E"@[0] == 'E');
    reveal_strlit("ERASE");
    assert("ERASE"@.len() == 5 && "ERASE"@[0] == 'E' && "ERASE"@[1] == 'R' && "ERASE"@[2] == 'A' && "ERASE"@[3] == 'S' && "ERASE"@[4] == 'E');
    reveal_strlit("DELETE");
    assert("DELETE"@.len() == 6 && "DELETE"@[0] == 'D' && "DELETE"@[1] == 'E' && "DELETE"@[2] == 'L' && "DELETE"@[3] == 'E' && "DELETE"@[4] == 'T' && "DELETE"@[5] == 'E');
    reveal_strlit("M");
    assert("M"@.len() == 1 && "M"@[0] == 'M');
    reveal_strlit("MOVE");
    assert("MOVE"@.len() == 4 && "MOVE"@[0] == 'M' && "MOVE"@[1] == 'O' && "MOVE"@[2] == 'V' && "MOVE"@[3] == 'E');
    reveal_strlit("CO");
    assert("CO"@.len() == 2 && "CO"@[0] == 'C' && "CO"@[1] == 'O');
    reveal_strlit("COPY");
    assert("COPY"@.len() == 4 && "COPY"@[0] == 'C' && "COPY"@[1] == 'O' && "COPY"@[2] == 'P' && "COPY"@[3] == 'Y');
    reveal_strlit("RO");
    assert("RO"@.len() == 2 && "RO"@[0] == 'R' && "RO"@[1] == 'O');
    reveal_strlit("ROTATE");
    assert("ROTATE"@.len() == 6 && "ROTATE"@[0] == 'R' && "ROTATE"@[1] == 'O' && "ROTATE"@[2] == 'T' && "ROTATE"@[3] == 'A' && "ROTATE"@[4] == 'T' && "ROTATE"@[5] == 'E');
    reveal_strlit("SC");
    assert("SC"@.len() == 2 && "SC"@[0] == 'S' && "SC"@[1] == 'C');
    reveal_strlit("SCALE");
    assert("SCALE"@.len() == 5 && "SCALE"@[0] == 'S' && "SCALE"@[1] == 'C' && "SCALE"@[2] == 'A' && "SCALE"@[3] == 'L' && "SCALE"@[4] == 'E');
    reveal_strlit("MI");
    assert("MI"@.len() == 2 && "MI"@[0] == 'M' && "MI"@[1] == 'I');
    reveal_strlit("MIRROR");
    assert("MIRROR"@.len() == 6 && "MIRROR"@[0] == 'M' && "MIRROR"@[1] == 'I' && "MIRROR"@[2] == 'R' && "MIRROR"@[3] == 'R' && "MIRROR"@[4] == 'O' && "MIRROR"@[5] == 'R');
    reveal_strlit("Z");
    assert("Z"@.len() == 1 && "Z"@[0] == 'Z');
    reveal_strlit("ZOOM");
    assert("ZOOM"@.len() == 4 && "ZOOM"@[0] == 'Z' && "ZOOM"@[1] == 'O' && "ZOOM"@[2] == 'O' && "ZOOM"@[3] == 'M');
    reveal_strlit("ZE");
    assert("ZE"@.len() == 2 && "ZE"@[0] == 'Z' && "ZE"@[1] == 'E');
    reveal_strlit("ZOOM EXTENTS");
    assert("ZOOM EXTENTS"@.len() == 12 && "ZOOM EXTENTS"@[0] == 'Z' && "ZOOM EXTENTS"@[1] == 'O' && "ZOOM EXTENTS"@[2] == 'O' && "ZOOM EXTENTS"@[3] == 'M' && "ZOOM EXTENTS"@[4] == ' ' && "ZOOM EXTENTS"@[5] == 'E' && "ZOOM EXTENTS"@[6] == 'X' && "ZOOM EXTENTS"@[7] == 'T' && "ZOOM EXTENTS"@[8] == 'E' && "ZOOM EXTENTS"@[9] == 'N' && "ZOOM EXTENTS"@[10] == 'T' && "ZOOM EXTENTS"@[11] == 'S');
    reveal_strlit("U");
    assert("U"@.len() == 1 && "U"@[0] == 'U');
    reveal_strlit("UNDO");
    assert("UNDO"@.len() == 4 && "UNDO"@[0] == 'U' && "UNDO"@[1] == 'N' && "UNDO"@[2] == 'D' && "UNDO"@[3] == 'O');
    reveal_strlit("REDO");
    assert("REDO"@.len() == 4 && "REDO"@[0] == 'R' && "REDO"@[1] == 'E' && "REDO"@[2] == 'D' && "REDO"@[3] == 'O');
    reveal_strlit("EXPORT");
    assert("EXPORT"@.len() == 6 && "EXPORT"@[0] == 'E' && "EXPORT"@[1] == 'X' && "EXPORT"@[2] == 'P' && "EXPORT"@[3] == 'O' && "EXPORT"@[4] == 'R' && "EXPORT"@[5] == 'T');
    reveal_strlit("DXFOUT");
    assert("DXFOUT"@.len() == 6 && "DXFOUT"@[0] == 'D' && "DXFOUT"@[1] == 'X' && "DXFOUT"@[2] == 'F' && "DXFOUT"@[3] == 'O' && "DXFOUT"@[4] == 'U' && "DXFOUT"@[5] == 'T');
    reveal_strlit("ESC");
    assert("ESC"@.len() == 3 && "ESC"@[0] == 'E' && "ESC"@[1] == 'S' && "ESC"@[2] == 'C');
    reveal_strlit("NEW");
    assert("NEW"@.len() == 3 && "NEW"@[0] == 'N' && "NEW"@[1] == 'E' && "NEW"@[2] == 'W');
    reveal_strlit("OPEN");
    assert("OPEN"@.len() == 4 && "OPEN"@[0] == 'O' && "OPEN"@[1] == 'P' && "OPEN"@[2] == 'E' && "OPEN"@[3] == 'N');
    reveal_strlit("SAVE");
    assert("SAVE"@.len() == 4 && "SAVE"@[0] == 'S' && "SAVE"@[1] == 'A' && "SAVE"@[2] == 'V' && "SAVE"@[3] == 'E');
    reveal_strlit("SELECT");
    assert("SELECT"@.len() == 6 && "SELECT"@[0] == 'S' && "SELECT"@[1] == 'E' && "SELECT"@[2] == 'L' && "SELECT"@[3] == 'E' && "SELECT"@[4] == 'C' && "SELECT"@[5] == 'T');
    reveal_strlit("POINT");
    assert("POINT"@.len() == 5 && "POINT"@[0] == 'P' && "POINT"@[1] == 'O' && "POINT"@[2] == 'I' && "POINT"@[3] == 'N' && "POINT"@[4] == 'T');
}

/// A tool's keyboard shortcut, typed on the command line, picks that tool
/// (the select tool's `Space` and the point tool's `.` are not names).
pub proof fn lemma_tool_shortcut_names_tool(t: DrawingTool)
    requires
        tool_shortcut(t) is Some,
        t != DrawingTool::Select,
        t != DrawingTool::Point,
    ensures
        named_command(tool_shortcut(t)->0) == Some(Command::SetTool(t)),
{
    lemma_command_names();
}

/// The shortcut of an editing action, typed on the command line, starts
/// that action: `M` moves, `CO` copies, `RO` rotates, `SC` scales, `MI`
/// mirrors and `E` erases the selection.
pub proof fn lemma_action_shortcut_names_command(a: ActionType)
    ensures
        a == ActionType::Move ==> named_command(action_shortcut(a)->0) == Some(Command::Move),
        a == ActionType::Copy ==> named_command(action_shortcut(a)->0) == Some(Command::Copy),
        a == ActionType::Rotate ==> named_command(action_shortcut(a)->0) == Some(Command::Rotate),
        a == ActionType::Scale ==> named_command(action_shortcut(a)->0) == Some(Command::Scale),
        a == ActionType::Mirror ==> named_command(action_shortcut(a)->0) == Some(Command::Mirror),
        a == ActionType::Erase ==> named_command(action_shortcut(a)->0) == Some(Command::DeleteSelected),
{
    lemma_command_names();
}

/// The action kind a tool carries out.
pub open spec fn tool_action(t: DrawingTool) -> ActionType {
    match t {
        DrawingTool::NoTool => ActionType::NoAction,
        DrawingTool::Select => ActionType::Select,
        DrawingTool::Line => ActionType::DrawLine,
        DrawingTool::Circle => ActionType::DrawCircle,
        DrawingTool::Arc => ActionType::DrawArc,
        DrawingTool::Polyline => ActionType::DrawPolyline,
        DrawingTool::Rectangle => ActionType::DrawRectangle,
        DrawingTool::Point => ActionType::DrawPoint,
        DrawingTool::Text => ActionType::DrawText,
        DrawingTool::Dimension => ActionType::DrawDimension,
        DrawingTool::DimensionRadius => ActionType::DrawDimensionRadius,
        DrawingTool::DimensionDiameter => ActionType::DrawDimensionDiameter,
    }
}

/// A tool and the action kind it carries out have the same name and the
/// same keyboard shortcut.
pub proof fn lemma_tools_match_actions(t: DrawingTool)
    ensures
        tool_name(t) == action_name(tool_action(t)),
        tool_shortcut(t) == action_shortcut(tool_action(t)),
{
}

/// How a line typed on the command line is read.
#[derive(Debug, Clone, PartialEq, Eq)]
pub enum CommandInput {
    /// Nothing typed: repeat the last command.
    Repeat,
    /// A command.
    Run(Command),
    /// `ESC`: cancel the current operation.
    Cancel,
    /// A name that is not a command.
    Unknown,
}

/// Whether a text, upper-cased, names the radius or diameter sub-command
/// of the dimension tool.
pub open spec fn is_dimension_sub(u: Seq<char>) -> bool {
    u == "R"@ || u == "RADIUS"@ || u == "D"@ || u == "DIAMETER"@
}

fn is_name(u: &[char], a: &str) -> (r: bool)
    ensures
        r == (u@ == a@),
{
    let ac = chars_of(a);
    chars_eq(u, ac.as_slice())
}

/// The command an upper-cased name stands for.
fn command_named(u: &[char]) -> (r: Option<Command>)
    ensures
        r == named_command(u@),
{
    if is_name(u, "L") || is_name(u, "LINE") {
        Some(Command::SetTool(DrawingTool::Line))
    } else if is_name(u, "C") || is_name(u, "CIRCLE") {
        Some(Command::SetTool(DrawingTool::Circle))
    } else if is_name(u, "A") || is_name(u, "ARC") {
        Some(Command::SetTool(DrawingTool::Arc))
    } else if is_name(u, "P") || is_name(u, "PL") || is_name(u, "PLINE") || is_name(u, "POLYLINE") {
        Some(Command::SetTool(DrawingTool::Polyline))
    } else if is_name(u, "R") || is_name(u, "REC") || is_name(u, "RECTANGLE") {
        Some(Command::SetTool(DrawingTool::Rectangle))
    } else if is_name(u, "T") || is_name(u, "TEXT") || is_name(u, "DTEXT") || is_name(u, "MTEXT") {
        Some(Command::SetTool(DrawingTool::Text))
    } else if is_name(u, "D") || is_name(u, "DIM") || is_name(u, "DIMENSION") || is_name(
        u,
        "DIMLINEAR",
    ) || is_name(u, "DIMALIGNED") {
        Some(Command::SetTool(DrawingTool::Dimension))
    } else if is_name(u, "DRA") || is_name(u, "DIMRADIUS") {
        Some(Command::SetTool(DrawingTool::DimensionRadius))
    } else if is_name(u, "DDI") || is_name(u, "DIMDIAMETER") {
        Some(Command::SetTool(DrawingTool::DimensionDiameter))
    } else if is_name(u, "E") || is_name(u, "ERASE") || is_name(u, "DELETE") {
        Some(Command::DeleteSelected)
    } else if is_name(u, "M") || is_name(u, "MOVE") {
        Some(Command::Move)
    } else if is_name(u, "CO") || is_name(u, "COPY") {
        Some(Command::Copy)
    } else if is_name(u, "RO") || is_name(u, "ROTATE") {
        Some(Command::Rotate)
    } else if is_name(u, "SC") || is_name(u, "SCALE") {
        Some(Command::Scale)
    } else if is_name(u, "MI") || is_name(u, "MIRROR") {
        Some(Command::Mirror)
    } else if is_name(u, "Z") || is_name(u, "ZOOM") || is_name(u, "ZE") || is_name(
        u,
        "ZOOM EXTENTS",
    ) {
        Some(Command::ZoomExtents)
    } else if is_name(u, "U") || is_name(u, "UNDO") {
        Some(Command::Undo)
    } else if is_name(u, "REDO") {
        Some(Command::Redo)
    } else if is_name(u, "EXPORT") || is_name(u, "DXFOUT") {
        Some(Command::ExportDxf)
    } else {
        None
    }
}

/// Reads a line typed on the command line, given the tool being drawn
/// with, if any: empty means repeat; while drawing, the radius and diameter
/// sub-commands of the dimension tool and anything that looks like data
/// are data (the trimmed text); otherwise the command named, in any case.
pub fn read_command(input: &str, drawing: Option<DrawingTool>) -> (r: CommandInput)
    ensures
        ({
            let t = trimmed(input@);
            let u = spec_to_uppercase(t);
            if t.len() == 0 {
                r is Repeat
            } else if (drawing == Some(DrawingTool::Dimension) && is_dimension_sub(u)) || (
            drawing is Some && looks_like_data(t)) {
                r matches CommandInput::Run(Command::DataInput(d)) && d@ == t
            } else if u == "ESC"@ {
                r is Cancel
            } else {
                match named_command(u) {
                    Some(c) => r == CommandInput::Run(c),
                    None => r is Unknown,
                }
            }
        }),
{
    let cs = chars_of(input);
    let t = trim_chars(cs.as_slice());
    if t.len() == 0 {
        return CommandInput::Repeat;
    }
    let text = crate::text::string_of(t.as_slice());
    let upper = to_uppercase(text.as_str());
    let u = chars_of(upper.as_str());
    if let Some(tool) = drawing {
        if tool == DrawingTool::Dimension {
            if is_name(u.as_slice(), "R") || is_name(u.as_slice(), "RADIUS") || is_name(
                u.as_slice(),
                "D",
            ) || is_name(u.as_slice(), "DIAMETER") {
                return CommandInput::Run(Command::DataInput(text));
            }
        }
        if looks_like_data_input(text.as_str()) {
            return CommandInput::Run(Command::DataInput(text));
        }
    }
    if is_name(u.as_slice(), "ESC") {
        return CommandInput::Cancel;
    }
    match command_named(u.as_slice()) {
        Some(c) => CommandInput::Run(c),
        None => CommandInput::Unknown,
    }
}

} // verus!
