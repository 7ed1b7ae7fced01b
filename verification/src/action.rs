//! Action kinds, mouse buttons and the generic undo/redo history that the
//! drawing tools keep.

use vstd::prelude::*;

verus! {

/// Kind of interactive action.
#[derive(Debug, Clone, Copy, PartialEq, Eq, Structural, Hash)]
pub enum ActionType {
    Select,
    DrawLine,
    DrawCircle,
    DrawArc,
    DrawPolyline,
    DrawRectangle,
    DrawPoint,
    DrawText,
    DrawDimension,
    DrawDimensionRadius,
    DrawDimensionDiameter,
    Move,
    Copy,
    Rotate,
    Scale,
    Mirror,
    Erase,
    NoAction,
}

/// Display name of an action kind.
pub open spec fn action_name(a: ActionType) -> Seq<char> {
    match a {
        ActionType::Select => "Select"@,
        ActionType::DrawLine => "Line"@,
        ActionType::DrawCircle => "Circle"@,
        ActionType::DrawArc => "Arc"@,
        ActionType::DrawPolyline => "Polyline"@,
        ActionType::DrawRectangle => "Rectangle"@,
        ActionType::DrawPoint => "Point"@,
        ActionType::DrawText => "Text"@,
        ActionType::DrawDimension => "Dimension"@,
        ActionType::DrawDimensionRadius => "Radius Dimension"@,
        ActionType::DrawDimensionDiameter => "Diameter Dimension"@,
        ActionType::Move => "Move"@,
        ActionType::Copy => "Copy"@,
        ActionType::Rotate => "Rotate"@,
        ActionType::Scale => "Scale"@,
        ActionType::Mirror => "Mirror"@,
        ActionType::Erase => "Erase"@,
        ActionType::NoAction => "None"@,
    }
}

/// Keyboard shortcut of an action kind, if it has one.
pub open spec fn action_shortcut(a: ActionType) -> Option<Seq<char>> {
    match a {
        ActionType::Select => Some("Space"@),
        ActionType::DrawLine => Some("L"@),
        ActionType::DrawCircle => Some("C"@),
        ActionType::DrawArc => Some("A"@),
        ActionType::DrawPolyline => Some("P"@),
        ActionType::DrawRectangle => Some("R"@),
        ActionType::DrawPoint => Some("."@),
        ActionType::DrawText => Some("T"@),
        ActionType::DrawDimension => Some("D"@),
        ActionType::DrawDimensionRadius => Some("DRA"@),
        ActionType::DrawDimensionDiameter => Some("DDI"@),
        ActionType::Move => Some("M"@),
        ActionType::Copy => Some("CO"@),
        ActionType::Rotate => Some("RO"@),
        ActionType::Scale => Some("SC"@),
        ActionType::Mirror => Some("MI"@),
        ActionType::Erase => Some("E"@),
        ActionType::NoAction => None,
    }
}

/// The length, first and last character of the shortcut of a value.
spec fn action_shortcut_sig(a: ActionType) -> (nat, char, char) {
    match a {
        ActionType::Select => (5, 'S', 'e'),
        ActionType::DrawLine => (1, 'L', 'L'),
        ActionType::DrawCircle => (1, 'C', 'C'),
        ActionType::DrawArc => (1, 'A', 'A'),
        ActionType::DrawPolyline => (1, 'P', 'P'),
        ActionType::DrawRectangle => (1, 'R', 'R'),
        ActionType::DrawPoint => (1, '.', '.'),
        ActionType::DrawText => (1, 'T', 'T'),
        ActionType::DrawDimension => (1, 'D', 'D'),
        ActionType::DrawDimensionRadius => (3, 'D', 'A'),
        ActionType::DrawDimensionDiameter => (3, 'D', 'I'),
        ActionType::Move => (1, 'M', 'M'),
        ActionType::Copy => (2, 'C', 'O'),
        ActionType::Rotate => (2, 'R', 'O'),
        ActionType::Scale => (2, 'S', 'C'),
        ActionType::Mirror => (2, 'M', 'I'),
        ActionType::Erase => (1, 'E', 'E'),
        ActionType::NoAction => (0, ' ', ' '),
    }
}

proof fn lemma_action_shortcut_sig(a: ActionType)
    ensures
        action_shortcut(a) is Some ==> action_shortcut(a)->0.len() == action_shortcut_sig(a).0 && action_shortcut(a)->0[0] == action_shortcut_sig(a).1
            && action_shortcut(a)->0[action_shortcut(a)->0.len() - 1] == action_shortcut_sig(a).2,
{
    match a {
        ActionType::Select => {
            reveal_strlit("Space");
        },
        ActionType::DrawLine => {
            reveal_strlit("L");
        },
        ActionType::DrawCircle => {
            reveal_strlit("C");
        },
        ActionType::DrawArc => {
            reveal_strlit("A");
        },
        ActionType::DrawPolyline => {
            reveal_strlit("P");
        },
        ActionType::DrawRectangle => {
            reveal_strlit("R");
        },
        ActionType::DrawPoint => {
            reveal_strlit(".");
        },
        ActionType::DrawText => {
            reveal_strlit("T");
        },
        ActionType::DrawDimension => {
            reveal_strlit("D");
        },
        ActionType::DrawDimensionRadius => {
            reveal_strlit("DRA");
        },
        ActionType::DrawDimensionDiameter => {
            reveal_strlit("DDI");
        },
        ActionType::Move => {
            reveal_strlit("M");
        },
        ActionType::Copy => {
            reveal_strlit("CO");
        },
        ActionType::Rotate => {
            reveal_strlit("RO");
        },
        ActionType::Scale => {
            reveal_strlit("SC");
        },
        ActionType::Mirror => {
            reveal_strlit("MI");
        },
        ActionType::Erase => {
            reveal_strlit("E");
        },
        ActionType::NoAction => {},
    }
}

/// Only `NoAction` has no shortcut, and no two action kinds share one.
pub proof fn lemma_action_shortcuts_distinct(a: ActionType, b: ActionType)
    requires
        a != b,
    ensures
        action_shortcut(a) is None <==> a == ActionType::NoAction,
        action_shortcut(a) is Some && action_shortcut(b) is Some ==> action_shortcut(a)->0 != action_shortcut(b)->0,
{
    lemma_action_shortcut_sig(a);
    lemma_action_shortcut_sig(b);
}

impl ActionType {
    pub fn name(&self) -> (r: &'static str)
        ensures
            r@ == action_name(*self),
    {
        match self {
            ActionType::Select => "Select",
            ActionType::DrawLine => "Line",
            ActionType::DrawCircle => "Circle",
            ActionType::DrawArc => "Arc",
            ActionType::DrawPolyline => "Polyline",
            ActionType::DrawRectangle => "Rectangle",
            ActionType::DrawPoint => "Point",
            ActionType::DrawText => "Text",
            ActionType::DrawDimension => "Dimension",
            ActionType::DrawDimensionRadius => "Radius Dimension",
            ActionType::DrawDimensionDiameter => "Diameter Dimension",
            ActionType::Move => "Move",
            ActionType::Copy => "Copy",
            ActionType::Rotate => "Rotate",
            ActionType::Scale => "Scale",
            ActionType::Mirror => "Mirror",
            ActionType::Erase => "Erase",
            ActionType::NoAction => "None",
        }
    }

    pub fn shortcut(&self) -> (r: Option<&'static str>)
        ensures
            match action_shortcut(*self) {
                Some(s) => r matches Some(x) && x@ == s,
                None => r is None,
            },
    {
        match self {
            ActionType::Select => Some("Space"),
            ActionType::DrawLine => Some("L"),
            ActionType::DrawCircle => Some("C"),
            ActionType::DrawArc => Some("A"),
            ActionType::DrawPolyline => Some("P"),
            ActionType::DrawRectangle => Some("R"),
            ActionType::DrawPoint => Some("."),
            ActionType::DrawText => Some("T"),
            ActionType::DrawDimension => Some("D"),
            ActionType::DrawDimensionRadius => Some("DRA"),
            ActionType::DrawDimensionDiameter => Some("DDI"),
            ActionType::Move => Some("M"),
            ActionType::Copy => Some("CO"),
            ActionType::Rotate => Some("RO"),
            ActionType::Scale => Some("SC"),
            ActionType::Mirror => Some("MI"),
            ActionType::Erase => Some("E"),
            ActionType::NoAction => None,
        }
    }
}

/// What a tool is told about the pointer and the drawing when an event
/// arrives.
pub struct ActionContext<'a, P, Id, E> {
    /// The pointer in world coordinates.
    pub mouse_pos: P,
    /// The snapped point, if the pointer snapped to one.
    pub snap_pos: Option<P>,
    /// The entities selected now.
    pub selected_entities: &'a [Id],
    /// All entities, for snapping.
    pub entities: &'a [E],
    /// Whether orthogonal mode is on.
    pub ortho_mode: bool,
    /// The point relative coordinates refer to, if any.
    pub reference_point: Option<P>,
}

impl<'a, P: Copy, Id, E> ActionContext<'a, P, Id, E> {
    /// The point to use: the snapped point when there is one, else the
    /// pointer.
    pub fn effective_point(&self) -> (p: P)
        ensures
            p == (match self.snap_pos {
                Some(s) => s,
                None => self.mouse_pos,
            }),
    {
        match self.snap_pos {
            Some(s) => s,
            None => self.mouse_pos,
        }
    }
}

/// Mouse button of a click event.
#[derive(Debug, Clone, Copy, PartialEq, Eq, Structural)]
pub enum MouseButton {
    Left,
    Right,
    Middle,
}

/// One entry of an action history.
#[derive(Debug, Clone)]
pub struct ActionHistoryItem<T> {
    pub data: T,
}

/// Linear undo/redo history: a list of entries and a cursor on the entry
/// that was applied last (-1 when none is).
#[derive(Debug, Clone)]
pub struct ActionHistory<T> {
    items: Vec<ActionHistoryItem<T>>,
    index: i32,
}

impl<T> ActionHistory<T> {
    /// The cursor lies within the entries.
    pub closed spec fn wf(self) -> bool {
        &&& -1 <= self.index
        &&& self.index < self.items.len()
        &&& self.items.len() <= i32::MAX
    }

    /// The recorded entries, oldest first.
    pub closed spec fn entries(self) -> Seq<T> {
        self.items@.map_values(|it: ActionHistoryItem<T>| it.data)
    }

    /// Position of the entry applied last; -1 when nothing is applied.
    pub closed spec fn cursor(self) -> int {
        self.index as int
    }

    /// The history after one undo step.
    pub closed spec fn undone(self) -> Self {
        if self.index >= 0 {
            ActionHistory { items: self.items, index: (self.index - 1) as i32 }
        } else {
            self
        }
    }

    /// The history after one redo step.
    pub closed spec fn redone(self) -> Self {
        if self.index + 1 < self.items.len() {
            ActionHistory { items: self.items, index: (self.index + 1) as i32 }
        } else {
            self
        }
    }

    /// Undoing a step and redoing it restores the history and hands back the
    /// same entry both times.
    pub proof fn lemma_undo_then_redo(self)
        requires
            self.wf(),
            self.cursor() >= 0,
        ensures
            self.undone().redone() == self,
            self.undone().cursor() + 1 < self.undone().entries().len(),
            self.undone().entries()[self.undone().cursor() + 1] == self.entries()[self.cursor()],
    {
    }

    /// Redoing a step and undoing it restores the history and hands back the
    /// same entry both times.
    pub proof fn lemma_redo_then_undo(self)
        requires
            self.wf(),
            self.cursor() + 1 < self.entries().len(),
        ensures
            self.redone().undone() == self,
            self.redone().cursor() >= 0,
            self.redone().entries()[self.redone().cursor()] == self.entries()[self.cursor() + 1],
    {
    }

    /// A well-formed history has its cursor within the entries.
    pub proof fn lemma_wf(self)
        requires
            self.wf(),
        ensures
            -1 <= self.cursor() < self.entries().len(),
            self.entries().len() <= i32::MAX,
    {
    }

    pub fn new() -> (h: Self)
        ensures
            h.entries() == Seq::<T>::empty(),
            h.cursor() == -1,
            h.wf(),
    {
        let h = Self { items: Vec::new(), index: -1 };
        assert(h.entries() =~= Seq::<T>::empty());
        h
    }

    /// Records a new entry after the cursor, dropping the entries that could
    /// have been redone.
    pub fn push(&mut self, data: T)
        requires
            old(self).wf(),
            old(self).cursor() + 1 < i32::MAX,
        ensures
            final(self).entries() == old(self).entries().take(old(self).cursor() + 1).push(data),
            final(self).cursor() == old(self).cursor() + 1,
            final(self).wf(),
            final(self).entries()[final(self).cursor()] == data,
            final(self).cursor() + 1 == final(self).entries().len(),
            final(self).cursor() >= 0,
    {
        let new_len = (self.index + 1) as usize;
        let ghost before = self.entries();
        let mut items: Vec<ActionHistoryItem<T>> = Vec::new();
        std::mem::swap(&mut items, &mut self.items);
        items.truncate(new_len);
        items.push(ActionHistoryItem { data });
        let idx = (items.len() - 1) as i32;
        *self = ActionHistory { items, index: idx };
        proof {
            assert(self.entries() =~= before.take(new_len as int).push(data));
        }
    }

    pub fn can_undo(&self) -> (r: bool)
        requires
            self.wf(),
        ensures
            r == (self.cursor() >= 0),
    {
        self.index >= 0
    }

    pub fn can_redo(&self) -> (r: bool)
        requires
            self.wf(),
        ensures
            r == (self.cursor() + 1 < self.entries().len()),
    {
        (self.index + 1) < self.items.len() as i32
    }

    /// Steps the cursor back and returns the entry it leaves, if any.
    pub fn undo(&mut self) -> (r: Option<&T>)
        requires
            old(self).wf(),
        ensures
            final(self).entries() == old(self).entries(),
            *final(self) == old(self).undone(),
            old(self).cursor() >= 0 ==> final(self).cursor() == old(self).cursor() - 1 && r
                == Some(&old(self).entries()[old(self).cursor()]),
            old(self).cursor() < 0 ==> *final(self) == *old(self) && r is None,
            final(self).wf(),
    {
        if self.can_undo() {
            let i = self.index as usize;
            self.index = self.index - 1;
            Some(&self.items[i].data)
        } else {
            None
        }
    }

    /// Steps the cursor forward and returns the entry it reaches, if any.
    pub fn redo(&mut self) -> (r: Option<&T>)
        requires
            old(self).wf(),
        ensures
            final(self).entries() == old(self).entries(),
            *final(self) == old(self).redone(),
            old(self).cursor() + 1 < old(self).entries().len() ==> final(self).cursor() == old(self).cursor() + 1 && r == Some(&old(self).entries()[old(self).cursor() + 1]),
            old(self).cursor() + 1 >= old(self).entries().len() ==> *final(self) == *old(self) && r is None,
            final(self).wf(),
    {
        if self.can_redo() {
            self.index = self.index + 1;
            Some(&self.items[self.index as usize].data)
        } else {
            None
        }
    }

    /// The entry applied last, if any.
    pub fn current(&self) -> (r: Option<&T>)
        requires
            self.wf(),
        ensures
            r is Some <==> self.cursor() >= 0,
            self.cursor() >= 0 ==> r == Some(&self.entries()[self.cursor()]),
            self.cursor() < 0 ==> r is None,
    {
        if self.index >= 0 {
            Some(&self.items[self.index as usize].data)
        } else {
            None
        }
    }

    pub fn len(&self) -> (r: usize)
        requires
            self.wf(),
        ensures
            r == self.entries().len(),
    {
        self.items.len()
    }

    pub fn is_empty(&self) -> (r: bool)
        ensures
            r == (self.entries().len() == 0),
    {
        self.items.len() == 0
    }

    pub fn clear(&mut self)
        ensures
            final(self).entries() == Seq::<T>::empty(),
            final(self).cursor() == -1,
            final(self).wf(),
    {
        *self = ActionHistory { items: Vec::new(), index: -1 };
        assert(self.entries() =~= Seq::<T>::empty());
    }
}

} // verus!
