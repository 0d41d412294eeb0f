use vstd::prelude::*;
use crate::tray_icon_id::TrayIconId;

verus! {

/// Whether the mouse button went up or down.
#[derive(Debug, Clone, Copy, PartialEq, Eq, Structural)]
pub enum MouseButtonState {
    Up,
    Down,
}

impl Default for MouseButtonState {
    fn default() -> (r: MouseButtonState)
        ensures
            r == MouseButtonState::Up,
    {
        MouseButtonState::Up
    }
}

/// Which mouse button was used.
#[derive(Debug, Clone, Copy, PartialEq, Eq, Structural)]
pub enum MouseButton {
    Left,
    Right,
    Middle,
}

impl Default for MouseButton {
    fn default() -> (r: MouseButton)
        ensures
            r == MouseButton::Left,
    {
        MouseButton::Left
    }
}

/// A point on the screen, in physical pixels.
#[derive(Debug, Clone, Copy, PartialEq, Eq, Structural)]
pub struct Position {
    pub x: i32,
    pub y: i32,
}

impl Default for Position {
    fn default() -> (r: Position)
        ensures
            r == (Position { x: 0, y: 0 }),
    {
        Position { x: 0, y: 0 }
    }
}

/// A width and a height, in physical pixels.
#[derive(Debug, Clone, Copy, PartialEq, Eq, Structural)]
pub struct Size {
    pub width: u32,
    pub height: u32,
}

impl Default for Size {
    fn default() -> (r: Size)
        ensures
            r == (Size { width: 0, height: 0 }),
    {
        Size { width: 0, height: 0 }
    }
}

/// Where a tray icon stands on the screen and how large it is.
#[derive(Debug, Clone, Copy, PartialEq, Eq, Structural)]
pub struct Rect {
    pub size: Size,
    pub position: Position,
}

impl Default for Rect {
    /// A zero-sized rectangle at the origin.
    fn default() -> (r: Rect)
        ensures
            r == (Rect { size: Size { width: 0, height: 0 }, position: Position { x: 0, y: 0 } }),
    {
        Rect { size: Size { width: 0, height: 0 }, position: Position { x: 0, y: 0 } }
    }
}

/// Something that happened to a tray icon.
#[non_exhaustive]
#[derive(Debug)]
pub enum TrayIconEvent {
    /// A click on the tray icon.
    Click {
        id: TrayIconId,
        position: Position,
        rect: Rect,
        button: MouseButton,
        button_state: MouseButtonState,
    },
    /// A double click on the tray icon.
    DoubleClick { id: TrayIconId, position: Position, rect: Rect, button: MouseButton },
    /// The mouse entered the tray icon's region.
    Enter { id: TrayIconId, position: Position, rect: Rect },
    /// The mouse moved over the tray icon's region.
    Move { id: TrayIconId, position: Position, rect: Rect },
    /// The mouse left the tray icon's region.
    Leave { id: TrayIconId, position: Position, rect: Rect },
}

impl TrayIconEvent {
    /// The identifier of the icon that the event came from, whatever its kind.
    pub open spec fn spec_id(&self) -> TrayIconId {
        match self {
            TrayIconEvent::Click { id, .. } => *id,
            TrayIconEvent::DoubleClick { id, .. } => *id,
            TrayIconEvent::Enter { id, .. } => *id,
            TrayIconEvent::Move { id, .. } => *id,
            TrayIconEvent::Leave { id, .. } => *id,
        }
    }

    /// The cursor position at the time of the event.
    pub open spec fn spec_position(&self) -> Position {
        match self {
            TrayIconEvent::Click { position, .. } => *position,
            TrayIconEvent::DoubleClick { position, .. } => *position,
            TrayIconEvent::Enter { position, .. } => *position,
            TrayIconEvent::Move { position, .. } => *position,
            TrayIconEvent::Leave { position, .. } => *position,
        }
    }

    /// The icon's bounds at the time of the event.
    pub open spec fn spec_rect(&self) -> Rect {
        match self {
            TrayIconEvent::Click { rect, .. } => *rect,
            TrayIconEvent::DoubleClick { rect, .. } => *rect,
            TrayIconEvent::Enter { rect, .. } => *rect,
            TrayIconEvent::Move { rect, .. } => *rect,
            TrayIconEvent::Leave { rect, .. } => *rect,
        }
    }

    /// Returns the id of the tray icon which triggered this event.
    pub fn id(&self) -> (r: &TrayIconId)
        ensures
            *r == self.spec_id(),
    {
        match self {
            TrayIconEvent::Click { id, .. } => id,
            TrayIconEvent::DoubleClick { id, .. } => id,
            TrayIconEvent::Enter { id, .. } => id,
            TrayIconEvent::Move { id, .. } => id,
            TrayIconEvent::Leave { id, .. } => id,
        }
    }

    /// The cursor position at the time of the event.
    pub fn position(&self) -> (r: Position)
        ensures
            r == self.spec_position(),
    {
        match self {
            TrayIconEvent::Click { position, .. } => *position,
            TrayIconEvent::DoubleClick { position, .. } => *position,
            TrayIconEvent::Enter { position, .. } => *position,
            TrayIconEvent::Move { position, .. } => *position,
            TrayIconEvent::Leave { position, .. } => *position,
        }
    }

    /// The icon's bounds at the time of the event.
    pub fn rect(&self) -> (r: Rect)
        ensures
            r == self.spec_rect(),
    {
        match self {
            TrayIconEvent::Click { rect, .. } => *rect,
            TrayIconEvent::DoubleClick { rect, .. } => *rect,
            TrayIconEvent::Enter { rect, .. } => *rect,
            TrayIconEvent::Move { rect, .. } => *rect,
            TrayIconEvent::Leave { rect, .. } => *rect,
        }
    }

    /// The two events are of one kind and agree on every field, the
    /// identifiers compared by their text.
    pub open spec fn same_as_spec(&self, o: &TrayIconEvent) -> bool {
        match (self, o) {
            (
                TrayIconEvent::Click { id: a, position: p, rect: r, button: b, button_state: s },
                TrayIconEvent::Click { id: other_a, position: other_p, rect: other_r, button: other_b, button_state: other_s },
            ) => a.0@ == other_a.0@ && p == other_p && r == other_r && b == other_b && s == other_s,
            (
                TrayIconEvent::DoubleClick { id: a, position: p, rect: r, button: b },
                TrayIconEvent::DoubleClick { id: other_a, position: other_p, rect: other_r, button: other_b },
            ) => a.0@ == other_a.0@ && p == other_p && r == other_r && b == other_b,
            (
                TrayIconEvent::Enter { id: a, position: p, rect: r },
                TrayIconEvent::Enter { id: other_a, position: other_p, rect: other_r },
            ) => a.0@ == other_a.0@ && p == other_p && r == other_r,
            (
                TrayIconEvent::Move { id: a, position: p, rect: r },
                TrayIconEvent::Move { id: other_a, position: other_p, rect: other_r },
            ) => a.0@ == other_a.0@ && p == other_p && r == other_r,
            (
                TrayIconEvent::Leave { id: a, position: p, rect: r },
                TrayIconEvent::Leave { id: other_a, position: other_p, rect: other_r },
            ) => a.0@ == other_a.0@ && p == other_p && r == other_r,
            _ => false,
        }
    }
}

impl Clone for TrayIconEvent {
    fn clone(&self) -> (r: TrayIconEvent)
        ensures
            r.same_as_spec(self),
    {
        match self {
            TrayIconEvent::Click { id, position, rect, button, button_state } => TrayIconEvent::Click {
                id: id.clone(),
                position: *position,
                rect: *rect,
                button: *button,
                button_state: *button_state,
            },
            TrayIconEvent::DoubleClick { id, position, rect, button } => TrayIconEvent::DoubleClick {
                id: id.clone(),
                position: *position,
                rect: *rect,
                button: *button,
            },
            TrayIconEvent::Enter { id, position, rect } => TrayIconEvent::Enter {
                id: id.clone(),
                position: *position,
                rect: *rect,
            },
            TrayIconEvent::Move { id, position, rect } => TrayIconEvent::Move {
                id: id.clone(),
                position: *position,
                rect: *rect,
            },
            TrayIconEvent::Leave { id, position, rect } => TrayIconEvent::Leave {
                id: id.clone(),
                position: *position,
                rect: *rect,
            },
        }
    }
}

impl PartialEq for TrayIconEvent {
    fn eq(&self, o: &TrayIconEvent) -> (r: bool)
        ensures
            r == self.same_as_spec(o),
    {
        match (self, o) {
            (
                TrayIconEvent::Click { id: a, position: p, rect: r, button: b, button_state: s },
                TrayIconEvent::Click { id: other_a, position: other_p, rect: other_r, button: other_b, button_state: other_s },
            ) => a.same_as(other_a) && *p == *other_p && *r == *other_r && *b == *other_b && *s == *other_s,
            (
                TrayIconEvent::DoubleClick { id: a, position: p, rect: r, button: b },
                TrayIconEvent::DoubleClick { id: other_a, position: other_p, rect: other_r, button: other_b },
            ) => a.same_as(other_a) && *p == *other_p && *r == *other_r && *b == *other_b,
            (
                TrayIconEvent::Enter { id: a, position: p, rect: r },
                TrayIconEvent::Enter { id: other_a, position: other_p, rect: other_r },
            ) => a.same_as(other_a) && *p == *other_p && *r == *other_r,
            (
                TrayIconEvent::Move { id: a, position: p, rect: r },
                TrayIconEvent::Move { id: other_a, position: other_p, rect: other_r },
            ) => a.same_as(other_a) && *p == *other_p && *r == *other_r,
            (
                TrayIconEvent::Leave { id: a, position: p, rect: r },
                TrayIconEvent::Leave { id: other_a, position: other_p, rect: other_r },
            ) => a.same_as(other_a) && *p == *other_p && *r == *other_r,
            _ => false,
        }
    }
}

impl vstd::std_specs::cmp::PartialEqSpecImpl for TrayIconEvent {
    open spec fn obeys_eq_spec() -> bool {
        true
    }

    open spec fn eq_spec(&self, o: &TrayIconEvent) -> bool {
        self.same_as_spec(o)
    }
}

} // verus!
