//! Where the panel is docked, and what it tells its dock.

use vstd::prelude::*;

verus! {

/// A side of the window at which a panel is docked.
#[derive(Debug, Clone, Copy, PartialEq, Eq, Structural)]
pub enum DockPosition {
    Left,
    Bottom,
    Right,
}

/// The side at which the settings place the terminal panel.
#[derive(Debug, Clone, Copy, PartialEq, Eq, Structural)]
pub enum TerminalDockPosition {
    Left,
    Bottom,
    Right,
}

/// What the panel tells its dock.
#[derive(Debug, Clone, Copy, PartialEq, Eq, Structural)]
pub enum PanelEvent {
    ZoomIn,
    ZoomOut,
    Close,
}

/// The icons that the panel and the slash command show.
#[derive(Debug, Clone, Copy, PartialEq, Eq, Structural)]
pub enum IconName {
    Library,
    Terminal,
}

/// What the pane tells the panel.
#[derive(Debug, Clone, Copy, PartialEq, Eq, Structural)]
pub enum PaneEvent {
    /// An item was added to the pane.
    AddItem,
    /// An item became the active one.
    ActivateItem,
    /// An item was removed from the pane.
    RemovedItem,
    /// The last item was removed: the pane asks to be closed.
    Remove,
    ZoomIn,
    ZoomOut,
    /// Any other event.
    Other,
}

/// What the panel does on an event of its pane.
#[derive(Debug, Clone, Copy, PartialEq, Eq, Structural)]
pub enum PaneEventAction {
    /// Store the layout of the panel.
    Serialize,
    /// Hand the event on to the dock.
    Emit(PanelEvent),
    /// Tell the new item that it was added to the pane.
    NotifyAddedItem,
    /// Nothing.
    Nothing,
}

/// The dock position for a setting.
pub open spec fn dock_position(dock: TerminalDockPosition) -> DockPosition {
    match dock {
        TerminalDockPosition::Left => DockPosition::Left,
        TerminalDockPosition::Bottom => DockPosition::Bottom,
        TerminalDockPosition::Right => DockPosition::Right,
    }
}

/// The setting for a dock position.
pub open spec fn dock_setting(position: DockPosition) -> TerminalDockPosition {
    match position {
        DockPosition::Left => TerminalDockPosition::Left,
        DockPosition::Bottom => TerminalDockPosition::Bottom,
        DockPosition::Right => TerminalDockPosition::Right,
    }
}

/// What the panel does on `event`: a change of the items is stored, zooming and closing go
/// to the dock, and a new item is told of its pane while the workspace is there.
pub open spec fn pane_event_action(event: PaneEvent, workspace_alive: bool) -> PaneEventAction {
    match event {
        PaneEvent::ActivateItem => PaneEventAction::Serialize,
        PaneEvent::RemovedItem => PaneEventAction::Serialize,
        PaneEvent::Remove => PaneEventAction::Emit(PanelEvent::Close),
        PaneEvent::ZoomIn => PaneEventAction::Emit(PanelEvent::ZoomIn),
        PaneEvent::ZoomOut => PaneEventAction::Emit(PanelEvent::ZoomOut),
        PaneEvent::AddItem => if workspace_alive {
            PaneEventAction::NotifyAddedItem
        } else {
            PaneEventAction::Nothing
        },
        PaneEvent::Other => PaneEventAction::Nothing,
    }
}

} // verus!
