//! The four colored panels and the model of a panel's presentation state.
//!
//! A panel is "active" while it is highlighted. The host page shows activity
//! through a marker on the panel's presentation attributes; the marker must
//! appear at most once, so the model here is a single flag per panel:
//! marking active twice in a row is the same as marking once, and marking
//! inactive while already inactive changes nothing.

use vstd::prelude::*;

verus! {

/// Identifier of one of the four colored panels.
#[derive(Clone, Copy, Debug, PartialEq, Eq, Structural)]
pub enum PanelId {
    Green,
    Red,
    Yellow,
    Blue,
}

/// The panel whose playback ends the game.
pub const TERMINATING_PANEL: PanelId = PanelId::Blue;

/// Presentation state of the four panels: whether each one currently
/// carries the "active" (highlighted) marker.
#[derive(Clone, Copy, Debug, PartialEq, Eq, Structural)]
pub struct Panels {
    pub green: bool,
    pub red: bool,
    pub yellow: bool,
    pub blue: bool,
}

impl Panels {
    /// Whether the given panel currently carries the active marker.
    pub open spec fn is_active(self, id: PanelId) -> bool {
        match id {
            PanelId::Green => self.green,
            PanelId::Red => self.red,
            PanelId::Yellow => self.yellow,
            PanelId::Blue => self.blue,
        }
    }

    /// The state in which the given panel's marker is set to `on` and the
    /// other panels are unchanged.
    pub open spec fn with_marker(self, id: PanelId, on: bool) -> Panels {
        match id {
            PanelId::Green => Panels { green: on, ..self },
            PanelId::Red => Panels { red: on, ..self },
            PanelId::Yellow => Panels { yellow: on, ..self },
            PanelId::Blue => Panels { blue: on, ..self },
        }
    }

    /// The state in which every panel carries the marker.
    pub open spec fn all_active() -> Panels {
        Panels { green: true, red: true, yellow: true, blue: true }
    }

    /// The state in which no panel carries the marker.
    pub open spec fn all_inactive() -> Panels {
        Panels { green: false, red: false, yellow: false, blue: false }
    }

    /// All four panels start without the marker.
    pub fn new() -> (p: Panels)
        ensures
            p == Panels::all_inactive(),
    {
        Panels { green: false, red: false, yellow: false, blue: false }
    }

    /// Mark the given panel active. The marker appears at most once: marking
    /// an already active panel leaves the state as it is.
    pub fn mark_active(&mut self, id: PanelId)
        ensures
            *final(self) == old(self).with_marker(id, true),
    {
        match id {
            PanelId::Green => self.green = true,
            PanelId::Red => self.red = true,
            PanelId::Yellow => self.yellow = true,
            PanelId::Blue => self.blue = true,
        }
    }

    /// Mark the given panel inactive: the marker is removed if present,
    /// and nothing changes otherwise.
    pub fn mark_inactive(&mut self, id: PanelId)
        ensures
            *final(self) == old(self).with_marker(id, false),
    {
        match id {
            PanelId::Green => self.green = false,
            PanelId::Red => self.red = false,
            PanelId::Yellow => self.yellow = false,
            PanelId::Blue => self.blue = false,
        }
    }

    /// Mark all four panels active at once.
    pub fn mark_all_active(&mut self)
        ensures
            *final(self) == Panels::all_active(),
    {
        self.green = true;
        self.red = true;
        self.yellow = true;
        self.blue = true;
    }

    /// Mark all four panels inactive at once.
    pub fn mark_all_inactive(&mut self)
        ensures
            *final(self) == Panels::all_inactive(),
    {
        self.green = false;
        self.red = false;
        self.yellow = false;
        self.blue = false;
    }
}

/// Law: marking a panel active is idempotent. Marking it twice in a row,
/// without an intervening deactivation, leaves exactly the state that one
/// marking produces — the marker is never duplicated.
pub proof fn lemma_mark_active_idempotent(p: Panels, id: PanelId)
    ensures
        p.with_marker(id, true).with_marker(id, true) == p.with_marker(id, true),
{
}

/// Law: marking a panel inactive while it is already inactive is a no-op.
pub proof fn lemma_mark_inactive_noop(p: Panels, id: PanelId)
    requires
        !p.is_active(id),
    ensures
        p.with_marker(id, false) == p,
{
}

} // verus!
