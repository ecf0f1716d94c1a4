use vstd::prelude::*;

use crate::mission::MissionManager;
use crate::player::Player;

verus! {

/// Which overlays of the heads-up display are shown.
pub struct UIManager {
    show_map: bool,
    show_menu: bool,
    show_objectives: bool,
}

impl UIManager {
    /// Whether the map overlay is shown.
    pub closed spec fn map_shown(&self) -> bool {
        self.show_map
    }

    /// Whether the menu overlay is shown.
    pub closed spec fn menu_shown(&self) -> bool {
        self.show_menu
    }

    /// Whether the objective list is shown.
    pub closed spec fn objectives_shown(&self) -> bool {
        self.show_objectives
    }

    /// A fresh UI: the map and the objectives are shown, the menu is not.
    pub fn new() -> (ui: Self)
        ensures
            ui.map_shown(),
            !ui.menu_shown(),
            ui.objectives_shown(),
    {
        Self { show_map: true, show_menu: false, show_objectives: true }
    }

    /// Flips whether the map is shown; nothing else changes.
    pub fn toggle_map(&mut self)
        ensures
            final(self).map_shown() == !old(self).map_shown(),
            final(self).menu_shown() == old(self).menu_shown(),
            final(self).objectives_shown() == old(self).objectives_shown(),
    {
        self.show_map = !self.show_map;
    }

    /// Flips whether the menu is shown; nothing else changes.
    pub fn toggle_menu(&mut self)
        ensures
            final(self).menu_shown() == !old(self).menu_shown(),
            final(self).map_shown() == old(self).map_shown(),
            final(self).objectives_shown() == old(self).objectives_shown(),
    {
        self.show_menu = !self.show_menu;
    }

    /// The per-frame UI update: no overlay depends on the player or the
    /// missions yet, so nothing changes.
    pub fn update(&mut self, player: &Player, mission_manager: &MissionManager)
        ensures
            final(self).map_shown() == old(self).map_shown(),
            final(self).menu_shown() == old(self).menu_shown(),
            final(self).objectives_shown() == old(self).objectives_shown(),
    {
    }

    /// Whether the map is shown.
    pub fn should_show_map(&self) -> (b: bool)
        ensures
            b == self.map_shown(),
    {
        self.show_map
    }

    /// Whether the menu is shown.
    pub fn should_show_menu(&self) -> (b: bool)
        ensures
            b == self.menu_shown(),
    {
        self.show_menu
    }
}

/// Toggling the map twice leaves every overlay as it was.
pub proof fn lemma_toggle_map_twice(a: UIManager, b: UIManager, c: UIManager)
    requires
        b.map_shown() == !a.map_shown(),
        b.menu_shown() == a.menu_shown(),
        b.objectives_shown() == a.objectives_shown(),
        c.map_shown() == !b.map_shown(),
        c.menu_shown() == b.menu_shown(),
        c.objectives_shown() == b.objectives_shown(),
    ensures
        c == a,
{
}

} // verus!
