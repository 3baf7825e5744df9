//! What the two actions of the player come to: marking the current position,
//! and going back to the marked one.

use vstd::prelude::*;
use crate::coordinates::{CoordinateAddresses, CoordinateWrite, PlayerCoordinates};
use crate::error::SkipError;
use crate::plugin::StartAction;
use crate::registry::SkipPlugin;
use crate::waypoints::WaypointSave;

verus! {

/// What a request to go back to the marked position comes to.
#[derive(Clone, Copy, Debug, PartialEq, Eq, Structural)]
pub enum Teleport {
    /// No position is marked: nothing to do.
    NoWaypoint,
    /// The plugin refused, most likely because it knows no base address yet:
    /// nothing to do but to say so.
    Refused(SkipError),
    /// The host has to carry out this write.
    Write(CoordinateWrite),
}

/// What the host has to do at the end of one frame.
#[derive(Clone, Copy, Debug, PartialEq, Eq, Structural)]
pub struct FrameActions {
    /// Whether a new mark is to be persisted.
    pub persist: bool,
    /// What the request to go back came to, where there was one.
    pub teleport: Option<Teleport>,
}

/// What a change of configuration means for the console.
#[derive(Clone, Copy, Debug, PartialEq, Eq, Structural)]
pub enum ConsoleChange {
    Open,
    Close,
    Keep,
}

/// Decides what happens to the console where the old configuration asked for
/// one or not, and the new one does or does not.
pub fn console_change(old_console: bool, new_console: bool) -> (change: ConsoleChange)
    ensures
        change == if old_console && !new_console {
            ConsoleChange::Close
        } else if !old_console && new_console {
            ConsoleChange::Open
        } else {
            ConsoleChange::Keep
        },
{
    if old_console && !new_console {
        ConsoleChange::Close
    } else if !old_console && new_console {
        ConsoleChange::Open
    } else {
        ConsoleChange::Keep
    }
}

/// The chosen plugin, started, and the marked positions.
#[derive(Debug)]
pub struct SkipApp {
    pub current_plugin: SkipPlugin,
    pub waypoints: WaypointSave,
}

impl SkipApp {
    /// Starts `plugin` and takes over the positions marked earlier. `found` is
    /// the host's answer to the plugin's [`SkipPlugin::start_query`]. The host
    /// gets back what it has to do for the started plugin. Where the plugin
    /// does not start, there is no application.
    pub fn new(
        waypoints: WaypointSave,
        plugin: SkipPlugin,
        found: Result<usize, SkipError>,
    ) -> (started: Result<(SkipApp, StartAction), SkipError>)
        ensures
            match plugin@.started(found).1 {
                Ok(action) => started matches Ok(pair) && pair.1 == action && pair.0.waypoints
                    == waypoints && pair.0.current_plugin@ == plugin@.started(found).0,
                Err(e) => started matches Err(f) && f == e,
            },
    {
        let mut plugin = plugin;
        match plugin.start(found) {
            Ok(action) => Ok((SkipApp { current_plugin: plugin, waypoints }, action)),
            Err(e) => Err(e),
        }
    }

    /// Where the host finds the coordinates to mark; nowhere as long as the
    /// plugin has not discovered them.
    pub fn waypoint_source(&self) -> (at: Option<CoordinateAddresses>)
        ensures
            at == self.current_plugin@.read_plan(),
    {
        self.current_plugin.get_current_coordinates()
    }

    /// Marks the position `coords`, which the host has read at
    /// [`Self::waypoint_source`]. Without coordinates nothing is marked and the
    /// earlier mark stays. The answer says whether there is a new mark for the
    /// host to persist.
    pub fn save_waypoint(&mut self, coords: Option<PlayerCoordinates>) -> (marked: bool)
        ensures
            marked == coords is Some,
            final(self).current_plugin == old(self).current_plugin,
            final(self).waypoints.most_recent == if coords is Some {
                coords
            } else {
                old(self).waypoints.most_recent
            },
    {
        match coords {
            Some(position) => {
                self.waypoints.most_recent = Some(position);
                true
            },
            None => false,
        }
    }

    /// What a request to go back to the marked position comes to.
    pub open spec fn teleport_outcome(self) -> Teleport {
        match self.waypoints.most_recent {
            None => Teleport::NoWaypoint,
            Some(position) => match self.current_plugin@.write_plan(position) {
                Ok(write) => Teleport::Write(write),
                Err(e) => Teleport::Refused(e),
            },
        }
    }

    /// Asks the plugin to make the marked position the current one.
    pub fn teleport_to_waypoint(&self) -> (outcome: Teleport)
        ensures
            outcome == self.teleport_outcome(),
    {
        match self.waypoints.most_recent {
            None => Teleport::NoWaypoint,
            Some(position) => match self.current_plugin.set_current_coordinates(position) {
                Ok(write) => Teleport::Write(write),
                Err(e) => Teleport::Refused(e),
            },
        }
    }

    /// Handles one frame. `save_pressed` and `teleport_pressed` say which of
    /// the two key combinations are held; `current` is what the host read at
    /// [`Self::waypoint_source`], and counts only where `save_pressed`. The
    /// position is marked first, so that a request to go back in the same frame
    /// goes to the new mark.
    pub fn run(
        &mut self,
        save_pressed: bool,
        current: Option<PlayerCoordinates>,
        teleport_pressed: bool,
    ) -> (actions: FrameActions)
        ensures
            final(self).current_plugin == old(self).current_plugin,
            final(self).waypoints.most_recent == if save_pressed && current is Some {
                current
            } else {
                old(self).waypoints.most_recent
            },
            actions.persist == (save_pressed && current is Some),
            actions.teleport == if teleport_pressed {
                Some(final(self).teleport_outcome())
            } else {
                None
            },
    {
        let persist = if save_pressed {
            self.save_waypoint(current)
        } else {
            false
        };
        let teleport = if teleport_pressed {
            Some(self.teleport_to_waypoint())
        } else {
            None
        };
        FrameActions { persist, teleport }
    }
}

} // verus!
