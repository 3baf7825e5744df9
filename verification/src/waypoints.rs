//! The positions that the player has marked.

use vstd::prelude::*;
use crate::coordinates::PlayerCoordinates;

verus! {

/// The marked positions: so far only the one marked last.
#[derive(Clone, Copy, Debug, PartialEq, Eq, Structural)]
pub struct WaypointSave {
    pub most_recent: Option<PlayerCoordinates>,
}

impl Default for WaypointSave {
    /// No position marked.
    fn default() -> (waypoints: Self)
        ensures
            waypoints.most_recent is None,
    {
        WaypointSave { most_recent: None }
    }
}

} // verus!
