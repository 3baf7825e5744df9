//! A plugin made for one game by hand, Sekiro: the probed instruction reads the
//! player position through `rcx`, 128 bytes into the structure it points to.

use vstd::prelude::*;
use vstd::string::StringExecFns;
use vstd::wrapping::u64_specs;
use crate::config::{PluginIdentifiers, PluginIdentifiersView};
use crate::coordinates::{CoordinateAddresses, CoordinateWrite, PlayerCoordinates, field_address};
use crate::error::SkipError;
use crate::plugin::StartAction;
use crate::registers::{RegisterSnapshot, as_address, to_address};
use crate::slot::{PointerSlot, PointerUpdate, published};

verus! {

/// The signature of the instruction that reads from the player position and
/// from nothing else.
pub const READ_FROM_COORDS_SIG: &'static str = "0F 28 81 80 00 00 00 4D";

/// The address of the player position that a hit with the registers `ctx` shows.
pub open spec fn position_address(ctx: RegisterSnapshot) -> usize {
    as_address(u64_specs::wrapping_add(ctx.rcx, 0x80))
}

/// Where the coordinates of the position at `position` lie: `x` first, then
/// `z`, then `y`, four bytes each.
pub open spec fn layout(position: usize) -> CoordinateAddresses {
    CoordinateAddresses {
        x: position,
        y: field_address(position, 8),
        z: field_address(position, 4),
    }
}

fn locate_fields(position: usize) -> (at: CoordinateAddresses)
    ensures
        at == layout(position),
{
    CoordinateAddresses {
        x: position,
        y: position.wrapping_add_signed(8),
        z: position.wrapping_add_signed(4),
    }
}

/// The probe of the Sekiro plugin.
#[derive(Clone, Copy, Debug, PartialEq, Eq, Structural)]
pub struct SekiroCoordinatesIntercept {}

impl SekiroCoordinatesIntercept {
    /// Handles one hit: publishes the address of the player position into
    /// `slot` where it differs from what the slot holds. The result is the
    /// change to report, if any.
    pub fn on_hit(&self, ctx: &RegisterSnapshot, slot: &mut PointerSlot) -> (update: Option<
        PointerUpdate,
    >)
        ensures
            (final(slot)@, update) == published(old(slot)@, position_address(*ctx)),
    {
        let coords = to_address(ctx.rcx.wrapping_add(0x80));
        slot.publish(coords)
    }
}

/// The state of a [`SekiroPlugin`], as plain values.
pub ghost struct SekiroView {
    /// The discovered address of the player position.
    pub slot: Option<usize>,
    /// Whether the probe is attached.
    pub attached: bool,
}

impl SekiroView {
    /// State and answer of `start`, given what the scan for the signature came to.
    pub open spec fn started(self, found: Result<usize, SkipError>) -> (
        SekiroView,
        Result<StartAction, SkipError>,
    ) {
        match found {
            Ok(address) => (SekiroView { attached: true, ..self }, Ok(StartAction::AttachProbe(address))),
            Err(e) => (self, Err(e)),
        }
    }

    /// State and report after one hit of the probe; before the probe is
    /// attached there are no hits to handle.
    pub open spec fn after_hit(self, ctx: RegisterSnapshot) -> (SekiroView, Option<PointerUpdate>) {
        if self.attached {
            (
                SekiroView { slot: published(self.slot, position_address(ctx)).0, ..self },
                published(self.slot, position_address(ctx)).1,
            )
        } else {
            (self, None)
        }
    }

    /// Where the coordinates are to be read.
    pub open spec fn read_plan(self) -> Option<CoordinateAddresses> {
        match self.slot {
            Some(position) => Some(layout(position)),
            None => None,
        }
    }

    /// Where `coordinates` are to be written, or the refusal as long as the
    /// position is not known.
    pub open spec fn write_plan(self, coordinates: PlayerCoordinates) -> Result<
        CoordinateWrite,
        SkipError,
    > {
        match self.slot {
            Some(position) => Ok(CoordinateWrite { at: layout(position), coordinates }),
            None => Err(SkipError::PointerNotInitialized),
        }
    }
}

/// What the Sekiro plugin is recognised by.
pub open spec fn sekiro_identifiers() -> PluginIdentifiersView {
    PluginIdentifiersView {
        plugin_name: "Sekiro Skip Runback"@,
        expected_module: Some("sekiro.exe"@),
        expected_exe_name: Some("sekiro.exe"@),
    }
}

/// The plugin for Sekiro.
#[derive(Debug)]
pub struct SekiroPlugin {
    coords: PointerSlot,
    listener: Option<SekiroCoordinatesIntercept>,
}

impl View for SekiroPlugin {
    type V = SekiroView;

    closed spec fn view(&self) -> SekiroView {
        SekiroView { slot: self.coords@, attached: self.listener is Some }
    }
}

impl SekiroPlugin {
    /// A plugin that has not started yet.
    pub fn new() -> (plugin: Self)
        ensures
            plugin@ == (SekiroView { slot: None, attached: false }),
    {
        SekiroPlugin { coords: PointerSlot::new(), listener: None }
    }

    /// The names by which the plugin recognises its process.
    pub fn identifiers(&self) -> (identifiers: PluginIdentifiers)
        ensures
            identifiers@ == sekiro_identifiers(),
    {
        PluginIdentifiers {
            plugin_name: String::from_str("Sekiro Skip Runback"),
            expected_module: Some(String::from_str("sekiro.exe")),
            expected_exe_name: Some(String::from_str("sekiro.exe")),
        }
    }

    /// The discovered address of the player position, if any.
    pub fn coords(&self) -> (address: Option<usize>)
        ensures
            address == self@.slot,
    {
        self.coords.get()
    }

    /// Starts the plugin. `found` is what the host's scan for
    /// [`READ_FROM_COORDS_SIG`] came to; on success the host attaches the probe
    /// there. A failed scan leaves the plugin as it was.
    pub fn start(&mut self, found: Result<usize, SkipError>) -> (action: Result<
        StartAction,
        SkipError,
    >)
        ensures
            (final(self)@, action) == old(self)@.started(found),
    {
        match found {
            Ok(address) => {
                self.listener = Some(SekiroCoordinatesIntercept {  });
                Ok(StartAction::AttachProbe(address))
            },
            Err(e) => Err(e),
        }
    }

    /// Handles one hit of the attached probe with the registers `ctx`.
    pub fn on_probe_hit(&mut self, ctx: &RegisterSnapshot) -> (update: Option<PointerUpdate>)
        ensures
            (final(self)@, update) == old(self)@.after_hit(*ctx),
    {
        match &self.listener {
            Some(probe) => probe.on_hit(ctx, &mut self.coords),
            None => None,
        }
    }

    /// Where the host finds the current coordinates; nowhere as long as the
    /// position is not known.
    pub fn get_current_coordinates(&self) -> (at: Option<CoordinateAddresses>)
        ensures
            at == self@.read_plan(),
    {
        match self.coords.get() {
            Some(position) => Some(locate_fields(position)),
            None => None,
        }
    }

    /// What the host has to write where, to make `target` the current
    /// coordinates; a failure as long as the position is not known.
    pub fn set_current_coordinates(&self, target: PlayerCoordinates) -> (write: Result<
        CoordinateWrite,
        SkipError,
    >)
        ensures
            write == self@.write_plan(target),
    {
        match self.coords.get() {
            Some(position) => Ok(CoordinateWrite { at: locate_fields(position), coordinates: target }),
            None => Err(SkipError::PointerNotInitialized),
        }
    }
}

} // verus!
