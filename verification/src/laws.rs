//! What holds of a plugin over several operations.

use vstd::prelude::*;
use crate::config::{GenericConfigView, PositionView};
use crate::coordinates::{
    CoordinateWrite, PlayerCoordinates, lemma_write_then_read, read_coordinates, write_coordinates,
};
use crate::error::SkipError;
use crate::plugin::{PluginView, ReloadOutcome};
use crate::registers::RegisterSnapshot;
use crate::slot::PointerUpdate;

verus! {

/// Coordinates that were set are the coordinates that are got next: a host that
/// carries out the write which `set` asks for, and then the read which `get`
/// asks for, reads what was written, whatever memory held before. This needs a
/// known base address, and offsets under which no two of the three fields
/// share a byte.
pub proof fn lemma_set_then_get(
    plugin: PluginView,
    memory: Map<int, u8>,
    coordinates: PlayerCoordinates,
)
    requires
        plugin.slot is Some,
        plugin.read_plan()->Some_0.fields_apart(),
    ensures
        plugin.write_plan(coordinates) is Ok,
        plugin.read_plan() is Some,
        read_coordinates(
            write_coordinates(memory, plugin.write_plan(coordinates)->Ok_0),
            plugin.read_plan()->Some_0,
        ) == coordinates,
{
    lemma_write_then_read(memory, plugin.read_plan()->Some_0, coordinates);
}

/// A reload that finds the configuration in use changes nothing: neither the
/// base address, nor the attached probe, nor anything else of the plugin.
pub proof fn lemma_reload_same_config(plugin: PluginView, module_base: Result<usize, SkipError>)
    ensures
        plugin.reloaded(Ok(plugin.config), module_base) == (plugin, Ok::<
            ReloadOutcome,
            SkipError,
        >(ReloadOutcome::Unchanged)),
{
}

/// A reload that finds another configuration, one that discovers its base
/// address by a probe, drops the base address at once: from then on, and until
/// the probe is hit again, there are no coordinates to read. The attached probe
/// stays attached and reads by the new configuration.
pub proof fn lemma_reload_drops_pointer(
    plugin: PluginView,
    loaded: GenericConfigView,
    module_base: Result<usize, SkipError>,
)
    requires
        plugin.config_path is Some,
        loaded != plugin.config,
        loaded.position is InterceptPtr,
    ensures
        plugin.reloaded(Ok(loaded), module_base).1 == Ok::<ReloadOutcome, SkipError>(
            ReloadOutcome::Applied,
        ),
        plugin.reloaded(Ok(loaded), module_base).0.slot is None,
        plugin.reloaded(Ok(loaded), module_base).0.read_plan() is None,
        plugin.reloaded(Ok(loaded), module_base).0.config == loaded,
        plugin.listener is Some ==> plugin.reloaded(Ok(loaded), module_base).0.listener == Some(
            loaded.position->InterceptPtr_0,
        ),
        plugin.listener is None ==> plugin.reloaded(Ok(loaded), module_base).0.listener is None,
{
}

/// A reload whose new configuration gives an address that does not resolve is
/// no failure: the plugin keeps the configuration and the probe it had, knows
/// no base address, and has no coordinates to read until a later success.
pub proof fn lemma_reload_unresolved(
    plugin: PluginView,
    loaded: GenericConfigView,
    module_base: Result<usize, SkipError>,
)
    requires
        plugin.config_path is Some,
        loaded != plugin.config,
        loaded.position matches PositionView::AbsolutePtr(pointer) && pointer.resolve(module_base) is Err,
    ensures
        plugin.reloaded(Ok(loaded), module_base).1 == Ok::<ReloadOutcome, SkipError>(
            ReloadOutcome::Unresolved(
                loaded.position->AbsolutePtr_0.resolve(module_base)->Err_0,
            ),
        ),
        plugin.reloaded(Ok(loaded), module_base).0 == (PluginView { slot: None, ..plugin }),
        plugin.reloaded(Ok(loaded), module_base).0.read_plan() is None,
{
}

/// No reload fails, whatever was loaded and whatever the lookup came to, and a
/// reload that did not take on the loaded configuration keeps the one in use.
pub proof fn lemma_reload_never_fails(
    plugin: PluginView,
    loaded: Result<GenericConfigView, SkipError>,
    module_base: Result<usize, SkipError>,
)
    ensures
        plugin.reloaded(loaded, module_base).1 is Ok,
        plugin.reloaded(loaded, module_base).1 != Ok::<ReloadOutcome, SkipError>(
            ReloadOutcome::Applied,
        ) ==> plugin.reloaded(loaded, module_base).0.config == plugin.config,
{
}

/// After a reload, a base address is known only where the reload changed
/// nothing or resolved a given address anew: never one from before paired with
/// new offsets.
pub proof fn lemma_reload_never_mixes(
    plugin: PluginView,
    loaded: Result<GenericConfigView, SkipError>,
    module_base: Result<usize, SkipError>,
)
    ensures
        ({
            let after = plugin.reloaded(loaded, module_base).0;
            after == plugin || after.slot is None || (loaded matches Ok(config) && config.position matches PositionView::AbsolutePtr(
                pointer,
            ) && Ok::<usize, SkipError>(after.slot->Some_0) == pointer.resolve(module_base)
                && after.config == config)
        }),
{
}

/// A plugin that has just started on a probe knows no base address: there are
/// no coordinates to read, which is an answer and no failure, and a request to
/// write is refused.
pub proof fn lemma_started_probe_knows_nothing(
    plugin: PluginView,
    found: Result<usize, SkipError>,
    coordinates: PlayerCoordinates,
)
    requires
        plugin.slot is None,
        plugin.config.position is InterceptPtr,
    ensures
        plugin.started(found).0.read_plan() is None,
        plugin.started(found).0.write_plan(coordinates) == Err::<CoordinateWrite, SkipError>(
            SkipError::PointerNotInitialized,
        ),
{
}

/// Without a base address a request to write is refused, and with one it is
/// granted.
pub proof fn lemma_write_needs_pointer(plugin: PluginView, coordinates: PlayerCoordinates)
    ensures
        plugin.slot is None <==> plugin.write_plan(coordinates) == Err::<CoordinateWrite, SkipError>(
            SkipError::PointerNotInitialized,
        ),
        plugin.slot is Some <==> plugin.write_plan(coordinates) is Ok,
        plugin.slot is Some <==> plugin.read_plan() is Some,
{
}

/// A hit of the probe changes nothing of a plugin but the base address, and
/// that only where the hit passes the filter; a second hit with the same
/// registers changes nothing at all and reports nothing.
pub proof fn lemma_hit_touches_slot_only(plugin: PluginView, ctx: RegisterSnapshot)
    ensures
        plugin.after_hit(ctx).0 == (PluginView { slot: plugin.after_hit(ctx).0.slot, ..plugin }),
        plugin.listener matches Some(intercept) && !intercept.passes(ctx) ==> plugin.after_hit(ctx)
            == (plugin, None::<PointerUpdate>),
        plugin.after_hit(ctx).0.after_hit(ctx) == (plugin.after_hit(ctx).0, None::<PointerUpdate>),
{
}

} // verus!
