//! The plugin that is driven by a configuration alone.
//!
//! A plugin is a state machine: the address it has discovered, the probe it has
//! attached, and the configuration it runs on. Each operation takes what the
//! host found out about the process and answers with the next state and with
//! what the host has to do.

use vstd::prelude::*;
use crate::config::{
    GenericConfig, GenericConfigView, GenericPositionConfig, InterceptView, PluginIdentifiers,
    PositionView, text_of,
};
use crate::coordinates::{CoordinateAddresses, CoordinateWrite, PlayerCoordinates, addresses_of, locate};
use crate::error::SkipError;
use crate::intercept::{GenericCoordinateIntercept, hit};
use crate::registers::RegisterSnapshot;
use crate::slot::{PointerSlot, PointerUpdate};

verus! {

/// What the host has to find out before a plugin can start or take on a new
/// configuration.
#[derive(Debug)]
pub enum HostQuery {
    /// The address of the first match of this byte signature in the code of the
    /// process's base module.
    ScanSignature(String),
    /// The base address of the module of this name.
    LookupModule(String),
    /// Nothing.
    Nothing,
}

/// What a [`HostQuery`] holds, as plain text.
pub ghost enum HostQueryView {
    ScanSignature(Seq<char>),
    LookupModule(Seq<char>),
    Nothing,
}

impl View for HostQuery {
    type V = HostQueryView;

    open spec fn view(&self) -> HostQueryView {
        match self {
            HostQuery::ScanSignature(signature) => HostQueryView::ScanSignature(signature@),
            HostQuery::LookupModule(module) => HostQueryView::LookupModule(module@),
            HostQuery::Nothing => HostQueryView::Nothing,
        }
    }
}

/// What the host has to do once a plugin has started.
#[derive(Clone, Copy, Debug, PartialEq, Eq, Structural)]
pub enum StartAction {
    /// Attach the plugin's probe to the instruction at this address, for good.
    AttachProbe(usize),
    /// Nothing: the base address is known already.
    Ready,
}

/// How a reload ended.
#[derive(Clone, Copy, Debug, PartialEq, Eq, Structural)]
pub enum ReloadOutcome {
    /// Nothing to do: the plugin has no persisted configuration, or the
    /// persisted one is the one it runs on.
    Unchanged,
    /// The persisted configuration could not be had; the plugin runs on as before.
    Rejected(SkipError),
    /// The persisted configuration gives an address that does not resolve: the
    /// plugin keeps the configuration it had, knows no base address, and runs on.
    Unresolved(SkipError),
    /// The plugin runs on the new configuration.
    Applied,
}

/// The view of a loaded configuration, or of the failure to load one.
pub open spec fn loaded_view(loaded: Result<GenericConfig, SkipError>) -> Result<
    GenericConfigView,
    SkipError,
> {
    match loaded {
        Ok(config) => Ok(config@),
        Err(e) => Err(e),
    }
}

/// The state of a plugin, as plain values.
pub ghost struct PluginView {
    /// The discovered base address.
    pub slot: Option<usize>,
    /// The configuration of the attached probe, once one is attached.
    pub listener: Option<InterceptView>,
    /// Where the configuration is persisted, for a plugin that was read from a file.
    pub config_path: Option<Seq<char>>,
    /// The configuration that the plugin runs on.
    pub config: GenericConfigView,
}

impl PluginView {
    /// What the host has to find out before the plugin starts.
    pub open spec fn query(self) -> Result<HostQueryView, SkipError> {
        self.config.position.query()
    }

    /// State and answer of `start`, given what the host found.
    pub open spec fn started(self, found: Result<usize, SkipError>) -> (
        PluginView,
        Result<StartAction, SkipError>,
    ) {
        match self.config.position {
            PositionView::InterceptPtr(intercept) => match found {
                Ok(address) => (
                    PluginView { listener: Some(intercept), ..self },
                    Ok(StartAction::AttachProbe(address)),
                ),
                Err(e) => (self, Err(e)),
            },
            PositionView::AbsolutePtr(pointer) => match pointer.resolve(found) {
                Ok(address) => (PluginView { slot: Some(address), ..self }, Ok(StartAction::Ready)),
                Err(e) => (self, Err(e)),
            },
        }
    }

    /// State and report after one hit of the attached probe. Without an attached
    /// probe there are no hits to handle, and nothing changes.
    pub open spec fn after_hit(self, ctx: RegisterSnapshot) -> (PluginView, Option<PointerUpdate>) {
        match self.listener {
            Some(intercept) => (
                PluginView { slot: hit(intercept, ctx, self.slot).0, ..self },
                hit(intercept, ctx, self.slot).1,
            ),
            None => (self, None),
        }
    }

    /// Where the coordinates are to be read: nowhere as long as no base address
    /// is known.
    pub open spec fn read_plan(self) -> Option<CoordinateAddresses> {
        match self.slot {
            Some(base) => Some(addresses_of(base, self.config.pointer_offsets)),
            None => None,
        }
    }

    /// Where `coordinates` are to be written, or the refusal as long as no base
    /// address is known.
    pub open spec fn write_plan(self, coordinates: PlayerCoordinates) -> Result<
        CoordinateWrite,
        SkipError,
    > {
        match self.slot {
            Some(base) => Ok(
                CoordinateWrite { at: addresses_of(base, self.config.pointer_offsets), coordinates },
            ),
            None => Err(SkipError::PointerNotInitialized),
        }
    }

    /// State and answer of a reload. `loaded` is the persisted configuration, or
    /// why it could not be had; `module_base` is what the lookup of the module
    /// came to that the persisted configuration needs. No reload fails: what
    /// went wrong is part of the answer, for the host to log.
    pub open spec fn reloaded(
        self,
        loaded: Result<GenericConfigView, SkipError>,
        module_base: Result<usize, SkipError>,
    ) -> (PluginView, Result<ReloadOutcome, SkipError>) {
        if self.config_path is None {
            (self, Ok(ReloadOutcome::Unchanged))
        } else {
            match loaded {
                Err(e) => (self, Ok(ReloadOutcome::Rejected(e))),
                Ok(config) => if config == self.config {
                    (self, Ok(ReloadOutcome::Unchanged))
                } else {
                    match config.position {
                        PositionView::InterceptPtr(intercept) => (
                            PluginView {
                                slot: None,
                                listener: if self.listener is Some {
                                    Some(intercept)
                                } else {
                                    None
                                },
                                config,
                                ..self
                            },
                            Ok(ReloadOutcome::Applied),
                        ),
                        PositionView::AbsolutePtr(pointer) => match pointer.resolve(module_base) {
                            Ok(address) => (
                                PluginView { slot: Some(address), config, ..self },
                                Ok(ReloadOutcome::Applied),
                            ),
                            Err(e) => (
                                PluginView { slot: None, ..self },
                                Ok(ReloadOutcome::Unresolved(e)),
                            ),
                        },
                    }
                },
            }
        }
    }
}

impl PositionView {
    /// What the host has to find out before a plugin with this position source
    /// starts.
    pub open spec fn query(self) -> Result<HostQueryView, SkipError> {
        match self {
            PositionView::InterceptPtr(intercept) => Ok(
                HostQueryView::ScanSignature(intercept.intercept_signature),
            ),
            PositionView::AbsolutePtr(pointer) => match pointer.module_needed() {
                Ok(Some(module)) => Ok(HostQueryView::LookupModule(module)),
                Ok(None) => Ok(HostQueryView::Nothing),
                Err(e) => Err(e),
            },
        }
    }

    /// What the host has to find out before a running plugin takes this
    /// position source on: the base of the module that a relative pointer
    /// names. A probe stays where it is attached, so nothing is scanned anew.
    pub open spec fn reload_query(self) -> Result<HostQueryView, SkipError> {
        match self {
            PositionView::InterceptPtr(_) => Ok(HostQueryView::Nothing),
            PositionView::AbsolutePtr(_) => self.query(),
        }
    }
}

impl GenericPositionConfig {
    /// What the host has to find out before a plugin with this position source
    /// starts. It fails for a relative pointer without a `+`.
    pub fn host_query(&self) -> (query: Result<HostQuery, SkipError>)
        ensures
            match self@.query() {
                Ok(q) => query matches Ok(asked) && asked@ == q,
                Err(e) => query matches Err(f) && f == e,
            },
    {
        match self {
            GenericPositionConfig::InterceptPtr(intercept) => Ok(
                HostQuery::ScanSignature(intercept.intercept_signature.clone()),
            ),
            GenericPositionConfig::AbsolutePtr(pointer) => match pointer.required_module() {
                Ok(Some(module)) => Ok(HostQuery::LookupModule(module.to_owned())),
                Ok(None) => Ok(HostQuery::Nothing),
                Err(e) => Err(e),
            },
        }
    }

    /// What the host has to find out before a running plugin takes this
    /// position source on in a reload. It fails for a relative pointer without
    /// a `+`.
    pub fn reload_query(&self) -> (query: Result<HostQuery, SkipError>)
        ensures
            match self@.reload_query() {
                Ok(q) => query matches Ok(asked) && asked@ == q,
                Err(e) => query matches Err(f) && f == e,
            },
    {
        match self {
            GenericPositionConfig::InterceptPtr(_) => Ok(HostQuery::Nothing),
            GenericPositionConfig::AbsolutePtr(_) => self.host_query(),
        }
    }
}

/// A plugin that does everything from its configuration.
#[derive(Debug)]
pub struct ConfigBasedPlugin {
    position_ptr: PointerSlot,
    listener: Option<GenericCoordinateIntercept>,
    config_path: Option<String>,
    config: GenericConfig,
}

impl View for ConfigBasedPlugin {
    type V = PluginView;

    closed spec fn view(&self) -> PluginView {
        PluginView {
            slot: self.position_ptr@,
            listener: match self.listener {
                Some(probe) => Some(probe.config@),
                None => None,
            },
            config_path: text_of(self.config_path),
            config: self.config@,
        }
    }
}

impl ConfigBasedPlugin {
    /// A plugin whose configuration was read from the file at `config_path`,
    /// and can be read from there again.
    pub fn new(config_path: String, config: GenericConfig) -> (plugin: Self)
        ensures
            plugin@ == (PluginView {
                slot: None,
                listener: None,
                config_path: Some(config_path@),
                config: config@,
            }),
    {
        ConfigBasedPlugin {
            position_ptr: PointerSlot::new(),
            listener: None,
            config_path: Some(config_path),
            config,
        }
    }

    /// A plugin with a fixed configuration, persisted nowhere.
    pub fn from_config(config: GenericConfig) -> (plugin: Self)
        ensures
            plugin@ == (PluginView {
                slot: None,
                listener: None,
                config_path: None,
                config: config@,
            }),
    {
        ConfigBasedPlugin {
            position_ptr: PointerSlot::new(),
            listener: None,
            config_path: None,
            config,
        }
    }

    /// The names by which the plugin recognises its process.
    pub fn identifiers(&self) -> (identifiers: PluginIdentifiers)
        ensures
            identifiers@ == self@.config.identifiers,
    {
        self.config.identifiers.clone()
    }

    /// The configuration that the plugin runs on.
    pub fn config(&self) -> (config: &GenericConfig)
        ensures
            config@ == self@.config,
    {
        &self.config
    }

    /// Where the configuration is persisted, if anywhere.
    pub fn config_path(&self) -> (path: Option<&String>)
        ensures
            match self@.config_path {
                Some(text) => path matches Some(p) && p@ == text,
                None => path is None,
            },
    {
        self.config_path.as_ref()
    }

    /// The discovered base address, if any.
    pub fn position_ptr(&self) -> (address: Option<usize>)
        ensures
            address == self@.slot,
    {
        self.position_ptr.get()
    }

    /// The attached probe, once one is attached.
    pub fn listener(&self) -> (probe: Option<&GenericCoordinateIntercept>)
        ensures
            match self@.listener {
                Some(intercept) => probe matches Some(p) && p.config@ == intercept,
                None => probe is None,
            },
    {
        self.listener.as_ref()
    }

    /// What the host has to find out before [`Self::start`].
    pub fn start_query(&self) -> (query: Result<HostQuery, SkipError>)
        ensures
            match self@.query() {
                Ok(q) => query matches Ok(asked) && asked@ == q,
                Err(e) => query matches Err(f) && f == e,
            },
    {
        self.config.position.host_query()
    }

    /// Starts the plugin. `found` is the host's answer to [`Self::start_query`]:
    /// the address asked for, or why there is none; where nothing was asked it is
    /// not read.
    ///
    /// A plugin that discovers its base address gets its probe, which the host
    /// then attaches at the address found. A plugin with a given address
    /// resolves it and holds it from now on. Every failure leaves the plugin as
    /// it was.
    pub fn start(&mut self, found: Result<usize, SkipError>) -> (action: Result<
        StartAction,
        SkipError,
    >)
        ensures
            (final(self)@, action) == old(self)@.started(found),
    {
        match &self.config.position {
            GenericPositionConfig::InterceptPtr(intercept) => match found {
                Ok(address) => {
                    self.listener = Some(GenericCoordinateIntercept::new(intercept.clone()));
                    Ok(StartAction::AttachProbe(address))
                },
                Err(e) => Err(e),
            },
            GenericPositionConfig::AbsolutePtr(pointer) => match pointer.get_non_null_ptr(found) {
                Ok(address) => {
                    self.position_ptr.set(address.as_usize());
                    Ok(StartAction::Ready)
                },
                Err(e) => Err(e),
            },
        }
    }

    /// Handles one hit of the attached probe with the registers `ctx`, and
    /// answers with the change of the base address to report, if any.
    pub fn on_probe_hit(&mut self, ctx: &RegisterSnapshot) -> (update: Option<PointerUpdate>)
        ensures
            (final(self)@, update) == old(self)@.after_hit(*ctx),
    {
        match &self.listener {
            Some(probe) => probe.on_hit(ctx, &mut self.position_ptr),
            None => None,
        }
    }

    /// Where the host finds the current coordinates, each a field of four
    /// bytes; nowhere as long as no base address is known, which is no failure.
    pub fn get_current_coordinates(&self) -> (at: Option<CoordinateAddresses>)
        ensures
            at == self@.read_plan(),
    {
        match self.position_ptr.get() {
            Some(base) => Some(locate(base, &self.config.pointer_offsets)),
            None => None,
        }
    }

    /// What the host has to write where, to make `coordinates` the current
    /// ones. As long as no base address is known there is nothing to write, and
    /// the request fails.
    pub fn set_current_coordinates(&self, coordinates: PlayerCoordinates) -> (write: Result<
        CoordinateWrite,
        SkipError,
    >)
        ensures
            write == self@.write_plan(coordinates),
    {
        match self.position_ptr.get() {
            Some(base) => Ok(
                CoordinateWrite { at: locate(base, &self.config.pointer_offsets), coordinates },
            ),
            None => Err(SkipError::PointerNotInitialized),
        }
    }

    /// Takes on the persisted configuration. `loaded` is that configuration, or
    /// why it could not be had; `module_base` is the host's answer to the
    /// [`GenericPositionConfig::reload_query`] of the loaded configuration, and
    /// is read only for a relative pointer.
    ///
    /// Nothing happens for a plugin without a persisted configuration, and
    /// where the loaded configuration is the one in use. A configuration that
    /// could not be had is turned down. Otherwise the base address is dropped
    /// first. A new probe configuration then replaces that of the attached
    /// probe; a new given address is resolved and held at once. Where it cannot
    /// be resolved, the plugin keeps its configuration, knows no base address,
    /// and runs on: there are no coordinates until a later reload or hit
    /// succeeds. No reload fails; the answer says what the host has to log.
    pub fn reload_config(
        &mut self,
        loaded: Result<GenericConfig, SkipError>,
        module_base: Result<usize, SkipError>,
    ) -> (outcome: Result<ReloadOutcome, SkipError>)
        ensures
            (final(self)@, outcome) == old(self)@.reloaded(loaded_view(loaded), module_base),
    {
        if self.config_path.is_none() {
            return Ok(ReloadOutcome::Unchanged);
        }
        let config = match loaded {
            Ok(config) => config,
            Err(e) => {
                return Ok(ReloadOutcome::Rejected(e));
            },
        };
        if self.config == config {
            return Ok(ReloadOutcome::Unchanged);
        }
        self.position_ptr.clear();
        match &config.position {
            GenericPositionConfig::InterceptPtr(intercept) => {
                if let Some(listener) = &mut self.listener {
                    listener.config = intercept.clone();
                }
            },
            GenericPositionConfig::AbsolutePtr(pointer) => {
                match pointer.get_non_null_ptr(module_base) {
                    Ok(address) => {
                        self.position_ptr.set(address.as_usize());
                    },
                    Err(e) => {
                        return Ok(ReloadOutcome::Unresolved(e));
                    },
                }
            },
        }
        self.config = config;
        Ok(ReloadOutcome::Applied)
    }
}

} // verus!
