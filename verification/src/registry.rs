//! All plugins there are, and the choice of the one that fits the running
//! process.

use vstd::prelude::*;
use crate::config::{
    GenericConfig, GenericConfigView, PluginIdentifiers, PluginIdentifiersView, text_of,
};
use crate::coordinates::{CoordinateAddresses, CoordinateWrite, PlayerCoordinates};
use crate::error::SkipError;
use crate::plugin::{
    ConfigBasedPlugin, HostQuery, HostQueryView, PluginView, ReloadOutcome, StartAction, loaded_view,
};
use crate::presets::{lop_config, lop_view, wolong_config, wolong_view};
use crate::registers::RegisterSnapshot;
use crate::sekiro::{READ_FROM_COORDS_SIG, SekiroPlugin, SekiroView, sekiro_identifiers};
use crate::slot::PointerUpdate;

verus! {

/// What the host knows of the running process, as far as the choice of a
/// plugin needs it.
#[derive(Debug)]
pub struct ProcessInfo {
    /// The file name of the process's executable, where it can be had.
    pub exe_name: Option<String>,
    /// The names under which a module of the process was found.
    pub loaded_modules: Vec<String>,
}

/// What a [`ProcessInfo`] holds, as plain text.
pub ghost struct ProcessView {
    pub exe_name: Option<Seq<char>>,
    pub loaded_modules: Seq<Seq<char>>,
}

/// The texts of a list of strings.
pub open spec fn texts_of(names: Seq<String>) -> Seq<Seq<char>> {
    Seq::new(names.len(), |i: int| names[i]@)
}

impl View for ProcessInfo {
    type V = ProcessView;

    open spec fn view(&self) -> ProcessView {
        ProcessView {
            exe_name: text_of(self.exe_name),
            loaded_modules: texts_of(self.loaded_modules@),
        }
    }
}

impl ProcessInfo {
    /// Whether a module of this name was found in the process.
    pub fn has_module(&self, name: &String) -> (found: bool)
        ensures
            found == self@.loaded_modules.contains(name@),
    {
        let mut i: usize = 0;
        while i < self.loaded_modules.len()
            invariant
                i <= self.loaded_modules.len(),
                forall|j: int| 0 <= j < i ==> self@.loaded_modules[j] != name@,
            decreases self.loaded_modules.len() - i,
        {
            if self.loaded_modules[i] == *name {
                assert(self@.loaded_modules[i as int] == name@);
                return true;
            }
            i = i + 1;
        }
        false
    }
}

impl PluginIdentifiersView {
    /// Whether a plugin with these names is made for `process`: the expected
    /// module is among the process's modules, or the expected executable name
    /// is that of the process. Either is enough.
    pub open spec fn applies(self, process: ProcessView) -> bool {
        ||| self.expected_module matches Some(module) && process.loaded_modules.contains(module)
        ||| self.expected_exe_name matches Some(exe) && process.exe_name == Some(exe)
    }
}

impl PluginIdentifiers {
    /// Decides whether a plugin with these names is made for `process`.
    pub fn should_apply(&self, process: &ProcessInfo) -> (applies: bool)
        ensures
            applies == self@.applies(process@),
    {
        let modules_match = match &self.expected_module {
            Some(module) => process.has_module(module),
            None => false,
        };
        let exe_matches = match (&self.expected_exe_name, &process.exe_name) {
            (Some(expected), Some(actual)) => *expected == *actual,
            _ => false,
        };
        exe_matches || modules_match
    }
}

/// A plugin: one that is driven by its configuration, or one of those made by hand.
#[derive(Debug)]
pub enum SkipPlugin {
    Config(ConfigBasedPlugin),
    Sekiro(SekiroPlugin),
}

/// The state of a [`SkipPlugin`], as plain values.
pub ghost enum SkipPluginView {
    Config(PluginView),
    Sekiro(SekiroView),
}

impl SkipPluginView {
    /// The names by which the plugin recognises its process.
    pub open spec fn identifiers(self) -> PluginIdentifiersView {
        match self {
            SkipPluginView::Config(plugin) => plugin.config.identifiers,
            SkipPluginView::Sekiro(_) => sekiro_identifiers(),
        }
    }

    /// Where the plugin's configuration is persisted: nowhere for a plugin
    /// made by hand.
    pub open spec fn config_path(self) -> Option<Seq<char>> {
        match self {
            SkipPluginView::Config(plugin) => plugin.config_path,
            SkipPluginView::Sekiro(_) => None,
        }
    }

    /// Whether the plugin is made for `process`.
    pub open spec fn applies(self, process: ProcessView) -> bool {
        self.identifiers().applies(process)
    }

    /// What the host has to find out before the plugin starts.
    pub open spec fn query(self) -> Result<HostQueryView, SkipError> {
        match self {
            SkipPluginView::Config(plugin) => plugin.query(),
            SkipPluginView::Sekiro(_) => Ok(HostQueryView::ScanSignature(READ_FROM_COORDS_SIG@)),
        }
    }

    /// State and answer of `start`, given what the host found.
    pub open spec fn started(self, found: Result<usize, SkipError>) -> (
        SkipPluginView,
        Result<StartAction, SkipError>,
    ) {
        match self {
            SkipPluginView::Config(plugin) => (
                SkipPluginView::Config(plugin.started(found).0),
                plugin.started(found).1,
            ),
            SkipPluginView::Sekiro(plugin) => (
                SkipPluginView::Sekiro(plugin.started(found).0),
                plugin.started(found).1,
            ),
        }
    }

    /// State and report after one hit of the plugin's probe.
    pub open spec fn after_hit(self, ctx: RegisterSnapshot) -> (SkipPluginView, Option<PointerUpdate>) {
        match self {
            SkipPluginView::Config(plugin) => (
                SkipPluginView::Config(plugin.after_hit(ctx).0),
                plugin.after_hit(ctx).1,
            ),
            SkipPluginView::Sekiro(plugin) => (
                SkipPluginView::Sekiro(plugin.after_hit(ctx).0),
                plugin.after_hit(ctx).1,
            ),
        }
    }

    /// Where the coordinates are to be read.
    pub open spec fn read_plan(self) -> Option<CoordinateAddresses> {
        match self {
            SkipPluginView::Config(plugin) => plugin.read_plan(),
            SkipPluginView::Sekiro(plugin) => plugin.read_plan(),
        }
    }

    /// Where `coordinates` are to be written, or the refusal.
    pub open spec fn write_plan(self, coordinates: PlayerCoordinates) -> Result<
        CoordinateWrite,
        SkipError,
    > {
        match self {
            SkipPluginView::Config(plugin) => plugin.write_plan(coordinates),
            SkipPluginView::Sekiro(plugin) => plugin.write_plan(coordinates),
        }
    }

    /// State and answer of a reload. A plugin made by hand has nothing to
    /// reload. No reload fails.
    pub open spec fn reloaded(
        self,
        loaded: Result<GenericConfigView, SkipError>,
        module_base: Result<usize, SkipError>,
    ) -> (SkipPluginView, Result<ReloadOutcome, SkipError>) {
        match self {
            SkipPluginView::Config(plugin) => (
                SkipPluginView::Config(plugin.reloaded(loaded, module_base).0),
                plugin.reloaded(loaded, module_base).1,
            ),
            SkipPluginView::Sekiro(_) => (self, Ok(ReloadOutcome::Unchanged)),
        }
    }
}

impl View for SkipPlugin {
    type V = SkipPluginView;

    open spec fn view(&self) -> SkipPluginView {
        match self {
            SkipPlugin::Config(plugin) => SkipPluginView::Config(plugin@),
            SkipPlugin::Sekiro(plugin) => SkipPluginView::Sekiro(plugin@),
        }
    }
}

impl SkipPlugin {
    /// The names by which the plugin recognises its process.
    pub fn identifiers(&self) -> (identifiers: PluginIdentifiers)
        ensures
            identifiers@ == self@.identifiers(),
    {
        match self {
            SkipPlugin::Config(plugin) => plugin.identifiers(),
            SkipPlugin::Sekiro(plugin) => plugin.identifiers(),
        }
    }

    /// Where the plugin's configuration is persisted, if anywhere.
    pub fn config_path(&self) -> (path: Option<&String>)
        ensures
            match self@.config_path() {
                Some(text) => path matches Some(p) && p@ == text,
                None => path is None,
            },
    {
        match self {
            SkipPlugin::Config(plugin) => plugin.config_path(),
            SkipPlugin::Sekiro(_) => None,
        }
    }

    /// Decides whether the plugin is made for `process`.
    pub fn should_apply(&self, process: &ProcessInfo) -> (applies: bool)
        ensures
            applies == self@.applies(process@),
    {
        match self {
            SkipPlugin::Config(plugin) => plugin.config().identifiers.should_apply(process),
            SkipPlugin::Sekiro(plugin) => plugin.identifiers().should_apply(process),
        }
    }

    /// What the host has to find out before [`Self::start`].
    pub fn start_query(&self) -> (query: Result<HostQuery, SkipError>)
        ensures
            match self@.query() {
                Ok(q) => query matches Ok(asked) && asked@ == q,
                Err(e) => query matches Err(f) && f == e,
            },
    {
        match self {
            SkipPlugin::Config(plugin) => plugin.start_query(),
            SkipPlugin::Sekiro(_) => Ok(HostQuery::ScanSignature(READ_FROM_COORDS_SIG.to_owned())),
        }
    }

    /// Starts the plugin, given the host's answer to [`Self::start_query`].
    pub fn start(&mut self, found: Result<usize, SkipError>) -> (action: Result<
        StartAction,
        SkipError,
    >)
        ensures
            (final(self)@, action) == old(self)@.started(found),
    {
        match self {
            SkipPlugin::Config(plugin) => plugin.start(found),
            SkipPlugin::Sekiro(plugin) => plugin.start(found),
        }
    }

    /// Handles one hit of the plugin's probe with the registers `ctx`.
    pub fn on_probe_hit(&mut self, ctx: &RegisterSnapshot) -> (update: Option<PointerUpdate>)
        ensures
            (final(self)@, update) == old(self)@.after_hit(*ctx),
    {
        match self {
            SkipPlugin::Config(plugin) => plugin.on_probe_hit(ctx),
            SkipPlugin::Sekiro(plugin) => plugin.on_probe_hit(ctx),
        }
    }

    /// Where the host finds the current coordinates; nowhere as long as the
    /// plugin has not discovered them.
    pub fn get_current_coordinates(&self) -> (at: Option<CoordinateAddresses>)
        ensures
            at == self@.read_plan(),
    {
        match self {
            SkipPlugin::Config(plugin) => plugin.get_current_coordinates(),
            SkipPlugin::Sekiro(plugin) => plugin.get_current_coordinates(),
        }
    }

    /// What the host has to write where, to make `coordinates` the current ones.
    pub fn set_current_coordinates(&self, coordinates: PlayerCoordinates) -> (write: Result<
        CoordinateWrite,
        SkipError,
    >)
        ensures
            write == self@.write_plan(coordinates),
    {
        match self {
            SkipPlugin::Config(plugin) => plugin.set_current_coordinates(coordinates),
            SkipPlugin::Sekiro(plugin) => plugin.set_current_coordinates(coordinates),
        }
    }

    /// Takes on the persisted configuration, where the plugin has one.
    pub fn reload_config(
        &mut self,
        loaded: Result<GenericConfig, SkipError>,
        module_base: Result<usize, SkipError>,
    ) -> (outcome: Result<ReloadOutcome, SkipError>)
        ensures
            (final(self)@, outcome) == old(self)@.reloaded(loaded_view(loaded), module_base),
    {
        match self {
            SkipPlugin::Config(plugin) => plugin.reload_config(loaded, module_base),
            SkipPlugin::Sekiro(_) => Ok(ReloadOutcome::Unchanged),
        }
    }
}

/// The plugins to choose from, in the order of the choice: the one read from a
/// file, where there is one, then those for Lies of P, Sekiro and Wo Long.
pub open spec fn all_plugins(file_based: Option<PluginView>) -> Seq<SkipPluginView> {
    let built_in = seq![
        SkipPluginView::Config(
            PluginView { slot: None, listener: None, config_path: None, config: lop_view() },
        ),
        SkipPluginView::Sekiro(SekiroView { slot: None, attached: false }),
        SkipPluginView::Config(
            PluginView { slot: None, listener: None, config_path: None, config: wolong_view() },
        ),
    ];
    match file_based {
        Some(plugin) => seq![SkipPluginView::Config(plugin)] + built_in,
        None => built_in,
    }
}

/// The views of a list of plugins.
pub open spec fn views_of(plugins: Seq<SkipPlugin>) -> Seq<SkipPluginView> {
    Seq::new(plugins.len(), |i: int| plugins[i]@)
}

/// A configuration file that the host came upon: where it lies, and what
/// reading it came to.
#[derive(Debug)]
pub struct FoundConfig {
    pub path: String,
    pub loaded: Result<GenericConfig, SkipError>,
}

impl FoundConfig {
    /// The plugin that the file makes, unless it could not be read.
    pub open spec fn plugin(self) -> Result<PluginView, SkipError> {
        match self.loaded {
            Ok(config) => Ok(
                PluginView {
                    slot: None,
                    listener: None,
                    config_path: Some(self.path@),
                    config: config@,
                },
            ),
            Err(e) => Err(e),
        }
    }
}

/// The plugin that the host's search for a configuration file yields, if any:
/// none where there is no file, and none where the file could not be read.
pub open spec fn file_based(file: Option<FoundConfig>) -> Option<PluginView> {
    match file {
        Some(found) => match found.plugin() {
            Ok(plugin) => Some(plugin),
            Err(_) => None,
        },
        None => None,
    }
}

impl ConfigBasedPlugin {
    /// The plugins that are read from files: none where the host found no
    /// file, one where it found a file and could read it. A file that could
    /// not be read is a failure.
    pub fn find_all(file: Option<FoundConfig>) -> (plugins: Result<Vec<SkipPlugin>, SkipError>)
        ensures
            match file {
                None => plugins matches Ok(list) && list@.len() == 0,
                Some(found) => match found.plugin() {
                    Ok(plugin) => plugins matches Ok(list) && views_of(list@) == seq![
                        SkipPluginView::Config(plugin),
                    ],
                    Err(e) => plugins matches Err(f) && f == e,
                },
            },
    {
        let mut output: Vec<SkipPlugin> = Vec::new();
        if let Some(found) = file {
            match found.loaded {
                Ok(config) => {
                    output.push(SkipPlugin::Config(ConfigBasedPlugin::new(found.path, config)));
                    assert(views_of(output@) =~= seq![SkipPluginView::Config(found.plugin()->Ok_0)]);
                },
                Err(e) => {
                    return Err(e);
                },
            }
        }
        Ok(output)
    }
}

/// Lists all plugins that could apply: the one from the configuration file
/// first, where the host found a file and could read it, then the built-in ones.
pub fn get_all_plugins(file: Option<FoundConfig>) -> (plugins: Vec<SkipPlugin>)
    ensures
        views_of(plugins@) == all_plugins(file_based(file)),
{
    let mut plugins: Vec<SkipPlugin> = match ConfigBasedPlugin::find_all(file) {
        Ok(list) => list,
        Err(_) => Vec::new(),
    };
    plugins.push(SkipPlugin::Config(ConfigBasedPlugin::from_config(lop_config())));
    plugins.push(SkipPlugin::Sekiro(SekiroPlugin::new()));
    plugins.push(SkipPlugin::Config(ConfigBasedPlugin::from_config(wolong_config())));
    assert(views_of(plugins@) =~= all_plugins(file_based(file)));
    plugins
}

/// Whether plugin `i` is made for `process` and none before it is.
pub open spec fn is_first_applicable(plugins: Seq<SkipPluginView>, process: ProcessView, i: int) -> bool {
    &&& 0 <= i < plugins.len()
    &&& plugins[i].applies(process)
    &&& forall|j: int| 0 <= j < i ==> !(#[trigger] plugins[j]).applies(process)
}

/// Chooses the plugin for `process`: the first in the list that is made for it.
/// The answer is its index; there is none where no plugin applies, and the
/// host should then stop.
pub fn select_plugin(plugins: &Vec<SkipPlugin>, process: &ProcessInfo) -> (chosen: Option<usize>)
    ensures
        match chosen {
            Some(i) => is_first_applicable(views_of(plugins@), process@, i as int),
            None => forall|j: int|
                0 <= j < plugins.len() ==> !(#[trigger] views_of(plugins@)[j]).applies(process@),
        },
{
    let mut i: usize = 0;
    while i < plugins.len()
        invariant
            i <= plugins.len(),
            forall|j: int| 0 <= j < i ==> !(#[trigger] views_of(plugins@)[j]).applies(process@),
        decreases plugins.len() - i,
    {
        if plugins[i].should_apply(process) {
            return Some(i);
        }
        i = i + 1;
    }
    None
}

/// Of two plugins that both apply, the one that comes first in the list is
/// chosen, by whichever of its names each of them applies.
pub proof fn lemma_first_registered_wins(
    plugins: Seq<SkipPluginView>,
    process: ProcessView,
    a: int,
    b: int,
    chosen: int,
)
    requires
        0 <= a < b < plugins.len(),
        plugins[a].applies(process),
        plugins[b].applies(process),
        is_first_applicable(plugins, process, chosen),
    ensures
        chosen <= a,
        chosen != b,
        (forall|j: int| 0 <= j < a ==> !(#[trigger] plugins[j]).applies(process)) ==> chosen == a,
{
}

} // verus!
