//! The declarative description of one game's hook: how the plugin is recognised,
//! where the player position is found, and where the coordinates lie from there.

use vstd::prelude::*;
use vstd::std_specs::cmp::PartialEqSpecImpl;
use crate::pointer::{PointerTypeConfig, PointerTypeView};
use crate::registers::{Register, RegisterSnapshot, as_address, to_address};

verus! {

/// The view of an optional string.
pub open spec fn text_of(s: Option<String>) -> Option<Seq<char>> {
    match s {
        Some(t) => Some(t@),
        None => None,
    }
}

fn copy_text(s: &Option<String>) -> (copy: Option<String>)
    ensures
        text_of(copy) == text_of(*s),
{
    match s {
        Some(t) => Some(t.clone()),
        None => None,
    }
}

fn same_filter(a: &Option<Filter>, b: &Option<Filter>) -> (same: bool)
    ensures
        same == (*a == *b),
{
    match (a, b) {
        (Some(x), Some(y)) => *x == *y,
        (None, None) => true,
        _ => false,
    }
}

fn same_text(a: &Option<String>, b: &Option<String>) -> (same: bool)
    ensures
        same == (text_of(*a) == text_of(*b)),
{
    match (a, b) {
        (Some(x), Some(y)) => *x == *y,
        (None, None) => true,
        _ => false,
    }
}

/// How a captured register value is held against a constant. Values are unsigned.
#[derive(Clone, Copy, Debug, PartialEq, Eq, Structural)]
pub enum Comparison {
    Equal,
    NEqual,
    Gt,
    Lt,
}

impl Comparison {
    /// Whether `value` stands in this relation to `compare_to`.
    pub open spec fn holds(self, value: usize, compare_to: usize) -> bool {
        match self {
            Comparison::Equal => value == compare_to,
            Comparison::NEqual => value != compare_to,
            Comparison::Gt => value > compare_to,
            Comparison::Lt => value < compare_to,
        }
    }

    /// Decides the comparison for one captured value.
    pub fn evaluate(&self, value: usize, compare_to: usize) -> (holds: bool)
        ensures
            holds == self.holds(value, compare_to),
    {
        match self {
            Comparison::Equal => value == compare_to,
            Comparison::NEqual => value != compare_to,
            Comparison::Gt => value > compare_to,
            Comparison::Lt => value < compare_to,
        }
    }
}

/// A guard on probe hits: a hit counts only where the register `compare` stands
/// in the relation `comparison` to `compare_to`.
#[derive(Clone, Copy, Debug, PartialEq, Eq, Structural)]
pub struct Filter {
    pub compare: Register,
    pub comparison: Comparison,
    pub compare_to: usize,
}

impl Filter {
    /// Whether a hit with the registers `ctx` passes this filter.
    pub open spec fn admits(self, ctx: RegisterSnapshot) -> bool {
        self.comparison.holds(as_address(self.compare.value_in(ctx)), self.compare_to)
    }

    /// Decides whether a hit with the registers `ctx` passes this filter.
    pub fn matches(&self, ctx: &RegisterSnapshot) -> (passes: bool)
        ensures
            passes == self.admits(*ctx),
    {
        let value = to_address(self.compare.to_value(ctx));
        self.comparison.evaluate(value, self.compare_to)
    }
}

/// The byte offsets of the three coordinates from the discovered base address.
/// They need not be adjacent nor in any order.
#[derive(Clone, Copy, Debug, PartialEq, Eq, Structural)]
pub struct OffsetsConfig {
    pub x: isize,
    pub y: isize,
    pub z: isize,
}

impl Default for OffsetsConfig {
    /// Three adjacent 4-byte fields at the base address itself.
    fn default() -> (offsets: Self)
        ensures
            offsets == (OffsetsConfig { x: 0, y: 4, z: 8 }),
    {
        OffsetsConfig { x: 0, y: 4, z: 8 }
    }
}

/// The names by which a plugin recognises the process it is made for.
#[derive(Debug)]
pub struct PluginIdentifiers {
    pub plugin_name: String,
    pub expected_module: Option<String>,
    pub expected_exe_name: Option<String>,
}

/// What a [`PluginIdentifiers`] holds, as plain text.
pub ghost struct PluginIdentifiersView {
    pub plugin_name: Seq<char>,
    pub expected_module: Option<Seq<char>>,
    pub expected_exe_name: Option<Seq<char>>,
}

impl View for PluginIdentifiers {
    type V = PluginIdentifiersView;

    open spec fn view(&self) -> PluginIdentifiersView {
        PluginIdentifiersView {
            plugin_name: self.plugin_name@,
            expected_module: text_of(self.expected_module),
            expected_exe_name: text_of(self.expected_exe_name),
        }
    }
}

impl PartialEq for PluginIdentifiers {
    fn eq(&self, other: &Self) -> (same: bool) {
        self.plugin_name == other.plugin_name
            && same_text(&self.expected_module, &other.expected_module)
            && same_text(&self.expected_exe_name, &other.expected_exe_name)
    }
}

impl PartialEqSpecImpl for PluginIdentifiers {
    open spec fn obeys_eq_spec() -> bool {
        true
    }

    open spec fn eq_spec(&self, other: &Self) -> bool {
        self@ == other@
    }
}

impl Clone for PluginIdentifiers {
    fn clone(&self) -> (copy: Self)
        ensures
            copy@ == self@,
    {
        PluginIdentifiers {
            plugin_name: self.plugin_name.clone(),
            expected_module: copy_text(&self.expected_module),
            expected_exe_name: copy_text(&self.expected_exe_name),
        }
    }
}

/// How the base address is discovered while the game runs: the instruction that
/// `intercept_signature` identifies is probed, and at each hit that passes
/// `filter` the base address is read from `register`.
#[derive(Debug)]
pub struct InterceptConfig {
    /// The byte pattern, with wildcards, of the instruction to probe.
    pub intercept_signature: String,
    /// The register that holds the base address when that instruction runs.
    pub register: Register,
    /// Which hits count; all of them where there is no filter.
    pub filter: Option<Filter>,
}

/// What an [`InterceptConfig`] holds, as plain values.
pub ghost struct InterceptView {
    pub intercept_signature: Seq<char>,
    pub register: Register,
    pub filter: Option<Filter>,
}

impl InterceptView {
    /// Whether a hit with the registers `ctx` counts.
    pub open spec fn passes(self, ctx: RegisterSnapshot) -> bool {
        match self.filter {
            Some(filter) => filter.admits(ctx),
            None => true,
        }
    }

    /// The base address that a hit with the registers `ctx` shows.
    pub open spec fn base_address(self, ctx: RegisterSnapshot) -> usize {
        as_address(self.register.value_in(ctx))
    }
}

impl View for InterceptConfig {
    type V = InterceptView;

    open spec fn view(&self) -> InterceptView {
        InterceptView {
            intercept_signature: self.intercept_signature@,
            register: self.register,
            filter: self.filter,
        }
    }
}

impl Clone for InterceptConfig {
    fn clone(&self) -> (copy: Self)
        ensures
            copy@ == self@,
    {
        InterceptConfig {
            intercept_signature: self.intercept_signature.clone(),
            register: self.register,
            filter: self.filter,
        }
    }
}

impl PartialEq for InterceptConfig {
    fn eq(&self, other: &Self) -> (same: bool) {
        self.intercept_signature == other.intercept_signature && self.register == other.register
            && same_filter(&self.filter, &other.filter)
    }
}

impl PartialEqSpecImpl for InterceptConfig {
    open spec fn obeys_eq_spec() -> bool {
        true
    }

    open spec fn eq_spec(&self, other: &Self) -> bool {
        self@ == other@
    }
}

/// Where the player position comes from: discovered by a probe, or given.
#[derive(Debug)]
pub enum GenericPositionConfig {
    InterceptPtr(InterceptConfig),
    AbsolutePtr(PointerTypeConfig),
}

/// What a [`GenericPositionConfig`] holds, as plain values.
pub ghost enum PositionView {
    InterceptPtr(InterceptView),
    AbsolutePtr(PointerTypeView),
}

impl View for GenericPositionConfig {
    type V = PositionView;

    open spec fn view(&self) -> PositionView {
        match self {
            GenericPositionConfig::InterceptPtr(cfg) => PositionView::InterceptPtr(cfg@),
            GenericPositionConfig::AbsolutePtr(ptr) => PositionView::AbsolutePtr(ptr@),
        }
    }
}

impl Clone for GenericPositionConfig {
    fn clone(&self) -> (copy: Self)
        ensures
            copy@ == self@,
    {
        match self {
            GenericPositionConfig::InterceptPtr(cfg) => GenericPositionConfig::InterceptPtr(
                cfg.clone(),
            ),
            GenericPositionConfig::AbsolutePtr(ptr) => GenericPositionConfig::AbsolutePtr(
                ptr.clone(),
            ),
        }
    }
}

impl PartialEq for GenericPositionConfig {
    fn eq(&self, other: &Self) -> (same: bool) {
        match (self, other) {
            (GenericPositionConfig::InterceptPtr(a), GenericPositionConfig::InterceptPtr(b)) => *a
                == *b,
            (GenericPositionConfig::AbsolutePtr(a), GenericPositionConfig::AbsolutePtr(b)) => *a
                == *b,
            _ => false,
        }
    }
}

impl PartialEqSpecImpl for GenericPositionConfig {
    open spec fn obeys_eq_spec() -> bool {
        true
    }

    open spec fn eq_spec(&self, other: &Self) -> bool {
        self@ == other@
    }
}

/// The full description of one game's hook.
#[derive(Debug)]
pub struct GenericConfig {
    pub identifiers: PluginIdentifiers,
    pub position: GenericPositionConfig,
    /// The offsets of the coordinates from the base address that `position` yields.
    pub pointer_offsets: OffsetsConfig,
}

/// What a [`GenericConfig`] holds, as plain values.
pub ghost struct GenericConfigView {
    pub identifiers: PluginIdentifiersView,
    pub position: PositionView,
    pub pointer_offsets: OffsetsConfig,
}

impl View for GenericConfig {
    type V = GenericConfigView;

    open spec fn view(&self) -> GenericConfigView {
        GenericConfigView {
            identifiers: self.identifiers@,
            position: self.position@,
            pointer_offsets: self.pointer_offsets,
        }
    }
}

impl Clone for GenericConfig {
    fn clone(&self) -> (copy: Self)
        ensures
            copy@ == self@,
    {
        GenericConfig {
            identifiers: self.identifiers.clone(),
            position: self.position.clone(),
            pointer_offsets: self.pointer_offsets,
        }
    }
}

impl PartialEq for GenericConfig {
    fn eq(&self, other: &Self) -> (same: bool) {
        self.identifiers == other.identifiers && self.position == other.position
            && self.pointer_offsets == other.pointer_offsets
    }
}

impl PartialEqSpecImpl for GenericConfig {
    open spec fn obeys_eq_spec() -> bool {
        true
    }

    open spec fn eq_spec(&self, other: &Self) -> bool {
        self@ == other@
    }
}

} // verus!
