//! The configurations that come with the engine, one per supported game.

use vstd::prelude::*;
use vstd::string::StringExecFns;
use crate::config::{
    Comparison, Filter, GenericConfig, GenericConfigView, GenericPositionConfig, InterceptConfig,
    InterceptView, OffsetsConfig, PluginIdentifiers, PluginIdentifiersView, PositionView,
};
use crate::registers::Register;
use crate::sekiro::READ_FROM_COORDS_SIG;

verus! {

/// The configuration of a plugin that is recognised by `module` and `exe`,
/// probes the instruction with the given signature, and reads the base address
/// from `register`.
pub open spec fn probe_config(
    name: Seq<char>,
    module: Option<Seq<char>>,
    exe: Option<Seq<char>>,
    signature: Seq<char>,
    register: Register,
    filter: Option<Filter>,
    offsets: OffsetsConfig,
) -> GenericConfigView {
    GenericConfigView {
        identifiers: PluginIdentifiersView {
            plugin_name: name,
            expected_module: module,
            expected_exe_name: exe,
        },
        position: PositionView::InterceptPtr(
            InterceptView { intercept_signature: signature, register, filter },
        ),
        pointer_offsets: offsets,
    }
}

fn build(
    name: &str,
    module: Option<&str>,
    exe: Option<&str>,
    signature: &str,
    register: Register,
    filter: Option<Filter>,
    offsets: OffsetsConfig,
) -> (config: GenericConfig)
    ensures
        config@ == probe_config(
            name@,
            match module {
                Some(m) => Some(m@),
                None => None,
            },
            match exe {
                Some(e) => Some(e@),
                None => None,
            },
            signature@,
            register,
            filter,
            offsets,
        ),
{
    GenericConfig {
        identifiers: PluginIdentifiers {
            plugin_name: String::from_str(name),
            expected_module: match module {
                Some(m) => Some(String::from_str(m)),
                None => None,
            },
            expected_exe_name: match exe {
                Some(e) => Some(String::from_str(e)),
                None => None,
            },
        },
        position: GenericPositionConfig::InterceptPtr(
            InterceptConfig { intercept_signature: String::from_str(signature), register, filter },
        ),
        pointer_offsets: offsets,
    }
}

/// The example configuration, for Sekiro.
pub open spec fn default_config() -> GenericConfigView {
    probe_config(
        "Generic Skip Sekiro Example"@,
        Some("sekiro.exe"@),
        Some("sekiro.exe"@),
        READ_FROM_COORDS_SIG@,
        Register::Rcx,
        None,
        OffsetsConfig { x: 0x80, y: 0x84, z: 0x88 },
    )
}

impl Default for GenericConfig {
    /// The example configuration: what a new configuration file starts from.
    fn default() -> (config: Self)
        ensures
            config@ == default_config(),
    {
        build(
            "Generic Skip Sekiro Example",
            Some("sekiro.exe"),
            Some("sekiro.exe"),
            READ_FROM_COORDS_SIG,
            Register::Rcx,
            None,
            OffsetsConfig { x: 0x80, y: 0x84, z: 0x88 },
        )
    }
}

/// The configuration for Lies of P.
pub open spec fn lop_view() -> GenericConfigView {
    probe_config(
        "Lies of P Skip Runback"@,
        Some("LOP-Win64-Shipping.exe"@),
        Some("LOP.exe"@),
        "41 0F 10 89 C0 01 00 00 48 8D 44 24 28"@,
        Register::R9,
        None,
        OffsetsConfig { x: 0x1C0, y: 0x1C4, z: 0x1C8 },
    )
}

/// The configuration for Lies of P.
pub fn lop_config() -> (config: GenericConfig)
    ensures
        config@ == lop_view(),
{
    build(
        "Lies of P Skip Runback",
        Some("LOP-Win64-Shipping.exe"),
        Some("LOP.exe"),
        "41 0F 10 89 C0 01 00 00 48 8D 44 24 28",
        Register::R9,
        None,
        OffsetsConfig { x: 0x1C0, y: 0x1C4, z: 0x1C8 },
    )
}

/// The configuration for Wo Long: Fallen Dynasty.
pub open spec fn wolong_view() -> GenericConfigView {
    probe_config(
        "Wo Long Fallen Dynasty Runback"@,
        Some("WoLong.exe"@),
        Some("WoLong.exe"@),
        "0F 28 80 10 02 00 00 0F 29 44"@,
        Register::Rax,
        None,
        OffsetsConfig { x: 0x210, y: 0x214, z: 0x218 },
    )
}

/// The configuration for Wo Long: Fallen Dynasty.
pub fn wolong_config() -> (config: GenericConfig)
    ensures
        config@ == wolong_view(),
{
    build(
        "Wo Long Fallen Dynasty Runback",
        Some("WoLong.exe"),
        Some("WoLong.exe"),
        "0F 28 80 10 02 00 00 0F 29 44",
        Register::Rax,
        None,
        OffsetsConfig { x: 0x210, y: 0x214, z: 0x218 },
    )
}

/// The configuration for Nioh 2, which is recognised by its executable alone.
pub open spec fn nioh2_view() -> GenericConfigView {
    probe_config(
        "Nioh 2"@,
        None,
        Some("nioh2.exe"@),
        "0F 28 80 F0 00 00 00 66 0F 7F 45 A0"@,
        Register::Rax,
        None,
        OffsetsConfig { x: 0xF0, y: 0xF4, z: 0xF8 },
    )
}

/// The configuration for Nioh 2.
pub fn nioh2_config() -> (config: GenericConfig)
    ensures
        config@ == nioh2_view(),
{
    build(
        "Nioh 2",
        None,
        Some("nioh2.exe"),
        "0F 28 80 F0 00 00 00 66 0F 7F 45 A0",
        Register::Rax,
        None,
        OffsetsConfig { x: 0xF0, y: 0xF4, z: 0xF8 },
    )
}

/// The configuration for AI Limit. Its instruction moves other positions too:
/// only hits with `r10` other than 10 are the player's.
pub open spec fn ai_limit_view() -> GenericConfigView {
    probe_config(
        "AI Limit Skip Runback"@,
        Some("GameAssembly.dll"@),
        Some("AI-LIMIT.exe"@),
        "F2 0F 11 43 28 89 4B 30 40"@,
        Register::Rbx,
        Some(Filter { compare: Register::R10, comparison: Comparison::NEqual, compare_to: 0xA }),
        OffsetsConfig { x: 0x28, y: 0x2C, z: 0x30 },
    )
}

/// The configuration for AI Limit.
pub fn ai_limit_config() -> (config: GenericConfig)
    ensures
        config@ == ai_limit_view(),
{
    build(
        "AI Limit Skip Runback",
        Some("GameAssembly.dll"),
        Some("AI-LIMIT.exe"),
        "F2 0F 11 43 28 89 4B 30 40",
        Register::Rbx,
        Some(Filter { compare: Register::R10, comparison: Comparison::NEqual, compare_to: 0xA }),
        OffsetsConfig { x: 0x28, y: 0x2C, z: 0x30 },
    )
}

} // verus!
