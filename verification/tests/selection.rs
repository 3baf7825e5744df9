use skip_rs::app::{console_change, ConsoleChange, FrameActions, SkipApp, Teleport};
use skip_rs::config::{
    GenericConfig, GenericPositionConfig, InterceptConfig, OffsetsConfig, PluginIdentifiers,
};
use skip_rs::coordinates::{CoordinateAddresses, CoordinateWrite, PlayerCoordinates};
use skip_rs::error::SkipError;
use skip_rs::plugin::{ConfigBasedPlugin, HostQuery, ReloadOutcome, StartAction};
use skip_rs::presets::{ai_limit_config, lop_config, nioh2_config, wolong_config};
use skip_rs::registers::{Register, RegisterSnapshot};
use skip_rs::registry::{get_all_plugins, select_plugin, FoundConfig, ProcessInfo, SkipPlugin};
use skip_rs::sekiro::{SekiroCoordinatesIntercept, SekiroPlugin, READ_FROM_COORDS_SIG};
use skip_rs::slot::{PointerSlot, PointerUpdate};
use skip_rs::waypoints::WaypointSave;

fn registers(rcx: u64) -> RegisterSnapshot {
    RegisterSnapshot {
        rax: 0,
        rbx: 0,
        rcx,
        rdx: 0,
        rsi: 0,
        rdi: 0,
        rbp: 0,
        rsp: 0,
        r8: 0,
        r9: 0,
        r10: 0,
        r11: 0,
        r12: 0,
        r13: 0,
        r14: 0,
        r15: 0,
        rip: 0,
    }
}

fn process(exe: Option<&str>, modules: &[&str]) -> ProcessInfo {
    ProcessInfo {
        exe_name: exe.map(|e| e.to_string()),
        loaded_modules: modules.iter().map(|m| m.to_string()).collect(),
    }
}

fn named(name: &str, module: Option<&str>, exe: Option<&str>) -> SkipPlugin {
    SkipPlugin::Config(ConfigBasedPlugin::from_config(GenericConfig {
        identifiers: PluginIdentifiers {
            plugin_name: name.to_string(),
            expected_module: module.map(|m| m.to_string()),
            expected_exe_name: exe.map(|e| e.to_string()),
        },
        position: GenericPositionConfig::InterceptPtr(InterceptConfig {
            intercept_signature: "00".to_string(),
            register: Register::Rax,
            filter: None,
        }),
        pointer_offsets: OffsetsConfig::default(),
    }))
}

#[test]
fn either_name_is_enough() {
    let both = PluginIdentifiers {
        plugin_name: "P".to_string(),
        expected_module: Some("engine.dll".to_string()),
        expected_exe_name: Some("game.exe".to_string()),
    };
    assert!(both.should_apply(&process(Some("game.exe"), &["engine.dll"])));
    assert!(both.should_apply(&process(Some("renamed.exe"), &["kernel32.dll", "engine.dll"])));
    assert!(both.should_apply(&process(Some("game.exe"), &[])));
    assert!(both.should_apply(&process(None, &["engine.dll"])));
    assert!(!both.should_apply(&process(Some("renamed.exe"), &["other.dll"])));
    assert!(!both.should_apply(&process(None, &[])));
}

#[test]
fn missing_names_never_match() {
    let none = PluginIdentifiers {
        plugin_name: "P".to_string(),
        expected_module: None,
        expected_exe_name: None,
    };
    assert!(!none.should_apply(&process(Some("game.exe"), &["engine.dll"])));
    assert!(!none.should_apply(&process(None, &[])));
    let exe_only = nioh2_config().identifiers;
    assert!(exe_only.should_apply(&process(Some("nioh2.exe"), &[])));
    assert!(!exe_only.should_apply(&process(Some("nioh.exe"), &["nioh2.exe"])));
}

#[test]
fn module_list_is_searched_whole() {
    let info = process(None, &["a.dll", "b.dll", "c.dll"]);
    assert!(info.has_module(&"a.dll".to_string()));
    assert!(info.has_module(&"c.dll".to_string()));
    assert!(!info.has_module(&"d.dll".to_string()));
    assert!(!info.has_module(&"A.dll".to_string()));
}

#[test]
fn first_registered_plugin_wins() {
    let plugins = vec![
        named("A", None, Some("game.exe")),
        named("B", Some("engine.dll"), None),
    ];
    let info = process(Some("game.exe"), &["engine.dll"]);
    assert_eq!(select_plugin(&plugins, &info), Some(0));
    assert_eq!(plugins[0].identifiers().plugin_name, "A");
    let swapped = vec![
        named("B", Some("engine.dll"), None),
        named("A", None, Some("game.exe")),
    ];
    assert_eq!(select_plugin(&swapped, &info), Some(0));
    assert_eq!(swapped[0].identifiers().plugin_name, "B");
}

#[test]
fn selection_skips_plugins_that_do_not_apply() {
    let plugins = vec![
        named("A", None, Some("other.exe")),
        named("B", Some("engine.dll"), None),
        named("C", None, Some("game.exe")),
    ];
    assert_eq!(select_plugin(&plugins, &process(Some("game.exe"), &["engine.dll"])), Some(1));
    assert_eq!(select_plugin(&plugins, &process(Some("game.exe"), &[])), Some(2));
}

#[test]
fn no_applicable_plugin_is_reported() {
    let plugins = get_all_plugins(None);
    assert_eq!(select_plugin(&plugins, &process(Some("notepad.exe"), &["ntdll.dll"])), None);
    assert_eq!(select_plugin(&Vec::new(), &process(Some("game.exe"), &[])), None);
}

#[test]
fn built_in_plugins_come_in_registration_order() {
    let plugins = get_all_plugins(None);
    let names: Vec<String> = plugins.iter().map(|p| p.identifiers().plugin_name).collect();
    assert_eq!(
        names,
        vec!["Lies of P Skip Runback", "Sekiro Skip Runback", "Wo Long Fallen Dynasty Runback"]
    );
    assert!(matches!(plugins[1], SkipPlugin::Sekiro(_)));
    assert_eq!(select_plugin(&plugins, &process(Some("sekiro.exe"), &[])), Some(1));
    assert_eq!(select_plugin(&plugins, &process(None, &["WoLong.exe"])), Some(2));
    assert_eq!(select_plugin(&plugins, &process(Some("LOP.exe"), &[])), Some(0));
}

#[test]
fn file_based_plugin_comes_first() {
    let mut config = GenericConfig::default();
    config.identifiers.plugin_name = "From file".to_string();
    let file = FoundConfig { path: "skip_runback_plugin.json".to_string(), loaded: Ok(config) };
    let plugins = get_all_plugins(Some(file));
    assert_eq!(plugins.len(), 4);
    assert_eq!(plugins[0].identifiers().plugin_name, "From file");
    assert_eq!(plugins[1].identifiers().plugin_name, "Lies of P Skip Runback");
    assert_eq!(select_plugin(&plugins, &process(Some("sekiro.exe"), &["sekiro.exe"])), Some(0));
    match &plugins[0] {
        SkipPlugin::Config(plugin) => {
            assert_eq!(plugin.config_path(), Some(&"skip_runback_plugin.json".to_string()))
        }
        SkipPlugin::Sekiro(_) => panic!("the plugin from the file comes first"),
    }
}

#[test]
fn unreadable_file_leaves_the_built_in_plugins() {
    let file = FoundConfig {
        path: "skip_runback_plugin.json".to_string(),
        loaded: Err(SkipError::ConfigParseError),
    };
    let plugins = get_all_plugins(Some(file));
    assert_eq!(plugins.len(), 3);
    assert_eq!(plugins[0].identifiers().plugin_name, "Lies of P Skip Runback");
}

#[test]
fn file_search_yields_at_most_one_plugin() {
    assert_eq!(ConfigBasedPlugin::find_all(None).map(|l| l.len()), Ok(0));
    let unreadable =
        FoundConfig { path: "p.json".to_string(), loaded: Err(SkipError::ConfigLoadError) };
    assert_eq!(
        ConfigBasedPlugin::find_all(Some(unreadable)).map(|l| l.len()),
        Err(SkipError::ConfigLoadError)
    );
    let readable = FoundConfig { path: "p.json".to_string(), loaded: Ok(ai_limit_config()) };
    let found = ConfigBasedPlugin::find_all(Some(readable)).unwrap();
    assert_eq!(found.len(), 1);
    assert_eq!(found[0].identifiers().plugin_name, "AI Limit Skip Runback");
}

#[test]
fn console_follows_the_configuration() {
    assert_eq!(console_change(true, false), ConsoleChange::Close);
    assert_eq!(console_change(false, true), ConsoleChange::Open);
    assert_eq!(console_change(true, true), ConsoleChange::Keep);
    assert_eq!(console_change(false, false), ConsoleChange::Keep);
}

#[test]
fn frame_marks_before_it_goes_back() {
    let plugin = SkipPlugin::Sekiro(SekiroPlugin::new());
    let (mut app, _) = SkipApp::new(WaypointSave::default(), plugin, Ok(0x77)).unwrap();
    app.current_plugin.on_probe_hit(&registers(0x3000));
    let at = CoordinateAddresses { x: 0x3080, y: 0x3088, z: 0x3084 };
    let first = PlayerCoordinates { x: 1, y: 2, z: 3 };
    let second = PlayerCoordinates { x: 4, y: 5, z: 6 };
    assert_eq!(app.run(false, Some(first), false), FrameActions { persist: false, teleport: None });
    assert_eq!(app.waypoints.most_recent, None);
    assert_eq!(
        app.run(false, None, true),
        FrameActions { persist: false, teleport: Some(Teleport::NoWaypoint) }
    );
    assert_eq!(app.run(true, Some(first), false), FrameActions { persist: true, teleport: None });
    assert_eq!(app.waypoints.most_recent, Some(first));
    assert_eq!(app.run(true, None, false), FrameActions { persist: false, teleport: None });
    assert_eq!(app.waypoints.most_recent, Some(first));
    assert_eq!(
        app.run(true, Some(second), true),
        FrameActions {
            persist: true,
            teleport: Some(Teleport::Write(CoordinateWrite { at, coordinates: second })),
        }
    );
    assert_eq!(app.waypoints.most_recent, Some(second));
}

#[test]
fn presets_hold_their_tables() {
    let lop = lop_config();
    assert_eq!(lop.pointer_offsets, OffsetsConfig { x: 0x1C0, y: 0x1C4, z: 0x1C8 });
    assert_eq!(lop.identifiers.expected_module, Some("LOP-Win64-Shipping.exe".to_string()));
    assert_eq!(lop.identifiers.expected_exe_name, Some("LOP.exe".to_string()));
    let wolong = wolong_config();
    assert_eq!(wolong.pointer_offsets, OffsetsConfig { x: 0x210, y: 0x214, z: 0x218 });
    let nioh = nioh2_config();
    assert_eq!(nioh.identifiers.expected_module, None);
    assert_eq!(nioh.pointer_offsets, OffsetsConfig { x: 0xF0, y: 0xF4, z: 0xF8 });
    let ai = ai_limit_config();
    assert_eq!(ai.pointer_offsets, OffsetsConfig { x: 0x28, y: 0x2C, z: 0x30 });
    match ai.position {
        GenericPositionConfig::InterceptPtr(intercept) => {
            assert_eq!(intercept.intercept_signature, "F2 0F 11 43 28 89 4B 30 40");
            assert_eq!(intercept.register, Register::Rbx);
            assert!(intercept.filter.is_some());
        }
        GenericPositionConfig::AbsolutePtr(_) => panic!("preset with a given address"),
    }
    let example = GenericConfig::default();
    assert_eq!(example.identifiers.plugin_name, "Generic Skip Sekiro Example");
    assert_eq!(example.pointer_offsets, OffsetsConfig { x: 0x80, y: 0x84, z: 0x88 });
    match example.position {
        GenericPositionConfig::InterceptPtr(intercept) => {
            assert_eq!(intercept.intercept_signature, READ_FROM_COORDS_SIG);
            assert_eq!(intercept.register, Register::Rcx);
            assert_eq!(intercept.filter, None);
        }
        GenericPositionConfig::AbsolutePtr(_) => panic!("preset with a given address"),
    }
}

#[test]
fn configs_compare_by_content() {
    assert!(lop_config() == lop_config());
    assert!(lop_config() != wolong_config());
    assert!(lop_config().clone() == lop_config());
    let mut renamed = lop_config();
    renamed.identifiers.expected_exe_name = None;
    assert!(renamed != lop_config());
    let mut moved = lop_config();
    moved.pointer_offsets.z = 0;
    assert!(moved != lop_config());
}

#[test]
fn sekiro_probe_adds_its_displacement() {
    let mut slot = PointerSlot::new();
    let probe = SekiroCoordinatesIntercept {};
    assert_eq!(
        probe.on_hit(&registers(0x1000), &mut slot),
        Some(PointerUpdate { previous: 0, current: 0x1080 })
    );
    assert_eq!(probe.on_hit(&registers(0x1000), &mut slot), None);
    assert_eq!(slot.get(), Some(0x1080));
    assert_eq!(
        probe.on_hit(&registers(u64::MAX), &mut slot),
        Some(PointerUpdate { previous: 0x1080, current: 0x7F })
    );
}

#[test]
fn sekiro_plugin_lays_out_x_z_y() {
    let mut plugin = SekiroPlugin::new();
    assert_eq!(plugin.get_current_coordinates(), None);
    let target = PlayerCoordinates { x: 1, y: 2, z: 3 };
    assert_eq!(plugin.set_current_coordinates(target), Err(SkipError::PointerNotInitialized));
    assert_eq!(plugin.on_probe_hit(&registers(0x1000)), None);
    assert_eq!(plugin.start(Err(SkipError::SignatureNotFound)), Err(SkipError::SignatureNotFound));
    assert_eq!(plugin.on_probe_hit(&registers(0x1000)), None);
    assert_eq!(plugin.start(Ok(0x55)), Ok(StartAction::AttachProbe(0x55)));
    assert_eq!(plugin.get_current_coordinates(), None);
    assert_eq!(
        plugin.on_probe_hit(&registers(0x1000)),
        Some(PointerUpdate { previous: 0, current: 0x1080 })
    );
    assert_eq!(plugin.coords(), Some(0x1080));
    let at = CoordinateAddresses { x: 0x1080, y: 0x1088, z: 0x1084 };
    assert_eq!(plugin.get_current_coordinates(), Some(at));
    assert_eq!(plugin.set_current_coordinates(target), Ok(CoordinateWrite { at, coordinates: target }));
    assert_eq!(plugin.identifiers().expected_exe_name, Some("sekiro.exe".to_string()));
}

#[test]
fn any_plugin_forwards_to_its_kind() {
    let mut sekiro = SkipPlugin::Sekiro(SekiroPlugin::new());
    match sekiro.start_query() {
        Ok(HostQuery::ScanSignature(signature)) => assert_eq!(signature, "0F 28 81 80 00 00 00 4D"),
        _ => panic!("the plugin asks for a scan"),
    }
    assert_eq!(sekiro.start(Ok(0x10)), Ok(StartAction::AttachProbe(0x10)));
    assert_eq!(
        sekiro.on_probe_hit(&registers(0x2000)),
        Some(PointerUpdate { previous: 0, current: 0x2080 })
    );
    assert_eq!(sekiro.reload_config(Ok(lop_config()), Ok(0)), Ok(ReloadOutcome::Unchanged));
    assert_eq!(sekiro.config_path(), None);
    assert_eq!(
        sekiro.get_current_coordinates(),
        Some(CoordinateAddresses { x: 0x2080, y: 0x2088, z: 0x2084 })
    );
    let mut generic = SkipPlugin::Config(ConfigBasedPlugin::from_config(wolong_config()));
    assert!(generic.should_apply(&process(Some("WoLong.exe"), &[])));
    assert_eq!(generic.start(Err(SkipError::SignatureNotFound)), Err(SkipError::SignatureNotFound));
    assert_eq!(generic.get_current_coordinates(), None);
    assert_eq!(
        generic.set_current_coordinates(PlayerCoordinates { x: 0, y: 0, z: 0 }),
        Err(SkipError::PointerNotInitialized)
    );
}

#[test]
fn application_does_not_exist_without_a_started_plugin() {
    let plugin = SkipPlugin::Config(ConfigBasedPlugin::from_config(lop_config()));
    let failed = SkipApp::new(WaypointSave::default(), plugin, Err(SkipError::SignatureNotFound));
    assert_eq!(failed.err(), Some(SkipError::SignatureNotFound));
}

#[test]
fn waypoint_is_marked_and_returned_to() {
    let plugin = SkipPlugin::Sekiro(SekiroPlugin::new());
    let (mut app, action) = SkipApp::new(WaypointSave::default(), plugin, Ok(0x77)).unwrap();
    assert_eq!(action, StartAction::AttachProbe(0x77));
    assert_eq!(app.teleport_to_waypoint(), Teleport::NoWaypoint);
    assert_eq!(app.waypoint_source(), None);
    assert!(!app.save_waypoint(None));
    assert_eq!(app.waypoints.most_recent, None);
    let position = PlayerCoordinates { x: 7, y: 8, z: 9 };
    assert!(app.save_waypoint(Some(position)));
    assert_eq!(app.waypoints.most_recent, Some(position));
    assert_eq!(app.teleport_to_waypoint(), Teleport::Refused(SkipError::PointerNotInitialized));
    app.current_plugin.on_probe_hit(&registers(0x3000));
    let at = CoordinateAddresses { x: 0x3080, y: 0x3088, z: 0x3084 };
    assert_eq!(app.waypoint_source(), Some(at));
    assert_eq!(
        app.teleport_to_waypoint(),
        Teleport::Write(CoordinateWrite { at, coordinates: position })
    );
    assert!(!app.save_waypoint(None));
    assert_eq!(app.waypoints.most_recent, Some(position));
}

#[test]
fn earlier_waypoints_are_taken_over() {
    let position = PlayerCoordinates { x: 1, y: 2, z: 3 };
    let earlier = WaypointSave { most_recent: Some(position) };
    let plugin = SkipPlugin::Config(ConfigBasedPlugin::from_config(lop_config()));
    let (app, _) = SkipApp::new(earlier, plugin, Ok(0x77)).unwrap();
    assert_eq!(app.waypoints, earlier);
    assert_eq!(app.teleport_to_waypoint(), Teleport::Refused(SkipError::PointerNotInitialized));
}
