use std::collections::HashMap;

use skip_rs::config::OffsetsConfig;
use skip_rs::coordinates::{locate, CoordinateAddresses, CoordinateWrite, PlayerCoordinates};
use skip_rs::plugin::ConfigBasedPlugin;
use skip_rs::presets::wolong_config;
use skip_rs::registers::RegisterSnapshot;

fn write_word(memory: &mut HashMap<usize, u8>, address: usize, word: u32) {
    for (k, byte) in word.to_le_bytes().iter().enumerate() {
        memory.insert(address + k, *byte);
    }
}

fn read_word(memory: &HashMap<usize, u8>, address: usize) -> u32 {
    let mut bytes = [0u8; 4];
    for k in 0..4 {
        bytes[k] = *memory.get(&(address + k)).unwrap_or(&0);
    }
    u32::from_le_bytes(bytes)
}

fn carry_out(memory: &mut HashMap<usize, u8>, write: CoordinateWrite) {
    write_word(memory, write.at.x, write.coordinates.x);
    write_word(memory, write.at.y, write.coordinates.y);
    write_word(memory, write.at.z, write.coordinates.z);
}

fn read_at(memory: &HashMap<usize, u8>, at: CoordinateAddresses) -> PlayerCoordinates {
    PlayerCoordinates {
        x: read_word(memory, at.x),
        y: read_word(memory, at.y),
        z: read_word(memory, at.z),
    }
}

fn bits(x: f32, y: f32, z: f32) -> PlayerCoordinates {
    PlayerCoordinates { x: x.to_bits(), y: y.to_bits(), z: z.to_bits() }
}

#[test]
fn addresses_are_base_plus_offset() {
    let at = locate(0x1000, &OffsetsConfig { x: 0x80, y: 0x84, z: 0x88 });
    assert_eq!(at, CoordinateAddresses { x: 0x1080, y: 0x1084, z: 0x1088 });
}

#[test]
fn offsets_may_be_negative_and_unordered() {
    let at = locate(0x1000, &OffsetsConfig { x: 8, y: -4, z: 0 });
    assert_eq!(at, CoordinateAddresses { x: 0x1008, y: 0xFFC, z: 0x1000 });
}

#[test]
fn addresses_wrap_at_the_ends() {
    let at = locate(usize::MAX, &OffsetsConfig { x: 1, y: 0, z: -1 });
    assert_eq!(at, CoordinateAddresses { x: 0, y: usize::MAX, z: usize::MAX - 1 });
    let low = locate(0, &OffsetsConfig { x: -1, y: isize::MIN, z: isize::MAX });
    assert_eq!(low.x, usize::MAX);
    assert_eq!(low.y, isize::MIN as usize);
    assert_eq!(low.z, isize::MAX as usize);
}

#[test]
fn default_offsets_are_adjacent() {
    assert_eq!(OffsetsConfig::default(), OffsetsConfig { x: 0, y: 4, z: 8 });
}

#[test]
fn overlap_is_detected() {
    assert!(CoordinateAddresses { x: 0, y: 4, z: 8 }.no_overlap());
    assert!(CoordinateAddresses { x: 8, y: 0, z: 4 }.no_overlap());
    assert!(!CoordinateAddresses { x: 0, y: 3, z: 8 }.no_overlap());
    assert!(!CoordinateAddresses { x: 0, y: 4, z: 4 }.no_overlap());
    assert!(!CoordinateAddresses { x: 5, y: 12, z: 8 }.no_overlap());
    assert!(CoordinateAddresses { x: usize::MAX, y: 0, z: 100 }.no_overlap());
}

#[test]
fn set_then_get_round_trips() {
    let mut plugin = ConfigBasedPlugin::from_config(wolong_config());
    plugin.start(Ok(0x100)).unwrap();
    let ctx = RegisterSnapshot {
        rax: 0x20_0000,
        rbx: 0,
        rcx: 0,
        rdx: 0,
        rsi: 0,
        rdi: 0,
        rbp: 0,
        rsp: 0,
        r8: 0,
        r9: 0,
        r10: 0,
        r11: 0,
        r12: 0,
        r13: 0,
        r14: 0,
        r15: 0,
        rip: 0,
    };
    plugin.on_probe_hit(&ctx);
    let mut memory = HashMap::new();
    let target = bits(1.5, -2.25, 1024.0);
    let write = plugin.set_current_coordinates(target).unwrap();
    assert_eq!(write.at, CoordinateAddresses { x: 0x20_0210, y: 0x20_0214, z: 0x20_0218 });
    carry_out(&mut memory, write);
    let at = plugin.get_current_coordinates().unwrap();
    assert!(at.no_overlap());
    let back = read_at(&memory, at);
    assert_eq!(back, target);
    assert_eq!(f32::from_bits(back.x), 1.5);
    assert_eq!(f32::from_bits(back.y), -2.25);
    assert_eq!(f32::from_bits(back.z), 1024.0);
}

#[test]
fn overlapping_fields_do_not_round_trip() {
    let at = locate(0x1000, &OffsetsConfig { x: 0, y: 2, z: 8 });
    assert!(!at.no_overlap());
    let mut memory = HashMap::new();
    let target = PlayerCoordinates { x: 0x1111_1111, y: 0x2222_2222, z: 0x3333_3333 };
    carry_out(&mut memory, CoordinateWrite { at, coordinates: target });
    assert_ne!(read_at(&memory, at), target);
}
