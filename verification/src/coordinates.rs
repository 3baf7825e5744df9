//! Player coordinates, the addresses at which they lie, and what reading and
//! writing them means for the memory of the process.
//!
//! The engine itself never touches memory. It says at which addresses the host
//! has to read or write; this module states what such a read or write does, over
//! a model of memory as a map from byte addresses to bytes.

use vstd::prelude::*;
use vstd::bytes::{lemma_auto_spec_u32_to_from_le_bytes, spec_u32_from_le_bytes, spec_u32_to_le_bytes};
use vstd::wrapping::usize_specs;
use crate::config::OffsetsConfig;

verus! {

/// A position in the game's world. Each coordinate is a single-precision
/// floating-point number, held here by the 32 bits that encode it.
#[derive(Clone, Copy, Debug, PartialEq, Eq, Structural)]
pub struct PlayerCoordinates {
    pub x: u32,
    pub y: u32,
    pub z: u32,
}

/// The addresses of the three coordinates, each a field of four bytes.
#[derive(Clone, Copy, Debug, PartialEq, Eq, Structural)]
pub struct CoordinateAddresses {
    pub x: usize,
    pub y: usize,
    pub z: usize,
}

/// The coordinates to write, and where.
#[derive(Clone, Copy, Debug, PartialEq, Eq, Structural)]
pub struct CoordinateWrite {
    pub at: CoordinateAddresses,
    pub coordinates: PlayerCoordinates,
}

/// The address `offset` bytes from `base`. Addresses wrap around at the end of
/// the address space, as the machine's own address arithmetic does.
pub open spec fn field_address(base: usize, offset: isize) -> usize {
    usize_specs::wrapping_add_signed(base, offset)
}

/// The addresses of the coordinates of a position that starts at `base`.
pub open spec fn addresses_of(base: usize, offsets: OffsetsConfig) -> CoordinateAddresses {
    CoordinateAddresses {
        x: field_address(base, offsets.x),
        y: field_address(base, offsets.y),
        z: field_address(base, offsets.z),
    }
}

/// Computes the addresses of the coordinates of a position that starts at `base`.
pub fn locate(base: usize, offsets: &OffsetsConfig) -> (at: CoordinateAddresses)
    ensures
        at == addresses_of(base, *offsets),
{
    CoordinateAddresses {
        x: base.wrapping_add_signed(offsets.x),
        y: base.wrapping_add_signed(offsets.y),
        z: base.wrapping_add_signed(offsets.z),
    }
}

/// Whether the four-byte fields at `a` and at `b` share no byte.
pub open spec fn apart(a: usize, b: usize) -> bool {
    a + 4 <= b || b + 4 <= a
}

impl CoordinateAddresses {
    /// Whether no two of the three fields share a byte.
    pub open spec fn fields_apart(self) -> bool {
        apart(self.x, self.y) && apart(self.x, self.z) && apart(self.y, self.z)
    }

    /// Decides whether no two of the three fields share a byte.
    pub fn no_overlap(&self) -> (clear: bool)
        ensures
            clear == self.fields_apart(),
    {
        fields_clear(self.x, self.y) && fields_clear(self.x, self.z) && fields_clear(
            self.y,
            self.z,
        )
    }
}

fn fields_clear(a: usize, b: usize) -> (clear: bool)
    ensures
        clear == apart(a, b),
{
    if a <= b {
        b - a >= 4
    } else {
        a - b >= 4
    }
}

/// The four bytes that memory holds from `address` on.
pub open spec fn bytes_at(memory: Map<int, u8>, address: int) -> Seq<u8> {
    Seq::new(4, |k: int| memory[address + k])
}

/// The 32-bit word that a read at `address` yields, least significant byte first.
pub open spec fn load_word(memory: Map<int, u8>, address: int) -> u32 {
    spec_u32_from_le_bytes(bytes_at(memory, address))
}

/// Memory after `word` was written at `address`, least significant byte first.
/// Every address holds a byte afterwards: where `memory` said nothing of an
/// address, the result holds `memory`'s unspecified byte.
pub open spec fn store_word(memory: Map<int, u8>, address: int, word: u32) -> Map<int, u8> {
    Map::new(
        |a: int| true,
        |a: int|
            if address <= a < address + 4 {
                spec_u32_to_le_bytes(word)[a - address]
            } else {
                memory[a]
            },
    )
}

/// The coordinates that a host reads which follows the plan `at`.
pub open spec fn read_coordinates(memory: Map<int, u8>, at: CoordinateAddresses) -> PlayerCoordinates {
    PlayerCoordinates {
        x: load_word(memory, at.x as int),
        y: load_word(memory, at.y as int),
        z: load_word(memory, at.z as int),
    }
}

/// Memory after a host has carried out `write`: `x` first, then `y`, then `z`.
pub open spec fn write_coordinates(memory: Map<int, u8>, write: CoordinateWrite) -> Map<int, u8> {
    store_word(
        store_word(
            store_word(memory, write.at.x as int, write.coordinates.x),
            write.at.y as int,
            write.coordinates.y,
        ),
        write.at.z as int,
        write.coordinates.z,
    )
}

/// A word that was written is the word that a read at the same address yields.
pub proof fn lemma_load_stored(memory: Map<int, u8>, address: int, word: u32)
    ensures
        load_word(store_word(memory, address, word), address) == word,
{
    lemma_auto_spec_u32_to_from_le_bytes();
    assert(bytes_at(store_word(memory, address, word), address) =~= spec_u32_to_le_bytes(word));
}

/// A write leaves every field alone with which it shares no byte.
pub proof fn lemma_load_elsewhere(memory: Map<int, u8>, address: int, word: u32, other: int)
    requires
        address + 4 <= other || other + 4 <= address,
    ensures
        load_word(store_word(memory, address, word), other) == load_word(memory, other),
{
    assert(bytes_at(store_word(memory, address, word), other) =~= bytes_at(memory, other));
}

/// Coordinates that were written are the coordinates that a read at the same
/// addresses yields, where no two of the three fields share a byte.
pub proof fn lemma_write_then_read(
    memory: Map<int, u8>,
    at: CoordinateAddresses,
    coordinates: PlayerCoordinates,
)
    requires
        at.fields_apart(),
    ensures
        read_coordinates(write_coordinates(memory, CoordinateWrite { at, coordinates }), at)
            == coordinates,
{
    let m1 = store_word(memory, at.x as int, coordinates.x);
    let m2 = store_word(m1, at.y as int, coordinates.y);
    let m3 = store_word(m2, at.z as int, coordinates.z);
    lemma_load_stored(memory, at.x as int, coordinates.x);
    lemma_load_stored(m1, at.y as int, coordinates.y);
    lemma_load_stored(m2, at.z as int, coordinates.z);
    lemma_load_elsewhere(m1, at.y as int, coordinates.y, at.x as int);
    lemma_load_elsewhere(m2, at.z as int, coordinates.z, at.x as int);
    lemma_load_elsewhere(m2, at.z as int, coordinates.z, at.y as int);
}

} // verus!
