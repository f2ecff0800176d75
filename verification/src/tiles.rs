//! The graphics ROM as tiles and the colours of the video unit, for a
//! front end that shows them.
use vstd::prelude::*;

verus! {

/// Number of bytes of a tile: eight rows of one bit plane, then eight rows
/// of the other.
pub const TILE_BYTES: usize = 16;

/// Number of tiles in a row of the tile sheet.
pub const TILES_PER_ROW: usize = 20;

/// Distance in pixels from one tile of the tile sheet to the next.
pub const TILE_PITCH: usize = 10;

/// The red part of each of the 64 colours of the video unit.
pub const SYSTEM_PALETTE_RED: [u8; 64] = [
    0x80, 0x00, 0x00, 0x44, 0xA1, 0xC7, 0xBA, 0x8C,
    0x5C, 0x10, 0x05, 0x00, 0x00, 0x00, 0x05, 0x05,
    0xC7, 0x00, 0x21, 0x82, 0xEB, 0xFF, 0xFF, 0xD6,
    0xC4, 0x35, 0x05, 0x00, 0x00, 0x21, 0x09, 0x09,
    0xFF, 0x0F, 0x69, 0xD4, 0xFF, 0xFF, 0xFF, 0xFF,
    0xFA, 0x9F, 0x2B, 0x0C, 0x05, 0x5E, 0x0D, 0x0D,
    0xFF, 0xA6, 0xB3, 0xDA, 0xFF, 0xFF, 0xFF, 0xFF,
    0xFF, 0xD7, 0xA6, 0xA2, 0x99, 0xDD, 0x11, 0x11,
];

/// The green part of each of the 64 colours.
pub const SYSTEM_PALETTE_GREEN: [u8; 64] = [
    0x80, 0x3D, 0x12, 0x00, 0x00, 0x00, 0x06, 0x17,
    0x2F, 0x45, 0x4A, 0x47, 0x41, 0x00, 0x05, 0x05,
    0xC7, 0x77, 0x55, 0x37, 0x2F, 0x29, 0x22, 0x32,
    0x62, 0x80, 0x8F, 0x8A, 0x99, 0x21, 0x09, 0x09,
    0xFF, 0xD7, 0xA2, 0x80, 0x45, 0x61, 0x88, 0x9C,
    0xBC, 0xE3, 0xF0, 0xF0, 0xFB, 0x5E, 0x0D, 0x0D,
    0xFF, 0xFC, 0xEC, 0xAB, 0xA8, 0xAB, 0xD2, 0xEF,
    0xF7, 0xE8, 0xED, 0xF2, 0xFF, 0xDD, 0x11, 0x11,
];

/// The blue part of each of the 64 colours.
pub const SYSTEM_PALETTE_BLUE: [u8; 64] = [
    0x80, 0xA6, 0xB0, 0x96, 0x5E, 0x28, 0x00, 0x00,
    0x00, 0x00, 0x00, 0x2E, 0x66, 0x00, 0x05, 0x05,
    0xC7, 0xFF, 0xFF, 0xFA, 0xB5, 0x50, 0x00, 0x00,
    0x00, 0x00, 0x00, 0x55, 0xCC, 0x21, 0x09, 0x09,
    0xFF, 0xFF, 0xFF, 0xFF, 0xF3, 0x8B, 0x33, 0x12,
    0x20, 0x0E, 0x35, 0xA4, 0xFF, 0x5E, 0x0D, 0x0D,
    0xFF, 0xFF, 0xFF, 0xEB, 0xF9, 0xB3, 0xB0, 0xA6,
    0x9C, 0x95, 0xAF, 0xDA, 0xFC, 0xDD, 0x11, 0x11,
];

/// A colour of the video unit as (red, green, blue). The colour is chosen
/// by the low six bits of the index.
pub open spec fn system_color(index: u8) -> (u8, u8, u8) {
    (
        SYSTEM_PALETTE_RED[index as int % 64],
        SYSTEM_PALETTE_GREEN[index as int % 64],
        SYSTEM_PALETTE_BLUE[index as int % 64],
    )
}

/// The bit of a bit-plane byte that belongs to a column of the tile:
/// column 0 is bit 7.
pub open spec fn plane_bit(byte: u8, column: int) -> u8 {
    (byte >> ((7 - column) as u8)) & 1
}

/// The two-bit colour of a pixel of a tile: the bit of the first plane
/// over the bit of the second.
pub open spec fn tile_color(tile: Seq<u8>, row: int, column: int) -> u8 {
    (plane_bit(tile[row], column) << 1u8) | plane_bit(tile[row + 8], column)
}

/// Where a tile stands on the tile sheet, as (x, y) of its top left pixel.
pub open spec fn tile_origin(tile: int) -> (int, int) {
    ((tile % TILES_PER_ROW as int) * TILE_PITCH, (tile / TILES_PER_ROW as int) * TILE_PITCH)
}

/// The index of the system colour that the tile sheet shows for each of
/// the four colours of a tile.
pub open spec fn sheet_color_index(color: u8) -> u8 {
    if color == 0 {
        0x01
    } else if color == 1 {
        0x23
    } else if color == 2 {
        0x30
    } else {
        0x3F
    }
}

/// Two bits joined are a number below four.
proof fn lemma_two_bits(upper: u8, lower: u8, shift: u8)
    by (bit_vector)
    requires
        shift < 8u8,
    ensures
        ((((upper >> shift) & 1u8) << 1u8) | ((lower >> shift) & 1u8)) < 4u8,
{
}

/// Looks up a colour of the video unit.
pub fn system_palette(index: u8) -> (rgb: (u8, u8, u8))
    ensures
        rgb == system_color(index),
{
    let i = (index % 64) as usize;
    (SYSTEM_PALETTE_RED[i], SYSTEM_PALETTE_GREEN[i], SYSTEM_PALETTE_BLUE[i])
}

/// Decodes one pixel of a tile.
pub fn tile_pixel(tile: &[u8], row: usize, column: usize) -> (color: u8)
    requires
        tile@.len() >= TILE_BYTES,
        row < 8,
        column < 8,
    ensures
        color == tile_color(tile@, row as int, column as int),
        color < 4,
{
    let shift: u8 = 7 - column as u8;
    let upper = tile[row];
    let lower = tile[row + 8];
    proof {
        lemma_two_bits(upper, lower, shift);
    }
    (((upper >> shift) & 1) << 1u8) | ((lower >> shift) & 1)
}

/// Places a tile on the tile sheet.
pub fn tile_position(tile: usize) -> (origin: (usize, usize))
    requires
        tile < 0x1_0000,
    ensures
        origin.0 == tile_origin(tile as int).0,
        origin.1 == tile_origin(tile as int).1,
{
    ((tile % TILES_PER_ROW) * TILE_PITCH, (tile / TILES_PER_ROW) * TILE_PITCH)
}

/// Picks the colour that the tile sheet shows for a colour of a tile.
pub fn sheet_color(color: u8) -> (rgb: (u8, u8, u8))
    requires
        color < 4,
    ensures
        rgb == system_color(sheet_color_index(color)),
{
    if color == 0 {
        system_palette(0x01)
    } else if color == 1 {
        system_palette(0x23)
    } else if color == 2 {
        system_palette(0x30)
    } else {
        system_palette(0x3F)
    }
}

} // verus!
