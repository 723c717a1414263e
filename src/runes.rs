//! Rune ownership on the two rings of the battle board.
//!
//! The outer ring has eight slots shared by both sides: slot 0 and slots 5 to 7
//! show the enemy's small runes, mirrored around slot 0, and slots 1 to 4 show
//! the player's small runes in order. The inner ring has five slots, one per
//! hexa rune.
use vstd::prelude::*;

verus! {

/// Number of slots on the outer ring.
pub const OUTER_SLOTS: usize = 8;

/// Number of slots on the inner ring.
pub const INNER_SLOTS: usize = 5;

/// The side whose rune collection feeds a slot of the outer ring.
#[derive(Clone, Copy, Debug, PartialEq, Eq, Structural)]
pub enum Side {
    Player,
    Enemy,
}

/// Where an outer-ring slot takes its rune from: a side and a position in
/// that side's collection.
#[derive(Clone, Copy, Debug, PartialEq, Eq, Structural)]
pub struct SlotSource {
    pub side: Side,
    pub position: usize,
}

/// The mapping table from outer-ring slot to rune source.
pub open spec fn slot_source_spec(index: int) -> SlotSource {
    if index == 0 {
        SlotSource { side: Side::Enemy, position: 0 }
    } else if index <= 4 {
        SlotSource { side: Side::Player, position: (index - 1) as usize }
    } else {
        SlotSource { side: Side::Enemy, position: (8 - index) as usize }
    }
}

/// The element at `k`, or nothing when `k` is past the end.
pub open spec fn entry(runes: Seq<String>, k: int) -> Option<String> {
    if 0 <= k < runes.len() {
        Some(runes[k])
    } else {
        None
    }
}

/// The rune shown on outer-ring slot `index`, if any.
pub open spec fn rune_at(index: int, player: Seq<String>, enemy: Seq<String>) -> Option<String> {
    let src = slot_source_spec(index);
    match src.side {
        Side::Player => entry(player, src.position as int),
        Side::Enemy => entry(enemy, src.position as int),
    }
}

/// The value behind an optional reference.
pub open spec fn owned(r: Option<&String>) -> Option<String> {
    match r {
        Some(s) => Some(*s),
        None => None,
    }
}

/// Looks up the rune source of an outer-ring slot.
pub fn slot_source(index: usize) -> (r: SlotSource)
    requires
        index < OUTER_SLOTS,
    ensures
        r == slot_source_spec(index as int),
{
    if index == 0 {
        SlotSource { side: Side::Enemy, position: 0 }
    } else if index <= 4 {
        SlotSource { side: Side::Player, position: index - 1 }
    } else {
        SlotSource { side: Side::Enemy, position: 8 - index }
    }
}

/// The rune that occupies outer-ring slot `index`, taken from the player's or
/// the enemy's small runes; `None` where that collection is too short.
pub fn has_rune<'a>(index: usize, player_runes: &'a [String], enemy_runes: &'a [String]) -> (r:
    Option<&'a String>)
    requires
        index < OUTER_SLOTS,
    ensures
        owned(r) == rune_at(index as int, player_runes@, enemy_runes@),
{
    let src = slot_source(index);
    match src.side {
        Side::Player => player_runes.get(src.position),
        Side::Enemy => enemy_runes.get(src.position),
    }
}

/// Whether inner-ring slot `index` holds a hexa rune.
pub fn has_hexa_rune(index: usize, hexa_runes: &[String]) -> (r: bool)
    ensures
        r == (index < hexa_runes@.len()),
{
    index < hexa_runes.len()
}

/// A fill colour, one byte per channel.
#[derive(Clone, Copy, Debug, PartialEq, Eq, Structural)]
pub struct Rgb {
    pub r: u8,
    pub g: u8,
    pub b: u8,
}

/// The fill of outer-ring slot `index`: a blue ramp where a rune is present,
/// a red ramp where the slot is empty.
pub open spec fn outer_color_spec(index: int, owned: bool) -> Rgb {
    if owned {
        Rgb { r: (31 * index) as u8, g: 0, b: 255 }
    } else {
        Rgb { r: 255, g: 0, b: (31 * index) as u8 }
    }
}

/// The fill of inner-ring slot `index`: an orange ramp where a hexa rune is
/// present, a green ramp where the slot is empty.
pub open spec fn inner_color_spec(index: int, present: bool) -> Rgb {
    if present {
        Rgb { r: 255, g: (63 * index) as u8, b: 0 }
    } else {
        Rgb { r: 0, g: 255, b: (63 * index) as u8 }
    }
}

/// Colour of an outer-ring slot.
pub fn outer_slot_color(index: usize, owned: bool) -> (c: Rgb)
    requires
        index < OUTER_SLOTS,
    ensures
        c == outer_color_spec(index as int, owned),
{
    let k = index as u8;
    if owned {
        Rgb { r: k * 31, g: 0, b: 255 }
    } else {
        Rgb { r: 255, g: 0, b: k * 31 }
    }
}

/// Colour of an inner-ring slot.
pub fn inner_slot_color(index: usize, present: bool) -> (c: Rgb)
    requires
        index < INNER_SLOTS,
    ensures
        c == inner_color_spec(index as int, present),
{
    let k = index as u8;
    if present {
        Rgb { r: 255, g: k * 63, b: 0 }
    } else {
        Rgb { r: 0, g: 255, b: k * 63 }
    }
}

/// The first slots of the outer ring read the enemy's first rune, then the
/// player's runes in order, then the enemy's remaining runes backwards.
pub proof fn lemma_outer_ring_mapping(player: Seq<String>, enemy: Seq<String>)
    ensures
        rune_at(0, player, enemy) == entry(enemy, 0),
        forall|i: int| 1 <= i <= 4 ==> rune_at(i, player, enemy) == entry(player, i - 1),
        forall|i: int| 5 <= i < 8 ==> rune_at(i, player, enemy) == entry(enemy, 8 - i),
{
}

/// A slot shows no rune exactly when the collection it reads is too short to
/// reach its position: looking past the end is never an error.
pub proof fn lemma_short_collection_is_empty(index: int, player: Seq<String>, enemy: Seq<String>)
    requires
        0 <= index < 8,
    ensures
        (rune_at(index, player, enemy) is None) <==> slot_source_spec(index).position >= (
        match slot_source_spec(index).side {
            Side::Player => player.len(),
            Side::Enemy => enemy.len(),
        }),
{
}

} // verus!
