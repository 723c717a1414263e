//! The battle screen of a turn-based card game client: where the rune slots
//! and the cards of the hand go on screen, which rune each slot shows, and
//! how input turns into turn requests and service answers into screen state.
pub mod battle;
pub mod layout;
pub mod runes;
