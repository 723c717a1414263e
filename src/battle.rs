//! The battle screen's state and its turn protocol.
//!
//! The screen never talks to the battle service itself. `Battle::handle_event`
//! turns an input event into at most one turn request; whoever drives the
//! screen sends it, and hands the service's answer to `Battle::finish_turn`.
use vstd::prelude::*;
use crate::layout::{
    get_location_of_cards, is_layout_of, pick_card, rects_in_range,
    topmost_hit, as_index, HandCard, Point, Viewport,
};
use crate::runes::{
    has_hexa_rune, has_rune, inner_color_spec, inner_slot_color, outer_color_spec,
    outer_slot_color, rune_at, Rgb, INNER_SLOTS, OUTER_SLOTS,
};

verus! {

/// Rotation of the inner ring per frame, in microradians.
pub const ROTATION_STEP: u64 = 500;

/// Fixed rotation of the outer ring, in microradians.
pub const OUTER_ROTATION: u64 = 10_000_000;

/// Card index that the Return key plays.
pub const RETURN_CARD: usize = 0;

/// The state of a match as the battle service reports it.
#[derive(Clone, Debug, PartialEq, Eq)]
pub struct Snapshot {
    pub player_hp: i64,
    pub enemy_hp: i64,
    pub player_mana: i64,
    pub enemy_mana: i64,
    pub enemy_hand_size: i64,
    pub hand: Vec<String>,
    pub player_small_runes: Vec<String>,
    pub enemy_small_runes: Vec<String>,
    pub hexa_runes: Vec<String>,
}

/// An input event, as far as the battle screen cares.
#[derive(Clone, Copy, Debug, PartialEq, Eq, Structural)]
pub enum InputEvent {
    /// The Return key went down or up.
    ReturnKey { down: bool },
    /// The primary pointer button went down or up, with the cursor at `at`.
    PrimaryButton { down: bool, at: Point },
    /// Anything else.
    Other,
}

/// Which inputs are currently held down: a held input does not trigger again.
#[derive(Clone, Copy, Debug, PartialEq, Eq, Structural)]
pub struct InputLatch {
    pub return_is_down: bool,
    pub clicked: bool,
}

/// The latch after `ev`, and the card index of the turn request it triggers.
pub open spec fn dispatch(latch: InputLatch, ev: InputEvent, hand: Seq<HandCard>) -> (
    InputLatch,
    Option<int>,
) {
    match ev {
        InputEvent::ReturnKey { down } => if down && !latch.return_is_down {
            (InputLatch { return_is_down: true, ..latch }, Some(RETURN_CARD as int))
        } else if down {
            (latch, None)
        } else {
            (InputLatch { return_is_down: false, ..latch }, None)
        },
        InputEvent::PrimaryButton { down, at } => if down && !latch.clicked {
            (InputLatch { clicked: true, ..latch }, topmost_hit(hand, at))
        } else if down {
            (latch, None)
        } else {
            (InputLatch { clicked: false, ..latch }, None)
        },
        InputEvent::Other => (latch, None),
    }
}

/// The digit `d` as a character.
pub open spec fn digit_char(d: int) -> char {
    seq!['0', '1', '2', '3', '4', '5', '6', '7', '8', '9'][d]
}

/// The decimal digits of `n`, most significant first.
pub open spec fn digits(n: nat) -> Seq<char>
    decreases n,
{
    if n < 10 {
        seq![digit_char(n as int)]
    } else {
        digits(n / 10).push(digit_char((n % 10) as int))
    }
}

/// `n` written in decimal, with a leading minus sign when negative.
pub open spec fn decimal(n: int) -> Seq<char> {
    if n < 0 {
        seq!['-'] + digits((-n) as nat)
    } else {
        digits(n as nat)
    }
}

/// Relies on `format!` with `i64`'s `Display`, which writes the number in
/// decimal, after the prefix.
#[verifier::external_body]
fn labelled(prefix: &str, n: i64) -> (r: String)
    ensures
        r@ == prefix@ + decimal(n as int),
{
    format!("{}{}", prefix, n)
}

/// The label of a hit-point count.
pub open spec fn hp_label(n: i64) -> Seq<char> {
    seq!['H', 'P', ':', ' '] + decimal(n as int)
}

/// The label of the enemy's hand size.
pub open spec fn hand_size_label(n: i64) -> Seq<char> {
    seq!['S', ':', ' '] + decimal(n as int)
}

/// The state of the battle screen.
#[derive(Clone, Debug, PartialEq, Eq)]
pub struct Battle {
    /// The player's hand, laid out for the viewport.
    pub hand: Vec<HandCard>,
    pub player_runes: Vec<String>,
    pub enemy_runes: Vec<String>,
    pub hexa_runes: Vec<String>,
    /// Rotation of the inner ring, in microradians.
    pub rotation: u64,
    pub latch: InputLatch,
    pub enemy_hp: String,
    pub enemy_hand_size: String,
    pub player_hp: String,
    pub enemy_mana: String,
    pub player_mana: String,
}

impl Battle {
    /// The hand's rectangles can be hit-tested.
    pub open spec fn wf(&self) -> bool {
        rects_in_range(self.hand@)
    }

    /// Every field that a snapshot sets holds what `snap` reports, laid out
    /// for `v`.
    pub open spec fn shows(&self, snap: Snapshot, v: Viewport) -> bool {
        &&& is_layout_of(self.hand@, snap.hand@, v)
        &&& self.player_runes@ == snap.player_small_runes@
        &&& self.enemy_runes@ == snap.enemy_small_runes@
        &&& self.hexa_runes@ == snap.hexa_runes@
        &&& self.player_hp@ == hp_label(snap.player_hp)
        &&& self.enemy_hp@ == hp_label(snap.enemy_hp)
        &&& self.enemy_hand_size@ == hand_size_label(snap.enemy_hand_size)
        &&& self.player_mana@ == decimal(snap.player_mana as int)
        &&& self.enemy_mana@ == decimal(snap.enemy_mana as int)
    }

    /// The screen for the match's first snapshot: nothing held down, the
    /// inner ring unrotated.
    pub fn new(snapshot: Snapshot, viewport: Viewport) -> (r: Battle)
        ensures
            r.wf(),
            r.shows(snapshot, viewport),
            r.rotation == 0,
            r.latch == (InputLatch { return_is_down: false, clicked: false }),
    {
        let ghost snap = snapshot;
        let hand = get_location_of_cards(snapshot.hand, viewport);
        proof {
            reveal_strlit("HP: ");
            reveal_strlit("S: ");
            reveal_strlit("");
            assert("HP: "@ =~= seq!['H', 'P', ':', ' ']);
            assert("S: "@ =~= seq!['S', ':', ' ']);
            assert(""@ =~= Seq::<char>::empty());
        }
        Battle {
            hand,
            player_runes: snapshot.player_small_runes,
            enemy_runes: snapshot.enemy_small_runes,
            hexa_runes: snapshot.hexa_runes,
            rotation: 0,
            latch: InputLatch { return_is_down: false, clicked: false },
            enemy_hp: labelled("HP: ", snapshot.enemy_hp),
            enemy_hand_size: labelled("S: ", snapshot.enemy_hand_size),
            player_hp: labelled("HP: ", snapshot.player_hp),
            enemy_mana: labelled("", snapshot.enemy_mana),
            player_mana: labelled("", snapshot.player_mana),
        }
    }

    /// Replaces every field that a snapshot sets, laying the new hand out for
    /// `viewport`; the ring rotation and the held inputs stay.
    pub fn apply_snapshot(&mut self, snapshot: Snapshot, viewport: Viewport)
        ensures
            final(self).wf(),
            final(self).shows(snapshot, viewport),
            final(self).rotation == old(self).rotation,
            final(self).latch == old(self).latch,
    {
        let ghost snap = snapshot;
        self.hand = get_location_of_cards(snapshot.hand, viewport);
        proof {
            reveal_strlit("HP: ");
            reveal_strlit("S: ");
            reveal_strlit("");
            assert("HP: "@ =~= seq!['H', 'P', ':', ' ']);
            assert("S: "@ =~= seq!['S', ':', ' ']);
            assert(""@ =~= Seq::<char>::empty());
        }
        self.enemy_hand_size = labelled("S: ", snapshot.enemy_hand_size);
        self.enemy_hp = labelled("HP: ", snapshot.enemy_hp);
        self.player_hp = labelled("HP: ", snapshot.player_hp);
        self.enemy_runes = snapshot.enemy_small_runes;
        self.player_runes = snapshot.player_small_runes;
        self.enemy_mana = labelled("", snapshot.enemy_mana);
        self.player_mana = labelled("", snapshot.player_mana);
        self.hexa_runes = snapshot.hexa_runes;
    }

    /// Folds the battle service's answer to a turn request into the screen.
    /// A snapshot replaces the match state; an error leaves the screen exactly
    /// as it was and is handed back.
    pub fn finish_turn<E>(&mut self, outcome: Result<Snapshot, E>, viewport: Viewport) -> (r:
        Result<(), E>)
        ensures
            match outcome {
                Ok(snap) => {
                    &&& r is Ok
                    &&& final(self).wf()
                    &&& final(self).shows(snap, viewport)
                    &&& final(self).rotation == old(self).rotation
                    &&& final(self).latch == old(self).latch
                },
                Err(e) => r == Err::<(), E>(e) && *final(self) == *old(self),
            },
    {
        match outcome {
            Ok(snapshot) => {
                self.apply_snapshot(snapshot, viewport);
                Ok(())
            },
            Err(e) => Err(e),
        }
    }

    /// Reads one input event. A press of Return or of the primary button
    /// that is not already held triggers a turn request, whose card index is
    /// returned: Return plays `RETURN_CARD`, a click plays the topmost card
    /// under the cursor, if any. A release clears the hold. Only the held
    /// inputs change.
    pub fn handle_event(&mut self, event: InputEvent) -> (r: Option<usize>)
        requires
            old(self).wf(),
        ensures
            (final(self).latch, as_index(r)) == dispatch(old(self).latch, event, old(self).hand@),
            *final(self) == (Battle { latch: final(self).latch, ..*old(self) }),
    {
        match event {
            InputEvent::ReturnKey { down } => {
                if down && !self.latch.return_is_down {
                    self.latch.return_is_down = true;
                    Some(RETURN_CARD)
                } else if down {
                    None
                } else {
                    self.latch.return_is_down = false;
                    None
                }
            },
            InputEvent::PrimaryButton { down, at } => {
                if down && !self.latch.clicked {
                    self.latch.clicked = true;
                    pick_card(&self.hand, &at)
                } else if down {
                    None
                } else {
                    self.latch.clicked = false;
                    None
                }
            },
            InputEvent::Other => None,
        }
    }

    /// Advances the inner ring by one frame's rotation.
    pub fn update(&mut self)
        requires
            old(self).rotation <= u64::MAX - ROTATION_STEP,
        ensures
            *final(self) == (Battle { rotation: (old(self).rotation + ROTATION_STEP) as u64, ..*old(self) }),
    {
        self.rotation = self.rotation + ROTATION_STEP;
    }

    /// Colour of outer-ring slot `index`: owned when the side it reads has a
    /// rune for it.
    pub fn outer_color(&self, index: usize) -> (c: Rgb)
        requires
            index < OUTER_SLOTS,
        ensures
            c == outer_color_spec(
                index as int,
                rune_at(index as int, self.player_runes@, self.enemy_runes@) is Some,
            ),
    {
        let rune = has_rune(index, self.player_runes.as_slice(), self.enemy_runes.as_slice());
        outer_slot_color(index, rune.is_some())
    }

    /// Colour of inner-ring slot `index`: present when there is a hexa rune
    /// for it.
    pub fn inner_color(&self, index: usize) -> (c: Rgb)
        requires
            index < INNER_SLOTS,
        ensures
            c == inner_color_spec(index as int, index < self.hexa_runes@.len()),
    {
        inner_slot_color(index, has_hexa_rune(index, self.hexa_runes.as_slice()))
    }
}

/// A press sets the hold of its input. While an input is held, every event
/// but its release keeps it held, and a press of it triggers nothing, whatever
/// other events come between.
pub proof fn lemma_held_input(latch: InputLatch, event: InputEvent, hand: Seq<HandCard>)
    ensures
        (event matches InputEvent::ReturnKey { down: true }) ==> dispatch(latch, event, hand).0.return_is_down,
        (event matches InputEvent::PrimaryButton { down: true, .. }) ==> dispatch(latch, event, hand).0.clicked,
        latch.return_is_down && !(event matches InputEvent::ReturnKey { down: false })
            ==> dispatch(latch, event, hand).0.return_is_down,
        latch.clicked && !(event matches InputEvent::PrimaryButton { down: false, .. })
            ==> dispatch(latch, event, hand).0.clicked,
        latch.return_is_down && (event matches InputEvent::ReturnKey { down: true })
            ==> dispatch(latch, event, hand).1 is None,
        latch.clicked && (event matches InputEvent::PrimaryButton { down: true, .. })
            ==> dispatch(latch, event, hand).1 is None,
{
}

/// Two presses of one input with no release between them trigger at most one
/// turn request, whatever happened to the hand in between.
pub proof fn lemma_debounce(
    latch: InputLatch,
    first: InputEvent,
    second: InputEvent,
    hand_before: Seq<HandCard>,
    hand_after: Seq<HandCard>,
)
    requires
        (first matches InputEvent::ReturnKey { down: true } && second matches InputEvent::ReturnKey { down: true })
            || (first matches InputEvent::PrimaryButton { down: true, .. }
            && second matches InputEvent::PrimaryButton { down: true, .. }),
    ensures
        dispatch(dispatch(latch, first, hand_before).0, second, hand_after).1 is None,
{
}

} // verus!
