use battle_screen::battle::{Battle, InputEvent, InputLatch, Snapshot, RETURN_CARD, ROTATION_STEP};
use battle_screen::layout::{
    card_rect_at, contains, get_location_of_cards, pick_card, HandCard, Point, Rect, Viewport,
    UNITS_PER_PIXEL,
};
use battle_screen::runes::{
    has_hexa_rune, has_rune, inner_slot_color, outer_slot_color, slot_source, Rgb, Side,
    SlotSource,
};

fn strings(items: &[&str]) -> Vec<String> {
    items.iter().map(|s| s.to_string()).collect()
}

fn snapshot(hand: &[&str], enemy_small_runes: &[&str]) -> Snapshot {
    Snapshot {
        player_hp: 30,
        enemy_hp: 30,
        player_mana: 3,
        enemy_mana: 3,
        enemy_hand_size: 0,
        hand: strings(hand),
        player_small_runes: Vec::new(),
        enemy_small_runes: strings(enemy_small_runes),
        hexa_runes: Vec::new(),
    }
}

const VIEW: Viewport = Viewport { width: 800, height: 600 };

/// The centre of a rectangle, in fixed-point units.
fn centre(r: &Rect) -> Point {
    Point { x: r.x + r.width / 2, y: r.y + r.height / 2 }
}

#[test]
fn outer_ring_reads_enemy_player_enemy() {
    let p = strings(&["p0", "p1", "p2", "p3"]);
    let e = strings(&["e0", "e1", "e2", "e3"]);
    assert_eq!(has_rune(0, &p, &e), e.get(0));
    assert_eq!(has_rune(1, &p, &e), p.get(0));
    assert_eq!(has_rune(3, &p, &e), p.get(2));
    assert_eq!(has_rune(4, &p, &e), p.get(3));
    assert_eq!(has_rune(5, &p, &e), e.get(3));
    assert_eq!(has_rune(6, &p, &e), e.get(2));
    assert_eq!(has_rune(7, &p, &e), e.get(1));
}

#[test]
fn short_collections_show_no_rune() {
    let p = strings(&["p0"]);
    let e: Vec<String> = Vec::new();
    for i in 0..8 {
        if i == 1 {
            assert_eq!(has_rune(i, &p, &e), Some(&"p0".to_string()));
        } else {
            assert_eq!(has_rune(i, &p, &e), None);
        }
    }
}

#[test]
fn slot_table() {
    assert_eq!(slot_source(0), SlotSource { side: Side::Enemy, position: 0 });
    assert_eq!(slot_source(2), SlotSource { side: Side::Player, position: 1 });
    assert_eq!(slot_source(5), SlotSource { side: Side::Enemy, position: 3 });
    assert_eq!(slot_source(7), SlotSource { side: Side::Enemy, position: 1 });
}

#[test]
fn hexa_presence() {
    let h = strings(&["x", "y"]);
    assert!(has_hexa_rune(0, &h));
    assert!(has_hexa_rune(1, &h));
    assert!(!has_hexa_rune(2, &h));
    assert!(!has_hexa_rune(4, &h));
}

#[test]
fn slot_colours() {
    assert_eq!(outer_slot_color(3, true), Rgb { r: 93, g: 0, b: 255 });
    assert_eq!(outer_slot_color(7, false), Rgb { r: 255, g: 0, b: 217 });
    assert_eq!(inner_slot_color(4, true), Rgb { r: 255, g: 252, b: 0 });
    assert_eq!(inner_slot_color(2, false), Rgb { r: 0, g: 255, b: 126 });
}

#[test]
fn hand_layout_fractions() {
    // 800 x 600 pixels: width 110 px, height 170 px, x 5 px, y 5 px + 28 px per card.
    let hand = get_location_of_cards(strings(&["A", "B", "C"]), VIEW);
    assert_eq!(hand.len(), 3);
    for (i, card) in hand.iter().enumerate() {
        assert_eq!(card.rect.width, 110 * UNITS_PER_PIXEL);
        assert_eq!(card.rect.height, 170 * UNITS_PER_PIXEL);
        assert_eq!(card.rect.x, 5 * UNITS_PER_PIXEL);
        assert_eq!(card.rect.y, (5 + 28 * i as i128) * UNITS_PER_PIXEL);
    }
    assert_eq!(hand[1].label, "B");
    assert_eq!(hand[2].rect.y - hand[1].rect.y, 28 * UNITS_PER_PIXEL);
    assert_eq!(card_rect_at(VIEW, 2), hand[2].rect);
}

#[test]
fn empty_hand_has_no_rectangles() {
    assert!(get_location_of_cards(Vec::new(), VIEW).is_empty());
}

#[test]
fn contains_is_half_open() {
    let r = Rect { x: 0, y: 0, width: 10, height: 10 };
    assert!(contains(&r, &Point { x: 0, y: 0 }));
    assert!(contains(&r, &Point { x: 9, y: 9 }));
    assert!(!contains(&r, &Point { x: 10, y: 5 }));
    assert!(!contains(&r, &Point { x: 5, y: 10 }));
    assert!(!contains(&r, &Point { x: -1, y: 5 }));
}

#[test]
fn pick_prefers_last_card() {
    let hand = get_location_of_cards(strings(&["A", "B"]), VIEW);
    // Inside both rectangles: they overlap, and the later card wins.
    let both = Point { x: hand[0].rect.x + 1, y: hand[1].rect.y + 1 };
    assert_eq!(pick_card(&hand, &both), Some(1));
    // Only inside the first.
    let first = Point { x: hand[0].rect.x + 1, y: hand[0].rect.y + 1 };
    assert_eq!(pick_card(&hand, &first), Some(0));
    let outside = Point { x: 0, y: 0 };
    assert_eq!(pick_card(&hand, &outside), None);
    let none: Vec<HandCard> = Vec::new();
    assert_eq!(pick_card(&none, &first), None);
}

#[test]
fn new_formats_labels() {
    let mut s = snapshot(&["A"], &[]);
    s.enemy_hp = -4;
    s.enemy_hand_size = 7;
    s.player_mana = 12;
    let b = Battle::new(s, VIEW);
    assert_eq!(b.player_hp, "HP: 30");
    assert_eq!(b.enemy_hp, "HP: -4");
    assert_eq!(b.enemy_hand_size, "S: 7");
    assert_eq!(b.player_mana, "12");
    assert_eq!(b.enemy_mana, "3");
    assert_eq!(b.rotation, 0);
    assert_eq!(b.latch, InputLatch { return_is_down: false, clicked: false });
}

#[test]
fn successful_turn_replaces_state() {
    let mut b = Battle::new(snapshot(&["A", "B"], &["r1"]), VIEW);
    b.update();
    let mut next = snapshot(&["C"], &[]);
    next.player_hp = 25;
    next.hexa_runes = strings(&["h"]);
    let r: Result<(), String> = b.finish_turn(Ok(next), VIEW);
    assert!(r.is_ok());
    assert_eq!(b.hand.len(), 1);
    assert_eq!(b.hand[0].label, "C");
    assert_eq!(b.player_hp, "HP: 25");
    assert!(b.enemy_runes.is_empty());
    assert_eq!(b.hexa_runes, strings(&["h"]));
    assert_eq!(b.rotation, ROTATION_STEP);
}

#[test]
fn failed_turn_keeps_state() {
    let mut b = Battle::new(snapshot(&["A", "B"], &["r1"]), VIEW);
    let _ = b.handle_event(InputEvent::ReturnKey { down: true });
    let before = b.clone();
    let r = b.finish_turn(Err("service down".to_string()), VIEW);
    assert_eq!(r, Err("service down".to_string()));
    assert_eq!(b, before);
}

#[test]
fn return_key_is_debounced() {
    let mut b = Battle::new(snapshot(&["A"], &[]), VIEW);
    assert_eq!(b.handle_event(InputEvent::ReturnKey { down: true }), Some(RETURN_CARD));
    assert_eq!(b.handle_event(InputEvent::ReturnKey { down: true }), None);
    assert_eq!(b.handle_event(InputEvent::ReturnKey { down: false }), None);
    assert_eq!(b.handle_event(InputEvent::ReturnKey { down: true }), Some(RETURN_CARD));
}

#[test]
fn pointer_is_debounced() {
    let mut b = Battle::new(snapshot(&["A", "B"], &[]), VIEW);
    let at = centre(&b.hand[1].rect);
    let press = InputEvent::PrimaryButton { down: true, at };
    assert_eq!(b.handle_event(press), Some(1));
    assert_eq!(b.handle_event(press), None);
    assert_eq!(b.handle_event(InputEvent::PrimaryButton { down: false, at }), None);
    assert_eq!(b.handle_event(press), Some(1));
}

#[test]
fn click_outside_cards_requests_nothing() {
    let mut b = Battle::new(snapshot(&["A"], &[]), VIEW);
    let at = Point { x: 700 * UNITS_PER_PIXEL, y: 500 * UNITS_PER_PIXEL };
    assert_eq!(b.handle_event(InputEvent::PrimaryButton { down: true, at }), None);
    assert!(b.latch.clicked);
    assert_eq!(b.handle_event(InputEvent::Other), None);
}

#[test]
fn update_advances_rotation() {
    let mut b = Battle::new(snapshot(&[], &[]), VIEW);
    b.update();
    b.update();
    assert_eq!(b.rotation, 2 * ROTATION_STEP);
}

#[test]
fn end_to_end_first_snapshot() {
    let s = Snapshot {
        player_hp: 30,
        enemy_hp: 30,
        player_mana: 3,
        enemy_mana: 3,
        enemy_hand_size: 0,
        hand: strings(&["A", "B"]),
        player_small_runes: Vec::new(),
        enemy_small_runes: strings(&["r1"]),
        hexa_runes: Vec::new(),
    };
    let mut b = Battle::new(s, VIEW);
    assert_eq!(b.hand.len(), 2);
    assert_eq!(b.outer_color(0), outer_slot_color(0, true));
    assert_eq!(b.outer_color(1), outer_slot_color(1, false));
    assert_eq!(b.inner_color(0), inner_slot_color(0, false));
    let r1 = b.hand[1].rect;
    let inside = Point { x: r1.x + r1.width - 1, y: r1.y + r1.height - 1 };
    assert_eq!(b.handle_event(InputEvent::PrimaryButton { down: true, at: inside }), Some(1));
}
