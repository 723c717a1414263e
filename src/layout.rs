//! Screen geometry of the player's hand.
//!
//! Coordinates are fixed-point: one pixel is `UNITS_PER_PIXEL` units, which
//! makes every layout fraction of the viewport exact.
use vstd::prelude::*;

verus! {

/// Fixed-point units in one pixel.
pub const UNITS_PER_PIXEL: i128 = 2400;

/// The size of the window, in whole pixels.
#[derive(Clone, Copy, Debug, PartialEq, Eq, Structural)]
pub struct Viewport {
    pub width: u32,
    pub height: u32,
}

/// A point, in fixed-point units.
#[derive(Clone, Copy, Debug, PartialEq, Eq, Structural)]
pub struct Point {
    pub x: i128,
    pub y: i128,
}

/// An axis-aligned rectangle, in fixed-point units: top-left corner and size.
#[derive(Clone, Copy, Debug, PartialEq, Eq, Structural)]
pub struct Rect {
    pub x: i128,
    pub y: i128,
    pub width: i128,
    pub height: i128,
}

/// A card of the hand with the rectangle it is drawn in.
#[derive(Clone, Debug, PartialEq, Eq)]
pub struct HandCard {
    pub label: String,
    pub rect: Rect,
}

/// Card width: 0.1375 of the viewport width.
pub open spec fn card_width(v: Viewport) -> int {
    330 * v.width
}

/// Card height: 17/60 of the viewport height.
pub open spec fn card_height(v: Viewport) -> int {
    680 * v.height
}

/// Left margin of every card: 0.00625 of the viewport width.
pub open spec fn card_x(v: Viewport) -> int {
    15 * v.width
}

/// Top of card `index`: (1/120 + 7/150 * index) of the viewport height.
pub open spec fn card_y(v: Viewport, index: int) -> int {
    (20 + 112 * index) * v.height
}

/// Vertical step between two consecutive cards: 7/150 of the viewport height.
pub open spec fn card_step(v: Viewport) -> int {
    112 * v.height
}

/// The rectangle of card `index` in viewport `v`.
pub open spec fn card_rect(v: Viewport, index: int) -> Rect {
    Rect {
        x: card_x(v) as i128,
        y: card_y(v, index) as i128,
        width: card_width(v) as i128,
        height: card_height(v) as i128,
    }
}

/// Whether `p` lies in `r`: left and top edges included, right and bottom
/// edges excluded.
pub open spec fn rect_contains(r: Rect, p: Point) -> bool {
    r.x <= p.x < r.x + r.width && r.y <= p.y < r.y + r.height
}

/// Whether the hand is `labels`, in order, each card in its layout rectangle.
pub open spec fn is_layout_of(hand: Seq<HandCard>, labels: Seq<String>, v: Viewport) -> bool {
    &&& hand.len() == labels.len()
    &&& forall|i: int|
        0 <= i < hand.len() ==> (#[trigger] hand[i]).label == labels[i] && hand[i].rect
            == card_rect(v, i)
}

/// The rectangle of card `index`.
pub fn card_rect_at(v: Viewport, index: usize) -> (r: Rect)
    ensures
        r == card_rect(v, index as int),
{
    let w = v.width as i128;
    let h = v.height as i128;
    let i = index as i128;
    assert(0 <= (20 + 112 * i) * h <= (20 + 112 * 0x1_0000_0000_0000_0000) * 0x1_0000_0000)
        by (nonlinear_arith)
        requires
            0 <= i < 0x1_0000_0000_0000_0000,
            0 <= h < 0x1_0000_0000,
    ;
    Rect { x: 15 * w, y: (20 + 112 * i) * h, width: 330 * w, height: 680 * h }
}

/// Lays out a hand: one rectangle per card, in order, stacked downwards.
pub fn get_location_of_cards(cards: Vec<String>, resolution: Viewport) -> (r: Vec<HandCard>)
    ensures
        is_layout_of(r@, cards@, resolution),
        rects_in_range(r@),
{
    let mut hand: Vec<HandCard> = Vec::new();
    let n = cards.len();
    let mut i: usize = 0;
    while i < n
        invariant
            n == cards@.len(),
            i <= n,
            is_layout_of(hand@, cards@.subrange(0, i as int), resolution),
        decreases n - i,
    {
        let label = cards[i].clone();
        let rect = card_rect_at(resolution, i);
        hand.push(HandCard { label, rect });
        i = i + 1;
    }
    assert(cards@.subrange(0, n as int) =~= cards@);
    proof {
        lemma_layout_in_range(hand@, cards@, resolution);
    }
    hand
}

/// Whether `p` lies in `r`.
pub fn contains(r: &Rect, p: &Point) -> (b: bool)
    requires
        r.width >= 0,
        r.height >= 0,
        r.x + r.width <= i128::MAX,
        r.y + r.height <= i128::MAX,
    ensures
        b == rect_contains(*r, *p),
{
    r.x <= p.x && p.x < r.x + r.width && r.y <= p.y && p.y < r.y + r.height
}

/// Whether the rectangles of `hand` fit in fixed-point arithmetic.
pub open spec fn rects_in_range(hand: Seq<HandCard>) -> bool {
    forall|i: int|
        0 <= i < hand.len() ==> {
            let r = #[trigger] hand[i].rect;
            r.width >= 0 && r.height >= 0 && r.x + r.width <= i128::MAX && r.y + r.height
                <= i128::MAX
        }
}

/// The highest index below `n` whose rectangle contains `p`, if any.
pub open spec fn hit_below(hand: Seq<HandCard>, p: Point, n: int) -> Option<int>
    decreases n,
{
    if n <= 0 {
        None
    } else if rect_contains(hand[n - 1].rect, p) {
        Some(n - 1)
    } else {
        hit_below(hand, p, n - 1)
    }
}

/// The card that a click at `p` picks: the highest index whose rectangle
/// contains `p`, or none.
pub open spec fn topmost_hit(hand: Seq<HandCard>, p: Point) -> Option<int> {
    hit_below(hand, p, hand.len() as int)
}

/// The index held by an optional `usize`, as an integer.
pub open spec fn as_index(r: Option<usize>) -> Option<int> {
    match r {
        Some(k) => Some(k as int),
        None => None,
    }
}

/// Finds the card under `p`, scanning from the last card to the first so that
/// the card drawn last wins where two overlap.
pub fn pick_card(hand: &Vec<HandCard>, p: &Point) -> (r: Option<usize>)
    requires
        rects_in_range(hand@),
    ensures
        as_index(r) == topmost_hit(hand@, *p),
{
    let mut i: usize = hand.len();
    while i > 0
        invariant
            i <= hand@.len(),
            rects_in_range(hand@),
            topmost_hit(hand@, *p) == hit_below(hand@, *p, i as int),
        decreases i,
    {
        let k = i - 1;
        assert(rects_in_range(hand@) ==> {
            let r = hand@[k as int].rect;
            r.width >= 0 && r.height >= 0 && r.x + r.width <= i128::MAX && r.y + r.height
                <= i128::MAX
        });
        if contains(&hand[k].rect, p) {
            return Some(k);
        }
        i = k;
    }
    None
}

/// The picked card contains the point, and no card after it does.
pub proof fn lemma_topmost_hit(hand: Seq<HandCard>, p: Point, n: int)
    requires
        0 <= n <= hand.len(),
    ensures
        match hit_below(hand, p, n) {
            Some(k) => 0 <= k < n && rect_contains(hand[k].rect, p) && forall|j: int|
                k < j < n ==> !rect_contains(#[trigger] hand[j].rect, p),
            None => forall|j: int| 0 <= j < n ==> !rect_contains(#[trigger] hand[j].rect, p),
        },
    decreases n,
{
    if n > 0 {
        lemma_topmost_hit(hand, p, n - 1);
    }
}

/// Every coordinate of a card's rectangle fits the fixed-point type.
proof fn lemma_card_rect_fits(v: Viewport, index: int)
    requires
        0 <= index <= usize::MAX,
    ensures
        0 <= card_y(v, index) <= 0x1_0000_0000_0000_0000_0000_0000_0000,
        0 <= card_x(v) <= 0x1_0000_0000_0000,
        0 <= card_width(v) <= 0x1_0000_0000_0000,
        0 <= card_height(v) <= 0x1_0000_0000_0000,
{
    let h = v.height as int;
    assert(0 <= (20 + 112 * index) * h <= (20 + 112 * 0x1_0000_0000_0000_0000) * 0x1_0000_0000)
        by (nonlinear_arith)
        requires
            0 <= index < 0x1_0000_0000_0000_0000,
            0 <= h < 0x1_0000_0000,
    ;
}

/// The rectangles of a laid-out hand are within the range that hit-testing
/// handles.
pub proof fn lemma_layout_in_range(hand: Seq<HandCard>, labels: Seq<String>, v: Viewport)
    requires
        is_layout_of(hand, labels, v),
        labels.len() <= usize::MAX,
    ensures
        rects_in_range(hand),
{
    assert forall|i: int| 0 <= i < hand.len() implies {
        let r = #[trigger] hand[i].rect;
        r.width >= 0 && r.height >= 0 && r.x + r.width <= i128::MAX && r.y + r.height
            <= i128::MAX
    } by {
        assert(hand[i].rect == card_rect(v, i));
        lemma_card_rect_fits(v, i);
    }
}

/// A hand of `k` cards is laid out as exactly `k` rectangles, all of one size,
/// at one left margin, each one step of 7/150 of the viewport height below the
/// one before it.
pub proof fn lemma_hand_layout(hand: Seq<HandCard>, labels: Seq<String>, v: Viewport)
    requires
        is_layout_of(hand, labels, v),
        labels.len() <= usize::MAX,
    ensures
        hand.len() == labels.len(),
        forall|i: int|
            0 <= i < hand.len() ==> (#[trigger] hand[i]).rect.width == card_width(v)
                && hand[i].rect.height == card_height(v) && hand[i].rect.x == card_x(v),
        forall|i: int|
            0 <= i < hand.len() - 1 ==> #[trigger] hand[i + 1].rect.y - hand[i].rect.y
                == card_step(v),
{
    assert forall|i: int| 0 <= i < hand.len() implies (#[trigger] hand[i]).rect.width
        == card_width(v) && hand[i].rect.height == card_height(v) && hand[i].rect.x
        == card_x(v) by {
        assert(hand[i].rect == card_rect(v, i));
        lemma_card_rect_fits(v, i);
    }
    assert forall|i: int| 0 <= i < hand.len() - 1 implies #[trigger] hand[i + 1].rect.y
        - hand[i].rect.y == card_step(v) by {
        lemma_card_rect_fits(v, i);
        lemma_card_rect_fits(v, i + 1);
        assert(hand[i].rect == card_rect(v, i));
        assert(hand[i + 1].rect == card_rect(v, i + 1));
        assert(card_y(v, i + 1) - card_y(v, i) == card_step(v)) by (nonlinear_arith);
    }
}

} // verus!
