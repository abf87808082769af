//! Rectangles and the placement of the menu's buttons on the canvas.
//!
//! The rectangle arithmetic is done by the layout engine's `Bounds` type. The
//! private functions named after its methods hand it plain rectangles and
//! state what it computes; nothing is proved of them.

use vstd::prelude::*;

verus! {

/// Width of a button.
pub const BUTTON_WIDTH: u32 = 50;

/// Height of a button.
pub const BUTTON_HEIGHT: u32 = 100;

/// Vertical gap between two neighbouring buttons.
pub const BUTTON_GAP: u32 = 4;

/// Number of buttons.
pub const BUTTON_COUNT: u32 = 4;

/// The margin that the layout adds to the four button heights: the total of
/// the gaps inside the block of buttons.
pub const BLOCK_MARGIN: u32 = 12;

/// Height of the block of buttons, with which the block is centred on the
/// canvas: four button heights and the margin.
pub const BLOCK_HEIGHT: u32 = 412;

/// Distance from one button's top edge to the next one's.
pub const BUTTON_PITCH: u32 = 104;

/// Inset of a label from its button's left edge.
pub const LABEL_INSET_LEFT: i32 = 2;

/// Inset of a label from its button's top edge.
pub const LABEL_INSET_TOP: i32 = 4;

/// Horizontal shift of the indicator from its button's left edge.
pub const INDICATOR_SHIFT: i32 = -12;

/// An axis-aligned rectangle: top-left corner and size.
#[derive(Clone, Copy, Debug, PartialEq, Eq, Structural)]
pub struct Region {
    pub x: i32,
    pub y: i32,
    pub w: u32,
    pub h: u32,
}

/// Half of `a`, rounded toward zero, as machine division rounds.
pub open spec fn half_toward_zero(a: int) -> int {
    if a >= 0 {
        a / 2
    } else {
        -((-a) / 2)
    }
}

/// Height of each row but the last when `height` is divided into `count`
/// rows with `gap` between neighbours.
pub open spec fn row_height(height: int, count: int, gap: int) -> int {
    (height - gap * (count - 1)) / count
}

/// Row `i` of `r` divided into `count` rows with `gap` between neighbours:
/// rows keep the column of `r`, start one row height and one gap apart, and
/// the last row reaches the bottom edge of `r`.
pub open spec fn row_of(r: Region, count: int, gap: int, i: int) -> Region {
    let offset = i * (row_height(r.h as int, count, gap) + gap);
    Region {
        x: r.x,
        y: (r.y + offset) as i32,
        w: r.w,
        h: if i == count - 1 {
            (r.h - offset) as u32
        } else {
            row_height(r.h as int, count, gap) as u32
        },
    }
}

/// `Bounds::width` of the layout engine: the same rectangle with its width
/// replaced by `w`.
#[verifier::external_body]
fn with_width(r: Region, w: u32) -> (out: Region)
    ensures
        out == (Region { w: w, ..r }),
{
    let b = turbo_genesis_sdk::bounds::Bounds::new(r.x, r.y, r.w, r.h).width(w);
    Region { x: b.x(), y: b.y(), w: b.w(), h: b.h() }
}

/// `Bounds::height` of the layout engine: the same rectangle with its height
/// replaced by `h`.
#[verifier::external_body]
fn with_height(r: Region, h: u32) -> (out: Region)
    ensures
        out == (Region { h: h, ..r }),
{
    let b = turbo_genesis_sdk::bounds::Bounds::new(r.x, r.y, r.w, r.h).height(h);
    Region { x: b.x(), y: b.y(), w: b.w(), h: b.h() }
}

/// `Bounds::anchor_center` of the layout engine: `r`, with its size kept,
/// moved to the middle of `container`. Each coordinate is the container's
/// plus half the difference of the sizes, rounded toward zero. The engine
/// computes in `i32`, so sizes and results have to fit.
#[verifier::external_body]
fn anchor_center(r: Region, container: Region) -> (out: Region)
    requires
        r.w <= i32::MAX,
        r.h <= i32::MAX,
        container.w <= i32::MAX,
        container.h <= i32::MAX,
        i32::MIN <= container.x + half_toward_zero(container.w - r.w) <= i32::MAX,
        i32::MIN <= container.y + half_toward_zero(container.h - r.h) <= i32::MAX,
    ensures
        out.x == container.x + half_toward_zero(container.w - r.w),
        out.y == container.y + half_toward_zero(container.h - r.h),
        out.w == r.w,
        out.h == r.h,
{
    let c = turbo_genesis_sdk::bounds::Bounds::new(container.x, container.y, container.w, container.h);
    let b = turbo_genesis_sdk::bounds::Bounds::new(r.x, r.y, r.w, r.h).anchor_center(&c);
    Region { x: b.x(), y: b.y(), w: b.w(), h: b.h() }
}

/// `Bounds::anchor_center_y` of the layout engine: `r`, with its size and
/// column kept, moved to the vertical middle of `container`.
#[verifier::external_body]
fn anchor_center_y(r: Region, container: Region) -> (out: Region)
    requires
        r.h <= i32::MAX,
        container.h <= i32::MAX,
        i32::MIN <= container.y + half_toward_zero(container.h - r.h) <= i32::MAX,
    ensures
        out.x == r.x,
        out.y == container.y + half_toward_zero(container.h - r.h),
        out.w == r.w,
        out.h == r.h,
{
    let c = turbo_genesis_sdk::bounds::Bounds::new(container.x, container.y, container.w, container.h);
    let b = turbo_genesis_sdk::bounds::Bounds::new(r.x, r.y, r.w, r.h).anchor_center_y(&c);
    Region { x: b.x(), y: b.y(), w: b.w(), h: b.h() }
}

/// `Bounds::anchor_left` of the layout engine: `r`, with its size and row
/// kept, moved to the left edge of `container`.
#[verifier::external_body]
fn anchor_left(r: Region, container: Region) -> (out: Region)
    ensures
        out == (Region { x: container.x, ..r }),
{
    let c = turbo_genesis_sdk::bounds::Bounds::new(container.x, container.y, container.w, container.h);
    let b = turbo_genesis_sdk::bounds::Bounds::new(r.x, r.y, r.w, r.h).anchor_left(&c);
    Region { x: b.x(), y: b.y(), w: b.w(), h: b.h() }
}

/// `Bounds::translate_x` of the layout engine: `r` moved by `dx` along the
/// x axis. The sum has to fit in `i32`.
#[verifier::external_body]
fn translate_x(r: Region, dx: i32) -> (out: Region)
    requires
        i32::MIN <= r.x + dx <= i32::MAX,
    ensures
        out.x == r.x + dx,
        out.y == r.y,
        out.w == r.w,
        out.h == r.h,
{
    let b = turbo_genesis_sdk::bounds::Bounds::new(r.x, r.y, r.w, r.h).translate_x(dx);
    Region { x: b.x(), y: b.y(), w: b.w(), h: b.h() }
}

/// `Bounds::inset_left` of the layout engine, for a margin that is not
/// negative: the left edge moves right by `margin` and the width shrinks by
/// as much, down to zero at most.
#[verifier::external_body]
fn inset_left(r: Region, margin: i32) -> (out: Region)
    requires
        margin >= 0,
        r.x + margin <= i32::MAX,
    ensures
        out.x == r.x + margin,
        out.y == r.y,
        out.w == if r.w >= margin { r.w - margin } else { 0 },
        out.h == r.h,
{
    let b = turbo_genesis_sdk::bounds::Bounds::new(r.x, r.y, r.w, r.h).inset_left(margin);
    Region { x: b.x(), y: b.y(), w: b.w(), h: b.h() }
}

/// `Bounds::inset_top` of the layout engine, for a margin that is not
/// negative: the top edge moves down by `margin` and the height shrinks by
/// as much, down to zero at most.
#[verifier::external_body]
fn inset_top(r: Region, margin: i32) -> (out: Region)
    requires
        margin >= 0,
        r.y + margin <= i32::MAX,
    ensures
        out.x == r.x,
        out.y == r.y + margin,
        out.w == r.w,
        out.h == if r.h >= margin { r.h - margin } else { 0 },
{
    let b = turbo_genesis_sdk::bounds::Bounds::new(r.x, r.y, r.w, r.h).inset_top(margin);
    Region { x: b.x(), y: b.y(), w: b.w(), h: b.h() }
}

/// `Bounds::rows_with_gap` of the layout engine, for two rows or more whose
/// gaps fit into the height of `r`, and an `r` whose height and bottom edge
/// fit in `i32`: the rows from top to bottom, as `row_of` gives them.
#[verifier::external_body]
fn rows_with_gap(r: Region, count: u32, gap: u32) -> (rows: Vec<Region>)
    requires
        count >= 2,
        gap * (count - 1) <= r.h,
        r.h <= i32::MAX,
        r.y + r.h <= i32::MAX,
    ensures
        rows@.len() == count,
        forall|i: int| 0 <= i < count ==> #[trigger] rows@[i] == row_of(r, count as int, gap as int, i),
{
    let b = turbo_genesis_sdk::bounds::Bounds::new(r.x, r.y, r.w, r.h);
    let mut rows: Vec<Region> = Vec::new();
    for row in b.rows_with_gap(count, gap) {
        rows.push(Region { x: row.x(), y: row.y(), w: row.w(), h: row.h() });
    }
    rows
}

/// Left edge of every button on a canvas `canvas_w` wide.
pub open spec fn button_x(canvas_w: int) -> int {
    half_toward_zero(canvas_w - BUTTON_WIDTH)
}

/// Top edge of button `i` on a canvas `canvas_h` high: the block of four
/// buttons and their gaps is centred, and the buttons follow one another at
/// a distance of one button height and one gap.
pub open spec fn button_y(canvas_h: int, i: int) -> int {
    half_toward_zero(canvas_h - BLOCK_HEIGHT) + i * BUTTON_PITCH
}

/// The rectangle of button `i`.
pub open spec fn button_region(canvas_w: int, canvas_h: int, i: int) -> Region {
    Region {
        x: button_x(canvas_w) as i32,
        y: button_y(canvas_h, i) as i32,
        w: BUTTON_WIDTH,
        h: BUTTON_HEIGHT,
    }
}

/// The rectangle in which the label of a button is drawn: the button's
/// top-left corner moved two units right and four down, with the button's
/// own size.
pub open spec fn label_region(btn: Region) -> Region {
    Region {
        x: (btn.x + LABEL_INSET_LEFT) as i32,
        y: (btn.y + LABEL_INSET_TOP) as i32,
        w: btn.w,
        h: btn.h,
    }
}

/// Where the indicator of button `btn` is drawn, for a graphic that takes up
/// the rectangle `graphic`: its size is kept, its left edge lies twelve units
/// left of the button's, and it is centred vertically on the button.
pub open spec fn indicator_region(graphic: Region, btn: Region) -> Region {
    Region {
        x: (btn.x + INDICATOR_SHIFT) as i32,
        y: (btn.y + half_toward_zero(btn.h - graphic.h)) as i32,
        w: graphic.w,
        h: graphic.h,
    }
}

/// How the layout constants hang together.
pub proof fn lemma_block_dimensions()
    ensures
        BLOCK_MARGIN == (BUTTON_COUNT - 1) * BUTTON_GAP,
        BLOCK_HEIGHT == BUTTON_COUNT * BUTTON_HEIGHT + BLOCK_MARGIN,
        BUTTON_PITCH == BUTTON_HEIGHT + BUTTON_GAP,
        row_height(BLOCK_HEIGHT as int, BUTTON_COUNT as int, BUTTON_GAP as int) == BUTTON_HEIGHT,
{
}

/// The buttons are stacked and centred: each button begins one gap below
/// the end of the one above it, and the space left over beside the column
/// and above and below the block is shared out evenly, to within one unit.
pub proof fn lemma_buttons_stacked_and_centred(canvas_w: int, canvas_h: int, i: int)
    ensures
        button_y(canvas_h, i + 1) == button_y(canvas_h, i) + BUTTON_HEIGHT + BUTTON_GAP,
        -1 <= (canvas_w - BUTTON_WIDTH - button_x(canvas_w)) - button_x(canvas_w) <= 1,
        -1 <= (canvas_h - (button_y(canvas_h, 3) + BUTTON_HEIGHT)) - button_y(canvas_h, 0) <= 1,
{
}

/// The coordinates of the buttons stay far inside the range of `i32`.
pub proof fn lemma_button_region_bounds(canvas_w: int, canvas_h: int, i: int)
    requires
        0 <= canvas_w <= i32::MAX,
        0 <= canvas_h <= i32::MAX,
        0 <= i < 4,
    ensures
        -25 <= button_x(canvas_w) <= 1073741798,
        -206 <= button_y(canvas_h, i) <= 1073741929,
        button_region(canvas_w, canvas_h, i).x == button_x(canvas_w),
        button_region(canvas_w, canvas_h, i).y == button_y(canvas_h, i),
{
}

/// The four button rectangles for a canvas of the given size, from top to
/// bottom. All are 50 wide and 100 high, share one column in the horizontal
/// middle of the canvas, and lie 4 units apart; the block they form is
/// centred vertically.
pub fn button_regions(canvas_w: u32, canvas_h: u32) -> (regions: Vec<Region>)
    requires
        canvas_w <= i32::MAX,
        canvas_h <= i32::MAX,
    ensures
        regions@.len() == 4,
        forall|i: int| 0 <= i < 4 ==> #[trigger] regions@[i] == button_region(canvas_w as int, canvas_h as int, i),
{
    let canvas = Region { x: 0, y: 0, w: canvas_w, h: canvas_h };
    let sized = with_width(with_height(canvas, BLOCK_HEIGHT), BUTTON_WIDTH);
    let block = anchor_center(sized, canvas);
    let regions = rows_with_gap(block, BUTTON_COUNT, BUTTON_GAP);
    proof {
        lemma_block_dimensions();
        assert forall|i: int| 0 <= i < 4 implies #[trigger] regions@[i] == button_region(
            canvas_w as int,
            canvas_h as int,
            i,
        ) by {
            lemma_button_region_bounds(canvas_w as int, canvas_h as int, i);
            assert(regions@[i] == row_of(block, 4, 4, i));
        }
    }
    regions
}

/// The rectangle for the label of button `btn`.
pub fn label_bounds(btn: Region) -> (inner: Region)
    requires
        btn.x + 2 <= i32::MAX,
        btn.y + 4 <= i32::MAX,
    ensures
        inner == label_region(btn),
{
    let inner = inset_top(inset_left(btn, LABEL_INSET_LEFT), LABEL_INSET_TOP);
    Region { x: inner.x, y: inner.y, w: btn.w, h: btn.h }
}

/// The rectangle of the indicator of button `btn`, for a graphic that takes
/// up the rectangle `graphic`.
pub fn place_indicator(graphic: Region, btn: Region) -> (placed: Region)
    requires
        btn.x - 12 >= i32::MIN,
        btn.h <= i32::MAX,
        graphic.h <= i32::MAX,
        i32::MIN <= btn.y + half_toward_zero(btn.h - graphic.h) <= i32::MAX,
    ensures
        placed == indicator_region(graphic, btn),
{
    anchor_center_y(translate_x(anchor_left(graphic, btn), INDICATOR_SHIFT), btn)
}

} // verus!
