//! The framebuffer and how a sprite is drawn onto it.

use vstd::prelude::*;

verus! {

/// Whether column `c` of a sprite row is set; column 0 is the leftmost pixel
/// and the byte's most significant bit.
pub open spec fn sprite_bit(row: u8, c: int) -> bool {
    row & (0x80u8 >> (c as u8)) != 0
}

/// The row of the sprite that lands on pixel `p`, for a sprite whose top row
/// is drawn on screen row `y0`: rows wrap from the bottom of the screen to
/// its top.
pub open spec fn sprite_row_at(y0: int, p: int) -> int {
    (p / 64 - y0) % 32
}

/// The column of the sprite that lands on pixel `p`, for a sprite whose left
/// column is drawn on screen column `x0`: columns wrap from the right edge
/// to the left one, on the same screen row.
pub open spec fn sprite_col_at(x0: int, p: int) -> int {
    (p % 64 - x0) % 64
}

/// Whether pixel `p` lies under a set bit of `sprite` drawn with its top left
/// corner at column `x0`, row `y0`.
pub open spec fn sprite_covers(sprite: Seq<u8>, x0: int, y0: int, p: int) -> bool {
    let r = sprite_row_at(y0, p);
    let c = sprite_col_at(x0, p);
    r < sprite.len() && c < 8 && sprite_bit(sprite[r], c)
}

/// The framebuffer after `sprite` is drawn at (`x0`, `y0`): every pixel under
/// a set bit is flipped, every other one is kept.
pub open spec fn draw_sprite(video: Seq<bool>, sprite: Seq<u8>, x0: int, y0: int) -> Seq<bool> {
    Seq::new(video.len(), |p: int| video[p] != sprite_covers(sprite, x0, y0, p))
}

/// Whether drawing `sprite` at (`x0`, `y0`) erases a pixel: one that was set
/// before the draw lies under a set bit.
pub open spec fn sprite_collides(video: Seq<bool>, sprite: Seq<u8>, x0: int, y0: int) -> bool {
    exists|p: int| 0 <= p < video.len() && video[p] && #[trigger] sprite_covers(sprite, x0, y0, p)
}

/// Whether drawing `sprite` at (`x0`, `y0`) lights a pixel: one that was dark
/// before the draw lies under a set bit.
pub open spec fn sprite_lights(video: Seq<bool>, sprite: Seq<u8>, x0: int, y0: int) -> bool {
    exists|p: int| 0 <= p < video.len() && !video[p] && #[trigger] sprite_covers(sprite, x0, y0, p)
}

/// The pixel on which column `c` of sprite row `r` lands.
pub open spec fn pixel_of(x0: int, y0: int, r: int, c: int) -> int {
    64 * ((y0 + r) % 32) + (x0 + c) % 64
}

/// Whether pixel `p` lies under a set bit among those drawn before column
/// `cols` of row `rows` is reached, rows from the top and columns from the
/// left.
pub open spec fn covered_before(
    sprite: Seq<u8>,
    x0: int,
    y0: int,
    p: int,
    rows: int,
    cols: int,
) -> bool {
    let r = sprite_row_at(y0, p);
    let c = sprite_col_at(x0, p);
    sprite_covers(sprite, x0, y0, p) && (r < rows || (r == rows && c < cols))
}

/// Whether a pixel that is set in `video` lies under a set bit among those
/// drawn before column `cols` of row `rows` is reached.
pub open spec fn collides_before(
    video: Seq<bool>,
    sprite: Seq<u8>,
    x0: int,
    y0: int,
    rows: int,
    cols: int,
) -> bool {
    exists|p: int|
        0 <= p < video.len() && video[p] && #[trigger] covered_before(
            sprite,
            x0,
            y0,
            p,
            rows,
            cols,
        )
}

/// On a line of `size` places that wraps round, `at` is `offset` places past
/// `origin` exactly if `origin` is `offset` places before `at`.
proof fn lemma_wrapped_offset(origin: int, offset: int, at: int, size: int)
    requires
        size == 32 || size == 64,
        0 <= origin < size,
        0 <= offset < size,
        0 <= at < size,
    ensures
        at == (origin + offset) % size <==> (at - origin) % size == offset,
{
    if size == 32 {
        if origin + offset < 32 {
            assert((origin + offset) % 32 == origin + offset);
        } else {
            assert((origin + offset) % 32 == origin + offset - 32);
        }
        if at >= origin {
            assert((at - origin) % 32 == at - origin);
        } else {
            assert((at - origin) % 32 == at - origin + 32);
        }
    } else {
        if origin + offset < 64 {
            assert((origin + offset) % 64 == origin + offset);
        } else {
            assert((origin + offset) % 64 == origin + offset - 64);
        }
        if at >= origin {
            assert((at - origin) % 64 == at - origin);
        } else {
            assert((at - origin) % 64 == at - origin + 64);
        }
    }
}

/// Each sprite bit has a pixel of its own: pixel `p` is where column `c` of
/// row `r` lands exactly if `r` and `c` are the sprite row and column at `p`.
pub proof fn lemma_pixel_of_sprite_bit(x0: int, y0: int, r: int, c: int, p: int)
    requires
        0 <= x0 < 64,
        0 <= y0 < 32,
        0 <= r < 32,
        0 <= c < 64,
        0 <= p < 2048,
    ensures
        0 <= pixel_of(x0, y0, r, c) < 2048,
        p == pixel_of(x0, y0, r, c) <==> (sprite_row_at(y0, p) == r && sprite_col_at(x0, p) == c),
{
    let row = (y0 + r) % 32;
    let col = (x0 + c) % 64;
    lemma_wrapped_offset(y0, r, p / 64, 32);
    lemma_wrapped_offset(x0, c, p % 64, 64);
    assert((64 * row + col) / 64 == row && (64 * row + col) % 64 == col);
    assert(p == 64 * (p / 64) + p % 64);
}

/// Before anything is drawn nothing is covered.
pub proof fn lemma_draw_start(video: Seq<bool>, sprite: Seq<u8>, x0: int, y0: int)
    requires
        0 <= x0 < 64,
        0 <= y0 < 32,
    ensures
        forall|p: int| !covered_before(sprite, x0, y0, p, 0, 0),
        !collides_before(video, sprite, x0, y0, 0, 0),
{
}

/// Drawing column `c` of row `r` adds one pixel to those covered, if the bit
/// is set, and none if it is clear.
pub proof fn lemma_draw_step(video: Seq<bool>, sprite: Seq<u8>, x0: int, y0: int, r: int, c: int)
    requires
        video.len() == 2048,
        0 <= x0 < 64,
        0 <= y0 < 32,
        0 <= r < sprite.len() <= 32,
        0 <= c < 8,
    ensures
        0 <= pixel_of(x0, y0, r, c) < 2048,
        !covered_before(sprite, x0, y0, pixel_of(x0, y0, r, c), r, c),
        forall|p: int|
            0 <= p < 2048 ==> (#[trigger] covered_before(sprite, x0, y0, p, r, c + 1) <==> (
            covered_before(sprite, x0, y0, p, r, c) || (p == pixel_of(x0, y0, r, c) && sprite_bit(
                sprite[r],
                c,
            )))),
        collides_before(video, sprite, x0, y0, r, c + 1) <==> (collides_before(
            video,
            sprite,
            x0,
            y0,
            r,
            c,
        ) || (sprite_bit(sprite[r], c) && video[pixel_of(x0, y0, r, c)])),
{
    let p0 = pixel_of(x0, y0, r, c);
    lemma_pixel_of_sprite_bit(x0, y0, r, c, p0);
    assert forall|p: int| 0 <= p < 2048 implies (#[trigger] covered_before(
        sprite,
        x0,
        y0,
        p,
        r,
        c + 1,
    ) <==> (covered_before(sprite, x0, y0, p, r, c) || (p == p0 && sprite_bit(sprite[r], c)))) by {
        lemma_pixel_of_sprite_bit(x0, y0, r, c, p);
    }
    if collides_before(video, sprite, x0, y0, r, c + 1) {
        let p = choose|p: int|
            0 <= p < video.len() && video[p] && #[trigger] covered_before(
                sprite,
                x0,
                y0,
                p,
                r,
                c + 1,
            );
        if p != p0 {
            assert(covered_before(sprite, x0, y0, p, r, c));
        }
    }
    if collides_before(video, sprite, x0, y0, r, c) {
        let p = choose|p: int|
            0 <= p < video.len() && video[p] && #[trigger] covered_before(sprite, x0, y0, p, r, c);
        assert(covered_before(sprite, x0, y0, p, r, c + 1));
    }
    if sprite_bit(sprite[r], c) && video[p0] {
        assert(covered_before(sprite, x0, y0, p0, r, c + 1));
    }
}

/// A row that is drawn to its eighth column is drawn whole.
pub proof fn lemma_draw_row_end(video: Seq<bool>, sprite: Seq<u8>, x0: int, y0: int, r: int)
    requires
        0 <= x0 < 64,
        0 <= y0 < 32,
        0 <= r,
    ensures
        forall|p: int|
            #![trigger covered_before(sprite, x0, y0, p, r + 1, 0)]
            #![trigger covered_before(sprite, x0, y0, p, r, 8)]
            covered_before(sprite, x0, y0, p, r + 1, 0) <==> covered_before(
                sprite,
                x0,
                y0,
                p,
                r,
                8,
            ),
        collides_before(video, sprite, x0, y0, r + 1, 0) <==> collides_before(
            video,
            sprite,
            x0,
            y0,
            r,
            8,
        ),
{
    if collides_before(video, sprite, x0, y0, r + 1, 0) {
        let p = choose|p: int|
            0 <= p < video.len() && video[p] && #[trigger] covered_before(
                sprite,
                x0,
                y0,
                p,
                r + 1,
                0,
            );
        assert(covered_before(sprite, x0, y0, p, r, 8));
    }
    if collides_before(video, sprite, x0, y0, r, 8) {
        let p = choose|p: int|
            0 <= p < video.len() && video[p] && #[trigger] covered_before(sprite, x0, y0, p, r, 8);
        assert(covered_before(sprite, x0, y0, p, r + 1, 0));
    }
}

/// Once every row is drawn, what is covered is what the sprite covers.
pub proof fn lemma_draw_end(video: Seq<bool>, sprite: Seq<u8>, x0: int, y0: int)
    requires
        0 <= x0 < 64,
        0 <= y0 < 32,
    ensures
        forall|p: int|
            #![trigger covered_before(sprite, x0, y0, p, sprite.len() as int, 0)]
            #![trigger sprite_covers(sprite, x0, y0, p)]
            covered_before(sprite, x0, y0, p, sprite.len() as int, 0) <==> sprite_covers(
                sprite,
                x0,
                y0,
                p,
            ),
        collides_before(video, sprite, x0, y0, sprite.len() as int, 0) <==> sprite_collides(
            video,
            sprite,
            x0,
            y0,
        ),
{
    let n = sprite.len() as int;
    if collides_before(video, sprite, x0, y0, n, 0) {
        let p = choose|p: int|
            0 <= p < video.len() && video[p] && #[trigger] covered_before(sprite, x0, y0, p, n, 0);
        assert(sprite_covers(sprite, x0, y0, p));
    }
    if sprite_collides(video, sprite, x0, y0) {
        let p = choose|p: int|
            0 <= p < video.len() && video[p] && #[trigger] sprite_covers(sprite, x0, y0, p);
        assert(covered_before(sprite, x0, y0, p, n, 0));
    }
}

} // verus!
