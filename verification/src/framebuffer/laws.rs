//! What drawing a sprite twice does.

use vstd::arithmetic::div_mod::{lemma_mod_equivalence, lemma_small_mod};
use vstd::prelude::*;

use super::utils::{collides, drawn, lemma_drawn_len, row_index, sprite_line};
use crate::model::blank;

verus! {

/// No two rows of the sprite that land on the same scanline share a set
/// bit. A sprite that is no taller than the buffer is like that, for none
/// of its rows land on the same scanline.
pub open spec fn self_disjoint(sprite: Seq<u8>, y: u8, height: nat) -> bool {
    forall|j: int, k: int|
        0 <= j < k < sprite.len() && row_index(y as int, j, height as int) == row_index(
            y as int,
            k,
            height as int,
        ) ==> #[trigger] sprite[j] & #[trigger] sprite[k] == 0
}

/// What the rows of the sprite that land on scanline `at` light there,
/// taken together.
pub open spec fn lit_by(sprite: Seq<u8>, x: u8, y: u8, height: nat, at: int) -> u64
    decreases sprite.len(),
{
    if sprite.len() == 0 {
        0
    } else {
        let above = lit_by(sprite.drop_last(), x, y, height, at);
        if row_index(y as int, sprite.len() - 1, height as int) == at {
            above | sprite_line(sprite.last(), x)
        } else {
            above
        }
    }
}

proof fn lemma_xor_sets(content: u64, line: u64)
    by (bit_vector)
    requires
        content & line == 0,
    ensures
        (content ^ line) & line == line,
        content ^ line == content | line,
{
}

proof fn lemma_xor_keeps(content: u64, line: u64, mask: u64)
    by (bit_vector)
    requires
        content & mask == mask,
        content & line == 0,
    ensures
        (content ^ line) & mask == mask,
{
}

proof fn lemma_or_apart(content: u64, line: u64, mask: u64)
    by (bit_vector)
    requires
        content & mask == 0,
        line & mask == 0,
    ensures
        (content | line) & mask == 0,
{
}

proof fn lemma_dark_apart(mask: u64)
    by (bit_vector)
    ensures
        0u64 & mask == 0,
{
}

/// A byte with a set bit lights a pixel wherever it is shown, and bytes
/// without a common bit light no common pixel.
proof fn lemma_sprite_lines(a: u8, b: u8, x: u8)
    by (bit_vector)
    ensures
        a != 0 ==> sprite_line(a, x) != 0,
        a & b == 0 ==> sprite_line(a, x) & sprite_line(b, x) == 0,
{
}

/// A sprite that is no taller than the buffer does not overlap itself.
pub proof fn lemma_short_sprite_is_self_disjoint(sprite: Seq<u8>, y: u8, height: nat)
    requires
        sprite.len() <= height,
    ensures
        self_disjoint(sprite, y, height),
{
    assert forall|j: int, k: int|
        0 <= j < k < sprite.len() && row_index(y as int, j, height as int) == row_index(
            y as int,
            k,
            height as int,
        ) implies #[trigger] sprite[j] & #[trigger] sprite[k] == 0 by {
        let h = height as int;
        lemma_mod_equivalence(y + k, y + j, h);
        lemma_small_mod((k - j) as nat, height);
    }
}

/// A collision while the first rows of a sprite are drawn is a collision
/// of the sprite.
proof fn lemma_collides_prefix(rows: Seq<u64>, x: u8, y: u8, sprite: Seq<u8>, n: int)
    requires
        0 <= n <= sprite.len(),
        collides(rows, x, y, sprite.take(n)),
    ensures
        collides(rows, x, y, sprite),
    decreases sprite.len(),
{
    if n < sprite.len() {
        assert(sprite.drop_last().take(n) =~= sprite.take(n));
        lemma_collides_prefix(rows, x, y, sprite.drop_last(), n);
    } else {
        assert(sprite.take(n) =~= sprite);
    }
}

/// Pixels that are lit on a scanline once the first `from` rows are
/// drawn stay lit while the other rows are drawn, unless a row collides.
proof fn lemma_kept(
    rows: Seq<u64>,
    x: u8,
    y: u8,
    sprite: Seq<u8>,
    from: int,
    at: int,
    mask: u64,
)
    requires
        rows.len() > 0,
        0 <= from <= sprite.len(),
        0 <= at < rows.len(),
        !collides(rows, x, y, sprite),
        drawn(rows, x, y, sprite.take(from))[at] & mask == mask,
    ensures
        drawn(rows, x, y, sprite)[at] & mask == mask,
    decreases sprite.len(),
{
    if from == sprite.len() {
        assert(sprite.take(from) =~= sprite);
    } else {
        let shorter = sprite.drop_last();
        assert(shorter.take(from) =~= sprite.take(from));
        lemma_kept(rows, x, y, shorter, from, at, mask);
        lemma_drawn_len(rows, x, y, shorter);
        let before = drawn(rows, x, y, shorter);
        let landing = row_index(y as int, sprite.len() - 1, rows.len() as int);
        if landing == at {
            lemma_xor_keeps(before[at], sprite_line(sprite.last(), x), mask);
        }
    }
}

/// A sprite collides if the pixels of one of its rows are lit where the
/// row lands.
proof fn lemma_collides_on_lit(rows: Seq<u64>, x: u8, y: u8, sprite: Seq<u8>, k: int)
    requires
        rows.len() > 0,
        0 <= k < sprite.len(),
        sprite[k] != 0,
        ({
            let at = row_index(y as int, k, rows.len() as int);
            let line = sprite_line(sprite[k], x);
            rows[at] & line == line
        }),
    ensures
        collides(rows, x, y, sprite),
{
    let at = row_index(y as int, k, rows.len() as int);
    let line = sprite_line(sprite[k], x);
    let above = sprite.take(k);
    let upto = sprite.take(k + 1);
    assert(upto.drop_last() =~= above);
    assert(upto.last() == sprite[k]);
    if collides(rows, x, y, above) {
        lemma_collides_prefix(rows, x, y, sprite, k);
    } else {
        assert(above.take(0) =~= Seq::<u8>::empty());
        lemma_kept(rows, x, y, above, 0, at, line);
        lemma_sprite_lines(sprite[k], 0, x);
        assert(collides(rows, x, y, upto));
        lemma_collides_prefix(rows, x, y, sprite, k + 1);
    }
}

/// A sprite that lights a pixel and was drawn without a collision
/// collides when it is drawn again at the same place.
pub proof fn lemma_second_draw_collides(rows: Seq<u64>, x: u8, y: u8, sprite: Seq<u8>)
    requires
        rows.len() > 0,
        exists|k: int| 0 <= k < sprite.len() && sprite[k] != 0,
        !collides(rows, x, y, sprite),
    ensures
        collides(drawn(rows, x, y, sprite), x, y, sprite),
{
    let k = choose|k: int| 0 <= k < sprite.len() && sprite[k] != 0;
    let at = row_index(y as int, k, rows.len() as int);
    let line = sprite_line(sprite[k], x);
    let above = sprite.take(k);
    let upto = sprite.take(k + 1);
    assert(upto.drop_last() =~= above);
    assert(upto.last() == sprite[k]);
    if collides(rows, x, y, upto) {
        lemma_collides_prefix(rows, x, y, sprite, k + 1);
    }
    lemma_drawn_len(rows, x, y, above);
    lemma_xor_sets(drawn(rows, x, y, above)[at], line);
    lemma_kept(rows, x, y, sprite, k + 1, at, line);
    lemma_drawn_len(rows, x, y, sprite);
    lemma_collides_on_lit(drawn(rows, x, y, sprite), x, y, sprite, k);
}

/// Rows that light nothing in common with `mask` light nothing in common
/// with it taken together.
proof fn lemma_lit_by_apart(sprite: Seq<u8>, x: u8, y: u8, height: nat, at: int, mask: u64)
    requires
        forall|j: int|
            0 <= j < sprite.len() && row_index(y as int, j, height as int) == at
                ==> sprite_line(#[trigger] sprite[j], x) & mask == 0,
    ensures
        lit_by(sprite, x, y, height, at) & mask == 0,
    decreases sprite.len(),
{
    if sprite.len() == 0 {
        lemma_dark_apart(mask);
    } else {
        let shorter = sprite.drop_last();
        assert forall|j: int|
            0 <= j < shorter.len() && row_index(y as int, j, height as int) == at implies sprite_line(
            #[trigger] shorter[j],
            x,
        ) & mask == 0 by {
            assert(shorter[j] == sprite[j]);
        }
        lemma_lit_by_apart(shorter, x, y, height, at, mask);
        if row_index(y as int, sprite.len() - 1, height as int) == at {
            assert(sprite.last() == sprite[sprite.len() - 1]);
            lemma_or_apart(
                lit_by(shorter, x, y, height, at),
                sprite_line(sprite.last(), x),
                mask,
            );
        }
    }
}

/// A sprite that does not overlap itself is drawn on a dark screen
/// without a collision, and each scanline then shows what the rows that
/// land on it light.
pub proof fn lemma_draw_on_blank(height: nat, x: u8, y: u8, sprite: Seq<u8>)
    requires
        height > 0,
        self_disjoint(sprite, y, height),
    ensures
        !collides(blank(height), x, y, sprite),
        forall|at: int|
            0 <= at < height ==> #[trigger] drawn(blank(height), x, y, sprite)[at] == lit_by(
                sprite,
                x,
                y,
                height,
                at,
            ),
    decreases sprite.len(),
{
    let rows = blank(height);
    if sprite.len() > 0 {
        let shorter = sprite.drop_last();
        let last = sprite.len() - 1;
        assert forall|j: int, k: int|
            0 <= j < k < shorter.len() && row_index(y as int, j, height as int) == row_index(
                y as int,
                k,
                height as int,
            ) implies #[trigger] shorter[j] & #[trigger] shorter[k] == 0 by {
            assert(shorter[j] == sprite[j] && shorter[k] == sprite[k]);
        }
        lemma_draw_on_blank(height, x, y, shorter);
        lemma_drawn_len(rows, x, y, shorter);
        let before = drawn(rows, x, y, shorter);
        let at = row_index(y as int, last, height as int);
        let line = sprite_line(sprite.last(), x);
        assert forall|j: int|
            0 <= j < shorter.len() && row_index(y as int, j, height as int) == at implies sprite_line(
            #[trigger] shorter[j],
            x,
        ) & line == 0 by {
            assert(shorter[j] == sprite[j]);
            assert(sprite[j] & sprite[last] == 0);
            lemma_sprite_lines(sprite[j], sprite[last], x);
        }
        lemma_lit_by_apart(shorter, x, y, height, at, line);
        assert(before[at] == lit_by(shorter, x, y, height, at));
        lemma_xor_sets(before[at], line);
    }
}

/// A sprite that lights a pixel and does not overlap itself, drawn twice
/// at the same place on a dark screen, reports no collision the first
/// time and a collision the second time.
pub proof fn lemma_draw_twice(height: nat, x: u8, y: u8, sprite: Seq<u8>)
    requires
        height > 0,
        self_disjoint(sprite, y, height),
        exists|k: int| 0 <= k < sprite.len() && sprite[k] != 0,
    ensures
        !collides(blank(height), x, y, sprite),
        collides(drawn(blank(height), x, y, sprite), x, y, sprite),
{
    lemma_draw_on_blank(height, x, y, sprite);
    lemma_second_draw_collides(blank(height), x, y, sprite);
}

} // verus!
