//! Where a sprite's rows land in the frame buffer, and what they look like
//! there.

use vstd::arithmetic::div_mod::{lemma_add_mod_noop, lemma_mod_sub_multiples_vanish, lemma_small_mod};
use vstd::prelude::*;

use crate::data::Byte;

verus! {

/// The place in the buffer of the scanline that shows screen row
/// `y_initial + y_current`.
///
/// The screen wraps around vertically, and the buffer holds the top
/// scanline first. A buffer without rows has no such place; the answer is
/// then 0.
pub open spec fn row_index(y_initial: int, y_current: int, height: int) -> int {
    if height > 0 {
        (y_initial + y_current) % height
    } else {
        0
    }
}

/// `line` with its bits moved right by `by` places, those that leave at
/// bit 0 coming back in at bit 63; for `by < 64`.
pub open spec fn rotated_right(line: u64, by: u64) -> u64 {
    if by == 0 {
        line
    } else {
        (line >> by) | (line << ((64 - by) as u64))
    }
}

/// The scanline that shows the eight pixels of `byte` at horizontal
/// offset `x`, the rest dark. Bit 63 is the leftmost pixel; pixels pushed
/// over the right edge come back on the left.
pub open spec fn sprite_line(byte: u8, x: u8) -> u64 {
    rotated_right((byte as u64) << 56, (x % 64) as u64)
}

/// The rows of the buffer after the sprite has been drawn with its top
/// left corner at `(x, y)`, row by row from the top, each row combined
/// with the scanline it lands on by exclusive or. On a buffer without
/// rows there is nothing to draw on.
pub open spec fn drawn(rows: Seq<u64>, x: u8, y: u8, sprite: Seq<u8>) -> Seq<u64>
    decreases sprite.len(),
{
    if sprite.len() == 0 || rows.len() == 0 {
        rows
    } else {
        let before = drawn(rows, x, y, sprite.drop_last());
        let at = row_index(y as int, sprite.len() - 1, rows.len() as int);
        before.update(at, before[at] ^ sprite_line(sprite.last(), x))
    }
}

/// Whether drawing the sprite at `(x, y)` turns a lit pixel dark: whether
/// some row of the sprite, at the moment it is drawn, shares a set bit
/// with the scanline it lands on.
pub open spec fn collides(rows: Seq<u64>, x: u8, y: u8, sprite: Seq<u8>) -> bool
    decreases sprite.len(),
{
    if sprite.len() == 0 || rows.len() == 0 {
        false
    } else {
        let before = drawn(rows, x, y, sprite.drop_last());
        let at = row_index(y as int, sprite.len() - 1, rows.len() as int);
        collides(rows, x, y, sprite.drop_last()) || before[at] & sprite_line(sprite.last(), x) != 0
    }
}

/// Drawing keeps the number of rows.
pub proof fn lemma_drawn_len(rows: Seq<u64>, x: u8, y: u8, sprite: Seq<u8>)
    ensures
        drawn(rows, x, y, sprite).len() == rows.len(),
    decreases sprite.len(),
{
    if sprite.len() > 0 && rows.len() > 0 {
        lemma_drawn_len(rows, x, y, sprite.drop_last());
    }
}

/// Computes the place in the buffer of screen row `y_initial + y_current`
/// for a buffer of `height` rows.
pub fn compute_index(y_initial: usize, y_current: usize, height: usize) -> (index: usize)
    ensures
        index == row_index(y_initial as int, y_current as int, height as int),
        height > 0 ==> index < height,
{
    if height == 0 {
        0
    } else {
        let top = y_initial % height;
        let down = y_current % height;
        let row = if top >= height - down {
            top - (height - down)
        } else {
            top + down
        };
        proof {
            let h = height as int;
            lemma_add_mod_noop(y_initial as int, y_current as int, h);
            if top >= height - down {
                lemma_mod_sub_multiples_vanish(top + down, h);
                lemma_small_mod((top + down - h) as nat, h as nat);
            } else {
                lemma_small_mod((top + down) as nat, h as nat);
            }
            assert(row == (y_initial + y_current) % h);
        }
        row
    }
}

/// Gets row `y` of the sprite as the scanline that shows it at horizontal
/// offset `x`.
pub fn get_sprite_line(mem_slice: &[Byte], x: u8, y: usize) -> (line: u64)
    requires
        y < mem_slice@.len(),
    ensures
        line == sprite_line(mem_slice@[y as int]@, x),
{
    let line = (mem_slice[y].get_raw() as u64) << 56;
    let by = (x % 64) as u64;
    if by == 0 {
        line
    } else {
        (line >> by) | (line << (64 - by))
    }
}

} // verus!
