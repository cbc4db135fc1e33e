//! The monochrome display memory.

pub mod laws;
pub mod utils;

use core::ops::Deref;
use vstd::prelude::*;

use crate::data::byte::values;
use crate::data::Byte;
use crate::model::{blank, Chip8FrameBuffer};
use utils::{collides, compute_index, drawn, get_sprite_line};

verus! {

/// A bitmap of 64 by `height` pixels, one bit per pixel and one 64-bit
/// scanline per row. Bit 63 of a scanline is its leftmost pixel; the
/// top scanline comes first.
#[derive(Debug)]
pub struct FrameBuffer {
    height: usize,
    pixels: Vec<u64>,
}

/// A row that is drawn clears a lit pixel, or fails to light one of its
/// own, exactly if it shares a set bit with the scanline it is drawn on.
proof fn lemma_collision(cur: u64, line: u64)
    by (bit_vector)
    ensures
        (((cur ^ line) & cur != cur) || (line & (cur ^ line) != line)) <==> cur & line != 0,
{
}

impl FrameBuffer {
    /// Creates a dark frame buffer of `height` rows.
    pub fn new(height: usize) -> (framebuffer: FrameBuffer)
        ensures
            framebuffer.inv(),
            framebuffer@ == blank(height as nat),
    {
        let framebuffer = FrameBuffer { height, pixels: vec![0; height] };
        assert(framebuffer@ =~= blank(height as nat));
        framebuffer
    }
}

impl Chip8FrameBuffer for FrameBuffer {
    closed spec fn view(&self) -> Seq<u64> {
        self.pixels@
    }

    closed spec fn inv(&self) -> bool {
        self.pixels@.len() == self.height
    }

    fn draw(&mut self, x: Byte, y: Byte, sprite: &[Byte]) -> (collision: bool) {
        let y_initial = y;
        let mut has_collision = false;
        let ghost bytes = values(sprite@);
        let mut y: usize = 0;

        while y < sprite.len()
            invariant
                y <= sprite@.len(),
                bytes == values(sprite@),
                self.pixels@.len() == self.height,
                old(self)@.len() == self.height,
                sprite@.len() > 0 ==> self.height > 0,
                self.pixels@ == drawn(old(self)@, x@, y_initial@, bytes.take(y as int)),
                has_collision == collides(old(self)@, x@, y_initial@, bytes.take(y as int)),
            decreases sprite@.len() - y,
        {
            let index = compute_index(y_initial.get_raw() as usize, y, self.height);
            let sprite_line = get_sprite_line(sprite, x.get_raw(), y);

            let cur = self.pixels[index];
            let new = cur ^ sprite_line;

            proof {
                lemma_collision(cur, sprite_line);
                let upto = bytes.take(y + 1);
                assert(upto.drop_last() =~= bytes.take(y as int));
                assert(upto.last() == sprite@[y as int]@);
            }
            if (new & cur != cur) || (sprite_line & new != sprite_line) {
                has_collision = true
            }
            self.pixels.set(index, new);
            y += 1;
        }

        assert(bytes.take(sprite@.len() as int) =~= bytes);
        has_collision
    }

    fn clear(&mut self) {
        let height = self.height;
        self.pixels = vec![0; height];
        assert(self@ =~= blank(old(self)@.len()));
    }

    fn lines(&self) -> (lines: &[u64]) {
        self.pixels.as_slice()
    }
}

impl Deref for FrameBuffer {
    type Target = [u64];

    /// The scanlines, the top one first.
    fn deref(&self) -> (lines: &[u64])
        ensures
            lines@ == self@,
    {
        self.pixels.as_slice()
    }
}

} // verus!
