//! A stand-alone monochrome screen with sprite blitting that wraps around the
//! whole buffer.
use vstd::arithmetic::div_mod::{lemma_add_mod_noop, lemma_fundamental_div_mod_converse};
use vstd::prelude::*;

use crate::model::{SCREEN_SIZE, sprite_bit};

verus! {

/// Buffer position of bit `j` of row `i` of a sprite placed at `(x, y)`: the
/// position counts on past the end of a screen row and wraps at the end of
/// the buffer.
pub open spec fn blit_index(x: int, y: int, i: int, j: int) -> int {
    (x + j + (y + i) * 64) % (SCREEN_SIZE as int)
}

/// The buffer after XOR-ing in the first `k` bits of `sprite`, row by row,
/// most significant bit first.
pub open spec fn blit(d: Seq<bool>, x: int, y: int, sprite: Seq<u8>, k: nat) -> Seq<bool>
    decreases k,
{
    if k == 0 {
        d
    } else {
        let prev = blit(d, x, y, sprite, (k - 1) as nat);
        let c = k - 1;
        let idx = blit_index(x, y, c / 8, c % 8);
        prev.update(idx, prev[idx] != sprite_bit(sprite[c / 8], c % 8))
    }
}

proof fn lemma_blit_len(d: Seq<bool>, x: int, y: int, sprite: Seq<u8>, k: nat)
    requires
        d.len() == SCREEN_SIZE,
    ensures
        blit(d, x, y, sprite, k).len() == d.len(),
    decreases k,
{
    if k > 0 {
        lemma_blit_len(d, x, y, sprite, (k - 1) as nat);
    }
}

/// A 64 by 32 screen, row-major.
#[derive(Debug)]
pub struct Display {
    pub display: [bool; 2048],
}

impl Default for Display {
    fn default() -> (r: Display)
        ensures
            r.display@ == Seq::new(SCREEN_SIZE as nat, |p: int| false),
    {
        let r = Display { display: [false; 2048] };
        assert(r.display@ =~= Seq::new(SCREEN_SIZE as nat, |p: int| false));
        r
    }
}

impl Display {
    /// XORs `sprite` onto the screen with its top-left corner at `(x, y)`, one
    /// byte per row, most significant bit leftmost.
    pub fn draw_sprite(&mut self, x: u8, y: u8, sprite: &[u8])
        ensures
            final(self).display@ == blit(
                old(self).display@,
                x as int,
                y as int,
                sprite@,
                sprite@.len() * 8,
            ),
    {
        let ghost d0 = self.display@;
        let mut i: usize = 0;
        // Buffer position of the start of row `i`.
        let mut row_base: usize = (y as usize * 64) % SCREEN_SIZE;
        while i < sprite.len()
            invariant
                0 <= i <= sprite@.len(),
                d0.len() == SCREEN_SIZE,
                row_base == ((y + i) * 64) % (SCREEN_SIZE as int),
                self.display@ == blit(d0, x as int, y as int, sprite@, (i * 8) as nat),
            decreases sprite@.len() - i,
        {
            let byte = sprite[i];
            let mut j: usize = 0;
            while j < 8
                invariant
                    0 <= i < sprite@.len(),
                    0 <= j <= 8,
                    byte == sprite@[i as int],
                    d0.len() == SCREEN_SIZE,
                    row_base == ((y + i) * 64) % (SCREEN_SIZE as int),
                    self.display@ == blit(d0, x as int, y as int, sprite@, (i * 8 + j) as nat),
                decreases 8 - j,
            {
                let index = (x as usize + j + row_base) % SCREEN_SIZE;
                proof {
                    let c = i * 8 + j;
                    lemma_fundamental_div_mod_converse(c as int, 8, i as int, j as int);
                    lemma_add_mod_noop(x + j, (y + i) * 64, SCREEN_SIZE as int);
                    lemma_add_mod_noop(x + j, row_base as int, SCREEN_SIZE as int);
                    assert(index == blit_index(x as int, y as int, i as int, j as int));
                    lemma_blit_len(d0, x as int, y as int, sprite@, c as nat);
                }
                let pixel = self.display[index] != ((byte >> (7 - j as u8)) & 1 == 1);
                self.display[index] = pixel;
                j = j + 1;
            }
            proof {
                lemma_add_mod_noop((y + i) * 64, 64, SCREEN_SIZE as int);
            }
            row_base = (row_base + 64) % SCREEN_SIZE;
            i = i + 1;
        }
    }
}

} // verus!
