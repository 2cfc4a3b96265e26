//! Properties of the instruction set that relate several instructions, or
//! hold for all operand values.
use vstd::prelude::*;

use crate::model::{Chip8State, encode, lemma_nibbles_of_encode, sprite_covers};

verus! {

/// Loading `kk` into `Vx` with `6xkk` and then adding zero with `7x00` leaves
/// exactly `kk` in `Vx`.
pub proof fn lemma_load_then_add_zero(s: Chip8State, x: int, kk: u8, rnd1: u8, rnd2: u8)
    requires
        s.wf(),
        0 <= x < 16,
    ensures
        s.execute(encode(6, x, kk as int / 16, kk as int % 16), rnd1) is Ok,
        s.execute(encode(6, x, kk as int / 16, kk as int % 16), rnd1).unwrap().execute(encode(7, x, 0, 0), rnd2) is Ok,
        s.execute(encode(6, x, kk as int / 16, kk as int % 16), rnd1).unwrap().execute(
            encode(7, x, 0, 0),
            rnd2,
        ).unwrap().v[x] == kk,
{
    lemma_nibbles_of_encode(6, x, kk as int / 16, kk as int % 16);
    lemma_nibbles_of_encode(7, x, 0, 0);
}

/// `8xy4` leaves `(a + b) mod 256` in `Vx` and sets VF to 1 exactly when
/// `a + b >= 256`, where `a`, `b` are the old `Vx`, `Vy`. With `x` = 15 the
/// flag overwrites the sum, so that register is left out.
pub proof fn lemma_add_with_carry(s: Chip8State, x: int, y: int, rnd: u8)
    requires
        s.wf(),
        0 <= x < 15,
        0 <= y < 16,
    ensures
        s.execute(encode(8, x, y, 4), rnd) is Ok,
        s.execute(encode(8, x, y, 4), rnd).unwrap().v[x] == (s.v[x] + s.v[y]) % 256,
        s.execute(encode(8, x, y, 4), rnd).unwrap().v[15] == (if s.v[x] + s.v[y] >= 256 {
            1u8
        } else {
            0u8
        }),
{
    lemma_nibbles_of_encode(8, x, y, 4);
}

/// `8xy5` leaves `(a - b) mod 256` in `Vx` and sets VF to 1 exactly when
/// `a >= b` (no borrow), where `a`, `b` are the old `Vx`, `Vy`. With `x` = 15
/// the flag overwrites the difference, so that register is left out.
pub proof fn lemma_sub_not_borrow(s: Chip8State, x: int, y: int, rnd: u8)
    requires
        s.wf(),
        0 <= x < 15,
        0 <= y < 16,
    ensures
        s.execute(encode(8, x, y, 5), rnd) is Ok,
        s.execute(encode(8, x, y, 5), rnd).unwrap().v[x] == (s.v[x] - s.v[y]) % 256,
        s.execute(encode(8, x, y, 5), rnd).unwrap().v[15] == (if s.v[x] >= s.v[y] {
            1u8
        } else {
            0u8
        }),
{
    lemma_nibbles_of_encode(8, x, y, 5);
}

/// Drawing the same sprite at the same place twice with `Dxyn` gives back the
/// screen as it was, and the second draw sets VF to 1 whenever the first one
/// turned some pixel on. The coordinates are read from `Vx` and `Vy`, so
/// neither may be VF, which the first draw overwrites.
pub proof fn lemma_draw_twice_restores(s: Chip8State, x: int, y: int, n: int, rnd1: u8, rnd2: u8)
    requires
        s.wf(),
        0 <= x < 15,
        0 <= y < 15,
        0 <= n < 16,
        s.i + n <= 4096,
    ensures
        s.execute(encode(0xD, x, y, n), rnd1) is Ok,
        s.execute(encode(0xD, x, y, n), rnd1).unwrap().execute(encode(0xD, x, y, n), rnd2) is Ok,
        s.execute(encode(0xD, x, y, n), rnd1).unwrap().execute(
            encode(0xD, x, y, n),
            rnd2,
        ).unwrap().display == s.display,
        (exists|p: int|
            0 <= p < 2048 && !s.display[p] && sprite_covers(
                s.ram,
                s.i as int,
                s.v[x] as int,
                s.v[y] as int,
                n,
                p,
            )) ==> s.execute(encode(0xD, x, y, n), rnd1).unwrap().execute(
            encode(0xD, x, y, n),
            rnd2,
        ).unwrap().v[15] == 1,
{
    lemma_nibbles_of_encode(0xD, x, y, n);
    let op = encode(0xD, x, y, n);
    let t = s.execute(op, rnd1).unwrap();
    let u = t.execute(op, rnd2).unwrap();
    let covers = |p: int| sprite_covers(s.ram, s.i as int, s.v[x] as int, s.v[y] as int, n, p);
    assert(t.ram == s.ram && t.i == s.i && t.v[x] == s.v[x] && t.v[y] == s.v[y]);
    assert(u.display =~= s.display);
    if exists|p: int| 0 <= p < 2048 && !s.display[p] && covers(p) {
        let p = choose|p: int| 0 <= p < 2048 && !s.display[p] && covers(p);
        assert(t.display[p] && covers(p));
    }
}

} // verus!
