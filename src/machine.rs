//! The executable machine.
use vstd::arithmetic::div_mod::{lemma_fundamental_div_mod, lemma_mod_multiples_vanish};
use vstd::prelude::*;

use crate::model::{
    Chip8Error, Chip8State, outcome, FONT, FONT_START, MEMORY_SIZE, PROGRAM_START, SCREEN_SIZE,
    is_first_pressed, sprite_covers, row_offset, col_offset,
};

verus! {

/// A CHIP-8 machine: registers, timers, call stack, memory, screen and keypad.
pub struct Chip8 {
    v: [u8; 16],
    i: u16,
    pc: u16,
    sp: u8,
    dt: u8,
    st: u8,
    ram: [u8; 4096],
    stack: [u16; 16],
    display: [bool; 2048],
    keys: [bool; 16],
}

impl View for Chip8 {
    type V = Chip8State;

    closed spec fn view(&self) -> Chip8State {
        Chip8State {
            v: self.v@,
            i: self.i,
            pc: self.pc,
            sp: self.sp,
            dt: self.dt,
            st: self.st,
            ram: self.ram@,
            stack: self.stack@,
            display: self.display@,
            keys: self.keys@,
        }
    }
}

/// Relies on rand::random::<u8>: a byte from the thread-local generator. Nothing
/// is known of its value.
#[verifier::external_body]
fn random_byte() -> (r: u8) {
    rand::random::<u8>()
}

/// Wrapped distance from `v` to `a` on a circle of `m` places, computed without
/// going below zero.
proof fn lemma_wrapped_offset(a: int, v: int, m: int)
    requires
        0 <= a < m,
        0 <= v,
        0 < m,
    ensures
        (a + m - v % m) % m == (a - v) % m,
{
    lemma_fundamental_div_mod(v, m);
    let k = v / m + 1;
    assert(a - v == m * (-k) + (a + m - v % m)) by (nonlinear_arith)
        requires
            v == m * (v / m) + v % m,
            k == v / m + 1,
    ;
    lemma_mod_multiples_vanish(-k, a + m - v % m, m);
}

impl Chip8 {
    /// The machine's state is well formed: the call stack is within its capacity.
    pub open spec fn wf(&self) -> bool {
        self@.wf()
    }

    /// Well formed, with the program counter where an instruction was fetched.
    spec fn running(&self) -> bool {
        self.wf() && self.pc <= 4094
    }

    /// A machine with the font loaded, everything else zero, and the program
    /// counter at the start of the program area.
    pub fn new() -> (r: Chip8)
        ensures
            r@ == Chip8State::initial(),
            r.wf(),
    {
        let mut ram = [0u8; 4096];
        let mut k: usize = 0;
        while k < 80
            invariant
                0 <= k <= 80,
                forall|a: int|
                    0 <= a < MEMORY_SIZE ==> ram@[a] == (if FONT_START <= a < FONT_START + k {
                        FONT@[a - FONT_START]
                    } else {
                        0u8
                    }),
            decreases 80 - k,
        {
            ram[FONT_START + k] = FONT[k];
            k = k + 1;
        }
        let r = Chip8 {
            v: [0u8; 16],
            i: 0,
            pc: PROGRAM_START as u16,
            sp: 0,
            dt: 0,
            st: 0,
            ram,
            stack: [0u16; 16],
            display: [false; 2048],
            keys: [false; 16],
        };
        assert(r@ =~= Chip8State::initial());
        r
    }

    /// Restores the state of a freshly built machine; the loaded program is not kept.
    pub fn reset(&mut self)
        ensures
            final(self)@ == Chip8State::initial(),
            final(self).wf(),
    {
        *self = Chip8::new();
    }

    /// Copies `rom` into memory from the start of the program area, leaving
    /// everything else as it was. Fails, changing nothing, when it does not fit.
    pub fn load_rom(&mut self, rom: &[u8]) -> (r: Result<(), Chip8Error>)
        ensures
            rom@.len() > MEMORY_SIZE - PROGRAM_START ==> r == Err::<(), _>(Chip8Error::OutOfBounds)
                && final(self)@ == old(self)@,
            rom@.len() <= MEMORY_SIZE - PROGRAM_START ==> r is Ok && final(self)@ == (Chip8State {
                ram: Seq::new(
                    MEMORY_SIZE as nat,
                    |a: int|
                        if PROGRAM_START <= a < PROGRAM_START + rom@.len() {
                            rom@[a - PROGRAM_START]
                        } else {
                            old(self)@.ram[a]
                        },
                ),
                ..old(self)@
            }),
    {
        if rom.len() > MEMORY_SIZE - PROGRAM_START {
            return Err(Chip8Error::OutOfBounds);
        }
        let ghost old_ram = self.ram@;
        let mut k: usize = 0;
        while k < rom.len()
            invariant
                0 <= k <= rom@.len() <= MEMORY_SIZE - PROGRAM_START,
                self.v == old(self).v,
                self.i == old(self).i,
                self.pc == old(self).pc,
                self.sp == old(self).sp,
                self.dt == old(self).dt,
                self.st == old(self).st,
                self.stack == old(self).stack,
                self.display == old(self).display,
                self.keys == old(self).keys,
                old_ram == old(self).ram@,
                forall|a: int|
                    0 <= a < MEMORY_SIZE ==> self.ram@[a] == (if PROGRAM_START <= a
                        < PROGRAM_START + k {
                        rom@[a - PROGRAM_START]
                    } else {
                        old_ram[a]
                    }),
            decreases rom@.len() - k,
        {
            self.ram[PROGRAM_START + k] = rom[k];
            k = k + 1;
        }
        assert(self.ram@ =~= Seq::new(
            MEMORY_SIZE as nat,
            |a: int|
                if PROGRAM_START <= a < PROGRAM_START + rom@.len() {
                    rom@[a - PROGRAM_START]
                } else {
                    old_ram[a]
                },
        ));
        Ok(())
    }

    /// Records whether key `key` is held down.
    pub fn keypress(&mut self, key: u8, pressed: bool)
        requires
            key < 16,
        ensures
            final(self)@ == (Chip8State {
                keys: old(self)@.keys.update(key as int, pressed),
                ..old(self)@
            }),
    {
        self.keys[key as usize] = pressed;
    }

    /// The screen, row-major: pixel `(x, y)` at index `x + 64 * y`.
    pub fn get_display(&self) -> (r: &[bool; 2048])
        ensures
            r@ == self@.display,
    {
        &self.display
    }

    /// Whether the tone should sound: the sound timer is running.
    pub fn get_sound(&self) -> (r: bool)
        ensures
            r == (self@.st > 0),
    {
        self.st > 0
    }

    /// One timer tick: each timer above zero counts down by one.
    pub fn cycle_timer(&mut self)
        ensures
            final(self)@ == old(self)@.tick(),
    {
        if self.dt > 0 {
            self.dt = self.dt - 1;
        }
        if self.st > 0 {
            self.st = self.st - 1;
        }
    }

    /// Runs one instruction: fetches the word at the program counter and
    /// carries it out, with `random` as the byte that `Cxkk` combines with its
    /// mask. On an error the machine is left as it was.
    pub fn cycle_with_random(&mut self, random: u8) -> (r: Result<(), Chip8Error>)
        requires
            old(self).wf(),
        ensures
            final(self).wf(),
            outcome(old(self)@.step(random), old(self)@, final(self)@, r),
    {
        match self.fetch_opcode() {
            Ok(opcode) => self.execute(opcode, random),
            Err(e) => Err(e),
        }
    }

    /// Runs one instruction, drawing a random byte when the instruction is `Cxkk`.
    /// On an error the machine is left as it was.
    pub fn cycle(&mut self) -> (r: Result<(), Chip8Error>)
        requires
            old(self).wf(),
        ensures
            final(self).wf(),
            exists|random: u8| outcome(old(self)@.step(random), old(self)@, final(self)@, r),
    {
        let pc = self.pc as usize;
        let random = if pc + 1 < MEMORY_SIZE && self.ram[pc] / 16 == 0xC {
            random_byte()
        } else {
            0
        };
        self.cycle_with_random(random)
    }

    /// Register `Vx`.
    pub fn register(&self, x: usize) -> (r: u8)
        requires
            x < 16,
        ensures
            r == self@.v[x as int],
    {
        self.v[x]
    }

    /// The index register `I`.
    pub fn index_register(&self) -> (r: u16)
        ensures
            r == self@.i,
    {
        self.i
    }

    pub fn program_counter(&self) -> (r: u16)
        ensures
            r == self@.pc,
    {
        self.pc
    }

    /// Number of return addresses on the call stack.
    pub fn stack_pointer(&self) -> (r: u8)
        ensures
            r == self@.sp,
    {
        self.sp
    }

    pub fn delay_timer(&self) -> (r: u8)
        ensures
            r == self@.dt,
    {
        self.dt
    }

    pub fn sound_timer(&self) -> (r: u8)
        ensures
            r == self@.st,
    {
        self.st
    }

    /// The byte at `addr`.
    pub fn memory(&self, addr: usize) -> (r: u8)
        requires
            addr < MEMORY_SIZE,
        ensures
            r == self@.ram[addr as int],
    {
        self.ram[addr]
    }

    /// Return address `k` of the call stack, counted from the bottom.
    pub fn stack_entry(&self, k: usize) -> (r: u16)
        requires
            k < 16,
        ensures
            r == self@.stack[k as int],
    {
        self.stack[k]
    }

    /// Whether key `key` is held down.
    pub fn key(&self, key: usize) -> (r: bool)
        requires
            key < 16,
        ensures
            r == self@.keys[key as int],
    {
        self.keys[key]
    }
}

impl Chip8 {
    fn push(&mut self, value: u16) -> (r: Result<(), Chip8Error>)
        requires
            old(self).wf(),
        ensures
            final(self).wf(),
            old(self).sp < 16 ==> r is Ok && final(self)@ == (Chip8State {
                stack: old(self)@.stack.update(old(self).sp as int, value),
                sp: (old(self).sp + 1) as u8,
                ..old(self)@
            }),
            old(self).sp >= 16 ==> r == Err::<(), _>(Chip8Error::OutOfBounds) && final(self)@
                == old(self)@,
    {
        if self.sp >= 16 {
            return Err(Chip8Error::OutOfBounds);
        }
        self.stack[self.sp as usize] = value;
        self.sp = self.sp + 1;
        Ok(())
    }

    fn pop(&mut self) -> (r: Result<u16, Chip8Error>)
        requires
            old(self).wf(),
        ensures
            final(self).wf(),
            old(self).sp > 0 ==> r == Ok::<_, Chip8Error>(old(self)@.stack[old(self).sp - 1])
                && final(self)@ == (Chip8State { sp: (old(self).sp - 1) as u8, ..old(self)@ }),
            old(self).sp == 0 ==> r == Err::<u16, _>(Chip8Error::OutOfBounds) && final(self)@
                == old(self)@,
    {
        if self.sp == 0 {
            return Err(Chip8Error::OutOfBounds);
        }
        self.sp = self.sp - 1;
        Ok(self.stack[self.sp as usize])
    }

    fn next(&mut self)
        requires
            old(self).running(),
        ensures
            final(self)@ == old(self)@.next(),
    {
        self.pc = self.pc + 2;
    }

    fn skip_if(&mut self, condition: bool)
        requires
            old(self).running(),
        ensures
            final(self)@ == old(self)@.skip_if(condition),
    {
        if condition {
            self.pc = self.pc + 4;
        } else {
            self.next();
        }
    }

    fn fetch_opcode(&self) -> (r: Result<u16, Chip8Error>)
        ensures
            r == self@.fetch(),
    {
        if self.pc as usize + 1 >= MEMORY_SIZE {
            return Err(Chip8Error::OutOfBounds);
        }
        let pc = self.pc as usize;
        let byte1 = self.ram[pc] as u16;
        let byte2 = self.ram[pc + 1] as u16;
        Ok(byte1 * 256 + byte2)
    }
}

/// Instructions. Each one works on an instruction that was fetched, and on
/// register numbers below 16.
impl Chip8 {
    /// Clears the screen.
    fn op_00e0(&mut self)
        requires
            old(self).running(),
        ensures
            final(self)@ == old(self)@.op_00e0(),
    {
        self.display = [false; 2048];
        self.next();
        assert(self@ =~= old(self)@.op_00e0());
    }

    /// Returns from a subroutine.
    fn op_00ee(&mut self) -> (r: Result<(), Chip8Error>)
        requires
            old(self).running(),
        ensures
            final(self).wf(),
            outcome(old(self)@.op_00ee(), old(self)@, final(self)@, r),
    {
        match self.pop() {
            Ok(addr) => {
                self.pc = addr;
                Ok(())
            },
            Err(e) => Err(e),
        }
    }

    /// Jumps to `nnn`.
    fn op_0nnn(&mut self, nnn: u16)
        ensures
            final(self)@ == old(self)@.op_jump(nnn),
    {
        self.pc = nnn;
    }

    /// Jumps to `nnn`.
    fn op_1nnn(&mut self, nnn: u16)
        ensures
            final(self)@ == old(self)@.op_jump(nnn),
    {
        self.pc = nnn;
    }

    /// Calls the subroutine at `nnn`.
    fn op_2nnn(&mut self, nnn: u16) -> (r: Result<(), Chip8Error>)
        requires
            old(self).running(),
        ensures
            final(self).wf(),
            outcome(old(self)@.op_2nnn(nnn), old(self)@, final(self)@, r),
    {
        let ret = self.pc + 2;
        match self.push(ret) {
            Ok(()) => {
                self.pc = nnn;
                Ok(())
            },
            Err(e) => Err(e),
        }
    }

    fn op_3xkk(&mut self, x: usize, kk: u8)
        requires
            old(self).running(),
            x < 16,
        ensures
            final(self)@ == old(self)@.skip_if(old(self)@.v[x as int] == kk),
    {
        self.skip_if(self.v[x] == kk);
    }

    fn op_4xkk(&mut self, x: usize, kk: u8)
        requires
            old(self).running(),
            x < 16,
        ensures
            final(self)@ == old(self)@.skip_if(old(self)@.v[x as int] != kk),
    {
        self.skip_if(self.v[x] != kk);
    }

    fn op_5xy0(&mut self, x: usize, y: usize)
        requires
            old(self).running(),
            x < 16,
            y < 16,
        ensures
            final(self)@ == old(self)@.skip_if(old(self)@.v[x as int] == old(self)@.v[y as int]),
    {
        self.skip_if(self.v[x] == self.v[y]);
    }

    fn op_6xkk(&mut self, x: usize, kk: u8)
        requires
            old(self).running(),
            x < 16,
        ensures
            final(self)@ == old(self)@.set_v(x as int, kk).next(),
    {
        self.v[x] = kk;
        self.next();
    }

    fn op_7xkk(&mut self, x: usize, kk: u8)
        requires
            old(self).running(),
            x < 16,
        ensures
            final(self)@ == old(self)@.op_7xkk(x as int, kk),
    {
        self.v[x] = self.v[x].wrapping_add(kk);
        self.next();
    }

    fn op_8xy0(&mut self, x: usize, y: usize)
        requires
            old(self).running(),
            x < 16,
            y < 16,
        ensures
            final(self)@ == old(self)@.set_v(x as int, old(self)@.v[y as int]).next(),
    {
        self.v[x] = self.v[y];
        self.next();
    }

    fn op_8xy1(&mut self, x: usize, y: usize)
        requires
            old(self).running(),
            x < 16,
            y < 16,
        ensures
            final(self)@ == old(self)@.set_v(
                x as int,
                old(self)@.v[x as int] | old(self)@.v[y as int],
            ).next(),
    {
        self.v[x] = self.v[x] | self.v[y];
        self.next();
    }

    fn op_8xy2(&mut self, x: usize, y: usize)
        requires
            old(self).running(),
            x < 16,
            y < 16,
        ensures
            final(self)@ == old(self)@.set_v(
                x as int,
                old(self)@.v[x as int] & old(self)@.v[y as int],
            ).next(),
    {
        self.v[x] = self.v[x] & self.v[y];
        self.next();
    }

    fn op_8xy3(&mut self, x: usize, y: usize)
        requires
            old(self).running(),
            x < 16,
            y < 16,
        ensures
            final(self)@ == old(self)@.set_v(
                x as int,
                old(self)@.v[x as int] ^ old(self)@.v[y as int],
            ).next(),
    {
        self.v[x] = self.v[x] ^ self.v[y];
        self.next();
    }

    fn op_8xy4(&mut self, x: usize, y: usize)
        requires
            old(self).running(),
            x < 16,
            y < 16,
        ensures
            final(self)@ == old(self)@.op_8xy4(x as int, y as int),
    {
        let (a, b) = (self.v[x], self.v[y]);
        let carry: u8 = if a as u16 + b as u16 >= 256 {
            1
        } else {
            0
        };
        self.v[x] = a.wrapping_add(b);
        self.v[15] = carry;
        self.next();
    }

    fn op_8xy5(&mut self, x: usize, y: usize)
        requires
            old(self).running(),
            x < 16,
            y < 16,
        ensures
            final(self)@ == old(self)@.op_8xy5(x as int, y as int),
    {
        let (a, b) = (self.v[x], self.v[y]);
        let not_borrow: u8 = if a >= b {
            1
        } else {
            0
        };
        self.v[x] = a.wrapping_sub(b);
        self.v[15] = not_borrow;
        self.next();
    }

    fn op_8xy6(&mut self, x: usize)
        requires
            old(self).running(),
            x < 16,
        ensures
            final(self)@ == old(self)@.op_8xy6(x as int),
    {
        let a = self.v[x];
        self.v[x] = a / 2;
        self.v[15] = a % 2;
        self.next();
    }

    fn op_8xy7(&mut self, x: usize, y: usize)
        requires
            old(self).running(),
            x < 16,
            y < 16,
        ensures
            final(self)@ == old(self)@.op_8xy7(x as int, y as int),
    {
        let (a, b) = (self.v[x], self.v[y]);
        let not_borrow: u8 = if b >= a {
            1
        } else {
            0
        };
        self.v[x] = b.wrapping_sub(a);
        self.v[15] = not_borrow;
        self.next();
    }

    fn op_8xye(&mut self, x: usize)
        requires
            old(self).running(),
            x < 16,
        ensures
            final(self)@ == old(self)@.op_8xye(x as int),
    {
        let a = self.v[x];
        self.v[x] = a.wrapping_mul(2);
        self.v[15] = a / 128;
        self.next();
    }

    fn op_9xy0(&mut self, x: usize, y: usize)
        requires
            old(self).running(),
            x < 16,
            y < 16,
        ensures
            final(self)@ == old(self)@.skip_if(old(self)@.v[x as int] != old(self)@.v[y as int]),
    {
        self.skip_if(self.v[x] != self.v[y]);
    }

    fn op_annn(&mut self, nnn: u16)
        requires
            old(self).running(),
        ensures
            final(self)@ == (Chip8State { i: nnn, ..old(self)@ }).next(),
    {
        self.i = nnn;
        self.next();
    }

    fn op_bnnn(&mut self, nnn: u16)
        requires
            nnn < 0x1000,
        ensures
            final(self)@ == old(self)@.op_jump((nnn + old(self)@.v[0]) as u16),
    {
        self.pc = nnn + self.v[0] as u16;
    }

    /// `Vx := random & kk`, with the random byte given.
    fn op_cxkk(&mut self, x: usize, kk: u8, random: u8)
        requires
            old(self).running(),
            x < 16,
        ensures
            final(self)@ == old(self)@.set_v(x as int, random & kk).next(),
    {
        self.v[x] = random & kk;
        self.next();
    }

    /// Whether the sprite drawn by `Dxyn` has a set bit over pixel `p`.
    fn sprite_pixel(&self, i: usize, vx: usize, vy: usize, n: usize, p: usize) -> (r: bool)
        requires
            i + n <= MEMORY_SIZE,
            n < 16,
            vx < 256,
            vy < 256,
            p < SCREEN_SIZE,
        ensures
            r == sprite_covers(self@.ram, i as int, vx as int, vy as int, n as int, p as int),
    {
        let row = (p / 64 + 32 - vy % 32) % 32;
        let col = (p % 64 + 64 - vx % 64) % 64;
        proof {
            lemma_wrapped_offset(p as int / 64, vy as int, 32);
            lemma_wrapped_offset(p as int % 64, vx as int, 64);
        }
        if row < n && col < 8 {
            let sprite = self.ram[i + row];
            (sprite >> (7 - col as u8)) & 1 == 1
        } else {
            false
        }
    }

    /// XOR-draws the `n`-row sprite at `I` at `(Vx, Vy)`, wrapping at the screen
    /// edges; VF tells whether a lit pixel was turned off.
    fn op_dxyn(&mut self, x: usize, y: usize, n: u8) -> (r: Result<(), Chip8Error>)
        requires
            old(self).running(),
            x < 16,
            y < 16,
            n < 16,
        ensures
            outcome(old(self)@.op_dxyn(x as int, y as int, n as int), old(self)@, final(self)@, r),
    {
        let i = self.i as usize;
        let n = n as usize;
        if i + n > MEMORY_SIZE {
            return Err(Chip8Error::OutOfBounds);
        }
        let vx = self.v[x] as usize;
        let vy = self.v[y] as usize;
        let mut display = self.display;
        let mut collision = false;
        let mut p: usize = 0;
        while p < SCREEN_SIZE
            invariant
                0 <= p <= SCREEN_SIZE,
                i + n <= MEMORY_SIZE,
                n < 16,
                vx < 256,
                vy < 256,
                forall|q: int| 0 <= q < p ==> display@[q] == (self.display@[q] != sprite_covers(self.ram@, i as int, vx as int, vy as int, n as int, q)),
                forall|q: int| p <= q < SCREEN_SIZE ==> display@[q] == self.display@[q],
                collision == exists|q: int| 0 <= q < p && self.display@[q] && sprite_covers(self.ram@, i as int, vx as int, vy as int, n as int, q),
            decreases SCREEN_SIZE - p,
        {
            let hit = self.sprite_pixel(i, vx, vy, n, p);
            let lit = display[p];
            if hit {
                if lit {
                    collision = true;
                }
                display[p] = !lit;
            }
            assert(collision == exists|q: int| 0 <= q < p + 1 && self.display@[q] && sprite_covers(self.ram@, i as int, vx as int, vy as int, n as int, q)) by {
                if !collision {
                    assert forall|q: int| 0 <= q < p + 1 implies !(self.display@[q] && sprite_covers(self.ram@, i as int, vx as int, vy as int, n as int, q)) by {
                        if q < p {
                        }
                    }
                }
            }
            p = p + 1;
        }
        self.display = display;
        self.v[15] = if collision {
            1
        } else {
            0
        };
        self.next();
        assert(self@ =~= old(self)@.op_dxyn(x as int, y as int, n as int).unwrap());
        Ok(())
    }

    fn op_ex9e(&mut self, x: usize) -> (r: Result<(), Chip8Error>)
        requires
            old(self).running(),
            x < 16,
        ensures
            outcome(old(self)@.op_key_skip(x as int, true), old(self)@, final(self)@, r),
    {
        let key = self.v[x] as usize;
        if key >= 16 {
            return Err(Chip8Error::OutOfBounds);
        }
        if self.keys[key] {
            self.pc = self.pc + 4;
        } else {
            self.next();
        }
        Ok(())
    }

    fn op_exa1(&mut self, x: usize) -> (r: Result<(), Chip8Error>)
        requires
            old(self).running(),
            x < 16,
        ensures
            outcome(old(self)@.op_key_skip(x as int, false), old(self)@, final(self)@, r),
    {
        let key = self.v[x] as usize;
        if key >= 16 {
            return Err(Chip8Error::OutOfBounds);
        }
        self.skip_if(!self.keys[key]);
        Ok(())
    }

    fn op_fx07(&mut self, x: usize)
        requires
            old(self).running(),
            x < 16,
        ensures
            final(self)@ == old(self)@.set_v(x as int, old(self)@.dt).next(),
    {
        self.v[x] = self.dt;
        self.next();
    }

    /// Waits for a key: takes the lowest held key, or stays on this instruction.
    fn op_fx0a(&mut self, x: usize)
        requires
            old(self).running(),
            x < 16,
        ensures
            final(self)@ == old(self)@.op_fx0a(x as int),
    {
        let mut k: usize = 0;
        while k < 16
            invariant
                0 <= k <= 16,
                x < 16,
                *self == *old(self),
                self.running(),
                forall|j: int| 0 <= j < k ==> !self.keys@[j],
            decreases 16 - k,
        {
            if self.keys[k] {
                proof {
                    assert(is_first_pressed(self.keys@, k as int));
                    let c = choose|c: int| is_first_pressed(self.keys@, c);
                    assert(c == k) by {
                        if c < k {
                            assert(!self.keys@[c]);
                        } else if c > k {
                            assert(!self.keys@[k as int]);
                        }
                    }
                }
                self.v[x] = k as u8;
                self.next();
                return;
            }
            k = k + 1;
        }
    }

    fn op_fx15(&mut self, x: usize)
        requires
            old(self).running(),
            x < 16,
        ensures
            final(self)@ == (Chip8State { dt: old(self)@.v[x as int], ..old(self)@ }).next(),
    {
        self.dt = self.v[x];
        self.next();
    }

    fn op_fx18(&mut self, x: usize)
        requires
            old(self).running(),
            x < 16,
        ensures
            final(self)@ == (Chip8State { st: old(self)@.v[x as int], ..old(self)@ }).next(),
    {
        self.st = self.v[x];
        self.next();
    }

    fn op_fx1e(&mut self, x: usize)
        requires
            old(self).running(),
            x < 16,
        ensures
            final(self)@ == old(self)@.op_fx1e(x as int),
    {
        self.i = self.i.wrapping_add(self.v[x] as u16);
        self.next();
    }

    /// Points `I` at the font glyph for digit `Vx`.
    fn op_fx29(&mut self, x: usize)
        requires
            old(self).running(),
            x < 16,
        ensures
            final(self)@ == (Chip8State {
                i: (old(self)@.v[x as int] * 5) as u16,
                ..old(self)@
            }).next(),
    {
        self.i = self.v[x] as u16 * 5;
        self.next();
    }

    fn op_fx33(&mut self, x: usize) -> (r: Result<(), Chip8Error>)
        requires
            old(self).running(),
            x < 16,
        ensures
            outcome(old(self)@.op_fx33(x as int), old(self)@, final(self)@, r),
    {
        let vx = self.v[x];
        let i = self.i as usize;
        if i + 2 >= MEMORY_SIZE {
            return Err(Chip8Error::OutOfBounds);
        }
        self.ram[i] = vx / 100;
        self.ram[i + 1] = (vx / 10) % 10;
        self.ram[i + 2] = vx % 10;
        self.next();
        Ok(())
    }

    fn op_fx55(&mut self, x: usize) -> (r: Result<(), Chip8Error>)
        requires
            old(self).running(),
            x < 16,
        ensures
            outcome(old(self)@.op_fx55(x as int), old(self)@, final(self)@, r),
    {
        let i = self.i as usize;
        if i + x >= MEMORY_SIZE {
            return Err(Chip8Error::OutOfBounds);
        }
        let mut k: usize = 0;
        while k <= x
            invariant
                0 <= k <= x + 1,
                x < 16,
                i + x < MEMORY_SIZE,
                i == old(self).i,
                self.running(),
                self@ == (Chip8State { ram: self@.ram, ..old(self)@ }),
                forall|a: int|
                    0 <= a < MEMORY_SIZE ==> self.ram@[a] == (if i <= a < i + k {
                        old(self).v@[a - i]
                    } else {
                        old(self).ram@[a]
                    }),
            decreases x + 1 - k,
        {
            self.ram[i + k] = self.v[k];
            k = k + 1;
        }
        self.next();
        assert(self@ =~= old(self)@.op_fx55(x as int).unwrap());
        Ok(())
    }

    fn op_fx65(&mut self, x: usize) -> (r: Result<(), Chip8Error>)
        requires
            old(self).running(),
            x < 16,
        ensures
            outcome(old(self)@.op_fx65(x as int), old(self)@, final(self)@, r),
    {
        let i = self.i as usize;
        if i + x >= MEMORY_SIZE {
            return Err(Chip8Error::OutOfBounds);
        }
        let mut k: usize = 0;
        while k <= x
            invariant
                0 <= k <= x + 1,
                x < 16,
                i + x < MEMORY_SIZE,
                i == old(self).i,
                self.running(),
                self@ == (Chip8State { v: self@.v, ..old(self)@ }),
                forall|r: int|
                    0 <= r < 16 ==> self.v@[r] == (if r < k {
                        old(self).ram@[i + r]
                    } else {
                        old(self).v@[r]
                    }),
            decreases x + 1 - k,
        {
            self.v[k] = self.ram[i + k];
            k = k + 1;
        }
        self.next();
        assert(self@ =~= old(self)@.op_fx65(x as int).unwrap());
        Ok(())
    }
}

impl Chip8 {
    /// Decodes instruction word `opcode` and carries it out; `random` is the
    /// byte that `Cxkk` uses.
    fn execute(&mut self, opcode: u16, random: u8) -> (r: Result<(), Chip8Error>)
        requires
            old(self).running(),
        ensures
            final(self).wf(),
            outcome(old(self)@.execute(opcode, random), old(self)@, final(self)@, r),
    {
        let nnn = opcode % 0x1000;
        let kk = (opcode % 0x100) as u8;
        let nibbles = (
            (opcode / 0x1000) as u8,
            (opcode / 0x100 % 0x10) as u8,
            (opcode / 0x10 % 0x10) as u8,
            (opcode % 0x10) as u8,
        );
        let x = nibbles.1 as usize;
        let y = nibbles.2 as usize;
        let n = nibbles.3;
        match nibbles {
            (0x0, 0x0, 0x0, 0x0) => Ok(()),
            (0x0, 0x0, 0xE, 0x0) => {
                self.op_00e0();
                Ok(())
            },
            (0x0, 0x0, 0xE, 0xE) => self.op_00ee(),
            (0x0, _, _, _) => {
                self.op_0nnn(nnn);
                Ok(())
            },
            (0x1, _, _, _) => {
                self.op_1nnn(nnn);
                Ok(())
            },
            (0x2, _, _, _) => self.op_2nnn(nnn),
            (0x3, _, _, _) => {
                self.op_3xkk(x, kk);
                Ok(())
            },
            (0x4, _, _, _) => {
                self.op_4xkk(x, kk);
                Ok(())
            },
            (0x5, _, _, 0x0) => {
                self.op_5xy0(x, y);
                Ok(())
            },
            (0x6, _, _, _) => {
                self.op_6xkk(x, kk);
                Ok(())
            },
            (0x7, _, _, _) => {
                self.op_7xkk(x, kk);
                Ok(())
            },
            (0x8, _, _, 0x0) => {
                self.op_8xy0(x, y);
                Ok(())
            },
            (0x8, _, _, 0x1) => {
                self.op_8xy1(x, y);
                Ok(())
            },
            (0x8, _, _, 0x2) => {
                self.op_8xy2(x, y);
                Ok(())
            },
            (0x8, _, _, 0x3) => {
                self.op_8xy3(x, y);
                Ok(())
            },
            (0x8, _, _, 0x4) => {
                self.op_8xy4(x, y);
                Ok(())
            },
            (0x8, _, _, 0x5) => {
                self.op_8xy5(x, y);
                Ok(())
            },
            (0x8, _, _, 0x6) => {
                self.op_8xy6(x);
                Ok(())
            },
            (0x8, _, _, 0x7) => {
                self.op_8xy7(x, y);
                Ok(())
            },
            (0x8, _, _, 0xE) => {
                self.op_8xye(x);
                Ok(())
            },
            (0x9, _, _, 0x0) => {
                self.op_9xy0(x, y);
                Ok(())
            },
            (0xA, _, _, _) => {
                self.op_annn(nnn);
                Ok(())
            },
            (0xB, _, _, _) => {
                self.op_bnnn(nnn);
                Ok(())
            },
            (0xC, _, _, _) => {
                self.op_cxkk(x, kk, random);
                Ok(())
            },
            (0xD, _, _, _) => self.op_dxyn(x, y, n),
            (0xE, _, 0x9, 0xE) => self.op_ex9e(x),
            (0xE, _, 0xA, 0x1) => self.op_exa1(x),
            (0xF, _, 0x0, 0x7) => {
                self.op_fx07(x);
                Ok(())
            },
            (0xF, _, 0x0, 0xA) => {
                self.op_fx0a(x);
                Ok(())
            },
            (0xF, _, 0x1, 0x5) => {
                self.op_fx15(x);
                Ok(())
            },
            (0xF, _, 0x1, 0x8) => {
                self.op_fx18(x);
                Ok(())
            },
            (0xF, _, 0x1, 0xE) => {
                self.op_fx1e(x);
                Ok(())
            },
            (0xF, _, 0x2, 0x9) => {
                self.op_fx29(x);
                Ok(())
            },
            (0xF, _, 0x3, 0x3) => self.op_fx33(x),
            (0xF, _, 0x5, 0x5) => self.op_fx55(x),
            (0xF, _, 0x6, 0x5) => self.op_fx65(x),
            _ => Err(Chip8Error::UnknownOpcode { opcode, pc: self.pc }),
        }
    }
}

} // verus!
