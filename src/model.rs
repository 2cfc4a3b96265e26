//! The abstract machine: its state as mathematical values, and the effect of
//! every instruction on that state.
use vstd::arithmetic::div_mod::lemma_fundamental_div_mod_converse;
use vstd::prelude::*;

verus! {

/// The built-in hexadecimal font: sixteen glyphs of five rows each.
pub const FONT: [u8; 80] = [
    0xF0, 0x90, 0x90, 0x90, 0xF0, // 0
    0x20, 0x60, 0x20, 0x20, 0x70, // 1
    0xF0, 0x10, 0xF0, 0x80, 0xF0, // 2
    0xF0, 0x10, 0xF0, 0x10, 0xF0, // 3
    0x90, 0x90, 0xF0, 0x10, 0x10, // 4
    0xF0, 0x80, 0xF0, 0x10, 0xF0, // 5
    0xF0, 0x80, 0xF0, 0x90, 0xF0, // 6
    0xF0, 0x10, 0x20, 0x40, 0x40, // 7
    0xF0, 0x90, 0xF0, 0x90, 0xF0, // 8
    0xF0, 0x90, 0xF0, 0x10, 0xF0, // 9
    0xF0, 0x90, 0xF0, 0x90, 0x90, // A
    0xE0, 0x90, 0xE0, 0x90, 0xE0, // B
    0xF0, 0x80, 0x80, 0x80, 0xF0, // C
    0xE0, 0x90, 0x90, 0x90, 0xE0, // D
    0xF0, 0x80, 0xF0, 0x80, 0xF0, // E
    0xF0, 0x80, 0xF0, 0x80, 0x80, // F
];

/// Address at which the font is stored.
pub const FONT_START: usize = 0x50;

/// Address at which programs are loaded and execution starts.
pub const PROGRAM_START: usize = 0x200;

/// Bytes of addressable memory.
pub const MEMORY_SIZE: usize = 4096;

/// Pixels on the screen: 64 columns by 32 rows, row-major.
pub const SCREEN_SIZE: usize = 2048;

/// Why an operation of the machine failed. The machine is left unchanged.
#[derive(Debug, Clone, Copy, PartialEq, Eq, Structural)]
pub enum Chip8Error {
    /// A memory, stack or keypad access would fall outside its range.
    OutOfBounds,
    /// The instruction word at `pc` matches no instruction.
    UnknownOpcode { opcode: u16, pc: u16 },
}

/// The whole state of a machine, as mathematical values.
#[verifier::ext_equal]
pub struct Chip8State {
    /// The registers V0 to VF; VF doubles as the flag register.
    pub v: Seq<u8>,
    /// The index register I.
    pub i: u16,
    pub pc: u16,
    /// Number of return addresses on the call stack.
    pub sp: u8,
    pub dt: u8,
    pub st: u8,
    pub ram: Seq<u8>,
    pub stack: Seq<u16>,
    pub display: Seq<bool>,
    pub keys: Seq<bool>,
}

/// The four nibbles of an instruction word, most significant first.
pub open spec fn nibbles(op: u16) -> (u8, u8, u8, u8) {
    ((op / 0x1000) as u8, (op / 0x100 % 0x10) as u8, (op / 0x10 % 0x10) as u8, (op % 0x10) as u8)
}

/// The instruction word with nibbles `f`, `x`, `y`, `n`, most significant first.
pub open spec fn encode(f: int, x: int, y: int, n: int) -> u16 {
    (f * 0x1000 + x * 0x100 + y * 0x10 + n) as u16
}

/// Decoding an encoded instruction word gives back its nibbles.
pub proof fn lemma_nibbles_of_encode(f: int, x: int, y: int, n: int)
    requires
        0 <= f < 16,
        0 <= x < 16,
        0 <= y < 16,
        0 <= n < 16,
    ensures
        nibbles(encode(f, x, y, n)) == (f as u8, x as u8, y as u8, n as u8),
        addr_of(encode(f, x, y, n)) == x * 0x100 + y * 0x10 + n,
        byte_of(encode(f, x, y, n)) == y * 0x10 + n,
{
    let op = f * 0x1000 + x * 0x100 + y * 0x10 + n;
    assert(encode(f, x, y, n) == op);
    lemma_fundamental_div_mod_converse(op, 0x1000, f, x * 0x100 + y * 0x10 + n);
    lemma_fundamental_div_mod_converse(op, 0x100, f * 0x10 + x, y * 0x10 + n);
    lemma_fundamental_div_mod_converse(f * 0x10 + x, 0x10, f, x);
    lemma_fundamental_div_mod_converse(op, 0x10, f * 0x100 + x * 0x10 + y, n);
    lemma_fundamental_div_mod_converse(f * 0x100 + x * 0x10 + y, 0x10, f * 0x10 + x, y);
}

/// The low twelve bits of an instruction word: an address.
pub open spec fn addr_of(op: u16) -> u16 {
    op % 0x1000
}

/// The low byte of an instruction word.
pub open spec fn byte_of(op: u16) -> u8 {
    (op % 0x100) as u8
}

/// Whether bit `col` of a sprite row is set, counting from the most significant bit.
pub open spec fn sprite_bit(row: u8, col: int) -> bool {
    (row >> ((7 - col) as u8)) & 1u8 == 1u8
}

/// The sprite row that lands on screen row `py` when the sprite's top is at `vy`.
pub open spec fn row_offset(vy: int, py: int) -> int {
    (py - vy) % 32
}

/// The sprite column that lands on screen column `px` when the sprite's left edge is at `vx`.
pub open spec fn col_offset(vx: int, px: int) -> int {
    (px - vx) % 64
}

/// Whether the `n`-row sprite stored at `ram[i..]`, drawn at `(vx, vy)` with wrap-around,
/// has a set bit over pixel `p`.
pub open spec fn sprite_covers(ram: Seq<u8>, i: int, vx: int, vy: int, n: int, p: int) -> bool {
    let row = row_offset(vy, p / 64);
    let col = col_offset(vx, p % 64);
    row < n && col < 8 && sprite_bit(ram[i + row], col)
}

/// Whether `k` is the lowest-numbered key that is held down.
pub open spec fn is_first_pressed(keys: Seq<bool>, k: int) -> bool {
    0 <= k < 16 && keys[k] && forall|j: int| 0 <= j < k ==> !keys[j]
}

/// Whether a call that returned `r` and left the machine in `after` carried out
/// `res`, computed from `before`: the new state on success, or the error with
/// the machine unchanged.
pub open spec fn outcome(
    res: Result<Chip8State, Chip8Error>,
    before: Chip8State,
    after: Chip8State,
    r: Result<(), Chip8Error>,
) -> bool {
    match res {
        Ok(t) => r is Ok && after == t,
        Err(e) => r == Err::<(), Chip8Error>(e) && after == before,
    }
}

impl Chip8State {
    /// Sizes of the parts, and a call stack within its capacity.
    pub open spec fn wf(self) -> bool {
        &&& self.v.len() == 16
        &&& self.ram.len() == MEMORY_SIZE
        &&& self.stack.len() == 16
        &&& self.display.len() == SCREEN_SIZE
        &&& self.keys.len() == 16
        &&& self.sp <= 16
    }

    /// Memory of a freshly built machine: the font in place, zeros elsewhere.
    pub open spec fn initial_ram() -> Seq<u8> {
        Seq::new(
            MEMORY_SIZE as nat,
            |a: int|
                if FONT_START <= a < FONT_START + 80 {
                    FONT@[a - FONT_START]
                } else {
                    0u8
                },
        )
    }

    /// A freshly built machine.
    pub open spec fn initial() -> Chip8State {
        Chip8State {
            v: Seq::new(16, |k: int| 0u8),
            i: 0,
            pc: PROGRAM_START as u16,
            sp: 0,
            dt: 0,
            st: 0,
            ram: Self::initial_ram(),
            stack: Seq::new(16, |k: int| 0u16),
            display: Seq::new(SCREEN_SIZE as nat, |p: int| false),
            keys: Seq::new(16, |k: int| false),
        }
    }

    pub open spec fn set_v(self, x: int, b: u8) -> Chip8State {
        Chip8State { v: self.v.update(x, b), ..self }
    }

    pub open spec fn advance(self, k: int) -> Chip8State {
        Chip8State { pc: (self.pc + k) as u16, ..self }
    }

    /// Moves on to the following instruction.
    pub open spec fn next(self) -> Chip8State {
        self.advance(2)
    }

    /// Skips the following instruction when `c` holds.
    pub open spec fn skip_if(self, c: bool) -> Chip8State {
        if c {
            self.advance(4)
        } else {
            self.advance(2)
        }
    }

    /// The instruction word at the program counter, big-endian.
    pub open spec fn fetch(self) -> Result<u16, Chip8Error> {
        if self.pc as int + 1 >= MEMORY_SIZE {
            Err(Chip8Error::OutOfBounds)
        } else {
            Ok((self.ram[self.pc as int] as int * 256 + self.ram[self.pc as int + 1]) as u16)
        }
    }

    /// One cycle: fetch, then execute; `rnd` is the random byte that `Cxkk` would use.
    pub open spec fn step(self, rnd: u8) -> Result<Chip8State, Chip8Error> {
        match self.fetch() {
            Ok(op) => self.execute(op, rnd),
            Err(e) => Err(e),
        }
    }

    pub open spec fn op_00e0(self) -> Chip8State {
        Chip8State { display: Seq::new(SCREEN_SIZE as nat, |p: int| false), ..self }.next()
    }

    pub open spec fn op_00ee(self) -> Result<Chip8State, Chip8Error> {
        if self.sp == 0 {
            Err(Chip8Error::OutOfBounds)
        } else {
            Ok(Chip8State { pc: self.stack[self.sp - 1], sp: (self.sp - 1) as u8, ..self })
        }
    }

    pub open spec fn op_jump(self, nnn: u16) -> Chip8State {
        Chip8State { pc: nnn, ..self }
    }

    pub open spec fn op_2nnn(self, nnn: u16) -> Result<Chip8State, Chip8Error> {
        if self.sp >= 16 {
            Err(Chip8Error::OutOfBounds)
        } else {
            Ok(
                Chip8State {
                    stack: self.stack.update(self.sp as int, (self.pc + 2) as u16),
                    sp: (self.sp + 1) as u8,
                    pc: nnn,
                    ..self
                },
            )
        }
    }

    pub open spec fn op_7xkk(self, x: int, kk: u8) -> Chip8State {
        self.set_v(x, ((self.v[x] + kk) % 256) as u8).next()
    }

    /// `Vx := Vx + Vy` modulo 256, then VF := 1 exactly when the sum reached 256.
    pub open spec fn op_8xy4(self, x: int, y: int) -> Chip8State {
        let sum = self.v[x] + self.v[y];
        self.set_v(x, (sum % 256) as u8).set_v(
            15,
            if sum >= 256 {
                1u8
            } else {
                0u8
            },
        ).next()
    }

    /// `Vx := Vx - Vy` modulo 256, then VF := 1 exactly when no borrow occurred.
    pub open spec fn op_8xy5(self, x: int, y: int) -> Chip8State {
        let (a, b) = (self.v[x], self.v[y]);
        self.set_v(x, ((a - b) % 256) as u8).set_v(
            15,
            if a >= b {
                1u8
            } else {
                0u8
            },
        ).next()
    }

    /// `Vx := Vx >> 1`, then VF := the bit shifted out.
    pub open spec fn op_8xy6(self, x: int) -> Chip8State {
        let a = self.v[x];
        self.set_v(x, a / 2).set_v(15, a % 2).next()
    }

    /// `Vx := Vy - Vx` modulo 256, then VF := 1 exactly when no borrow occurred.
    pub open spec fn op_8xy7(self, x: int, y: int) -> Chip8State {
        let (a, b) = (self.v[x], self.v[y]);
        self.set_v(x, ((b - a) % 256) as u8).set_v(
            15,
            if b >= a {
                1u8
            } else {
                0u8
            },
        ).next()
    }

    /// `Vx := Vx << 1` modulo 256, then VF := the bit shifted out.
    pub open spec fn op_8xye(self, x: int) -> Chip8State {
        let a = self.v[x];
        self.set_v(x, ((a * 2) % 256) as u8).set_v(15, a / 128).next()
    }

    /// XOR-draws the `n`-row sprite at `ram[I..]` at `(Vx, Vy)`; VF := 1 exactly
    /// when some lit pixel was turned off.
    pub open spec fn op_dxyn(self, x: int, y: int, n: int) -> Result<Chip8State, Chip8Error> {
        if self.i + n > MEMORY_SIZE {
            Err(Chip8Error::OutOfBounds)
        } else {
            let (vx, vy) = (self.v[x] as int, self.v[y] as int);
            let covers = |p: int| sprite_covers(self.ram, self.i as int, vx, vy, n, p);
            let collision = exists|p: int| 0 <= p < SCREEN_SIZE && self.display[p] && covers(p);
            Ok(
                Chip8State {
                    display: Seq::new(SCREEN_SIZE as nat, |p: int| self.display[p] != covers(p)),
                    ..self
                }.set_v(
                    15,
                    if collision {
                        1u8
                    } else {
                        0u8
                    },
                ).next(),
            )
        }
    }

    /// Skips when the key named by Vx is (`down`) or is not (`!down`) held.
    pub open spec fn op_key_skip(self, x: int, down: bool) -> Result<Chip8State, Chip8Error> {
        if self.v[x] >= 16 {
            Err(Chip8Error::OutOfBounds)
        } else {
            Ok(self.skip_if(self.keys[self.v[x] as int] == down))
        }
    }

    /// Stores the lowest held key in Vx and moves on; with no key held, stays put.
    pub open spec fn op_fx0a(self, x: int) -> Chip8State {
        if exists|k: int| is_first_pressed(self.keys, k) {
            let k = choose|k: int| is_first_pressed(self.keys, k);
            self.set_v(x, k as u8).next()
        } else {
            self
        }
    }

    pub open spec fn op_fx1e(self, x: int) -> Chip8State {
        Chip8State { i: ((self.i + self.v[x]) % 0x10000) as u16, ..self }.next()
    }

    /// Hundreds, tens and ones of Vx at `I`, `I+1`, `I+2`.
    pub open spec fn op_fx33(self, x: int) -> Result<Chip8State, Chip8Error> {
        let a = self.v[x];
        let i = self.i as int;
        if i + 2 >= MEMORY_SIZE {
            Err(Chip8Error::OutOfBounds)
        } else {
            Ok(
                Chip8State {
                    ram: self.ram.update(i, a / 100).update(i + 1, (a / 10) % 10).update(
                        i + 2,
                        a % 10,
                    ),
                    ..self
                }.next(),
            )
        }
    }

    /// V0 through Vx stored at `I..=I+x`.
    pub open spec fn op_fx55(self, x: int) -> Result<Chip8State, Chip8Error> {
        let i = self.i as int;
        if i + x >= MEMORY_SIZE {
            Err(Chip8Error::OutOfBounds)
        } else {
            Ok(
                Chip8State {
                    ram: Seq::new(
                        MEMORY_SIZE as nat,
                        |a: int|
                            if i <= a <= i + x {
                                self.v[a - i]
                            } else {
                                self.ram[a]
                            },
                    ),
                    ..self
                }.next(),
            )
        }
    }

    /// V0 through Vx loaded from `I..=I+x`.
    pub open spec fn op_fx65(self, x: int) -> Result<Chip8State, Chip8Error> {
        let i = self.i as int;
        if i + x >= MEMORY_SIZE {
            Err(Chip8Error::OutOfBounds)
        } else {
            Ok(
                Chip8State {
                    v: Seq::new(
                        16,
                        |r: int|
                            if r <= x {
                                self.ram[i + r]
                            } else {
                                self.v[r]
                            },
                    ),
                    ..self
                }.next(),
            )
        }
    }

    /// The effect of instruction word `op`; `rnd` is the random byte that `Cxkk` uses.
    pub open spec fn execute(self, op: u16, rnd: u8) -> Result<Chip8State, Chip8Error> {
        let (x, y) = (nibbles(op).1 as int, nibbles(op).2 as int);
        let (nnn, kk) = (addr_of(op), byte_of(op));
        match nibbles(op) {
            (0x0, 0x0, 0x0, 0x0) => Ok(self),
            (0x0, 0x0, 0xE, 0x0) => Ok(self.op_00e0()),
            (0x0, 0x0, 0xE, 0xE) => self.op_00ee(),
            (0x0, _, _, _) => Ok(self.op_jump(nnn)),
            (0x1, _, _, _) => Ok(self.op_jump(nnn)),
            (0x2, _, _, _) => self.op_2nnn(nnn),
            (0x3, _, _, _) => Ok(self.skip_if(self.v[x] == kk)),
            (0x4, _, _, _) => Ok(self.skip_if(self.v[x] != kk)),
            (0x5, _, _, 0x0) => Ok(self.skip_if(self.v[x] == self.v[y])),
            (0x6, _, _, _) => Ok(self.set_v(x, kk).next()),
            (0x7, _, _, _) => Ok(self.op_7xkk(x, kk)),
            (0x8, _, _, 0x0) => Ok(self.set_v(x, self.v[y]).next()),
            (0x8, _, _, 0x1) => Ok(self.set_v(x, self.v[x] | self.v[y]).next()),
            (0x8, _, _, 0x2) => Ok(self.set_v(x, self.v[x] & self.v[y]).next()),
            (0x8, _, _, 0x3) => Ok(self.set_v(x, self.v[x] ^ self.v[y]).next()),
            (0x8, _, _, 0x4) => Ok(self.op_8xy4(x, y)),
            (0x8, _, _, 0x5) => Ok(self.op_8xy5(x, y)),
            (0x8, _, _, 0x6) => Ok(self.op_8xy6(x)),
            (0x8, _, _, 0x7) => Ok(self.op_8xy7(x, y)),
            (0x8, _, _, 0xE) => Ok(self.op_8xye(x)),
            (0x9, _, _, 0x0) => Ok(self.skip_if(self.v[x] != self.v[y])),
            (0xA, _, _, _) => Ok(Chip8State { i: nnn, ..self }.next()),
            (0xB, _, _, _) => Ok(self.op_jump((nnn + self.v[0]) as u16)),
            (0xC, _, _, _) => Ok(self.set_v(x, rnd & kk).next()),
            (0xD, _, _, n) => self.op_dxyn(x, y, n as int),
            (0xE, _, 0x9, 0xE) => self.op_key_skip(x, true),
            (0xE, _, 0xA, 0x1) => self.op_key_skip(x, false),
            (0xF, _, 0x0, 0x7) => Ok(self.set_v(x, self.dt).next()),
            (0xF, _, 0x0, 0xA) => Ok(self.op_fx0a(x)),
            (0xF, _, 0x1, 0x5) => Ok(Chip8State { dt: self.v[x], ..self }.next()),
            (0xF, _, 0x1, 0x8) => Ok(Chip8State { st: self.v[x], ..self }.next()),
            (0xF, _, 0x1, 0xE) => Ok(self.op_fx1e(x)),
            (0xF, _, 0x2, 0x9) => Ok(Chip8State { i: (self.v[x] * 5) as u16, ..self }.next()),
            (0xF, _, 0x3, 0x3) => self.op_fx33(x),
            (0xF, _, 0x5, 0x5) => self.op_fx55(x),
            (0xF, _, 0x6, 0x5) => self.op_fx65(x),
            _ => Err(Chip8Error::UnknownOpcode { opcode: op, pc: self.pc }),
        }
    }

    /// The effect of one timer tick: each nonzero timer counts down by one.
    pub open spec fn tick(self) -> Chip8State {
        Chip8State {
            dt: if self.dt > 0 {
                (self.dt - 1) as u8
            } else {
                0
            },
            st: if self.st > 0 {
                (self.st - 1) as u8
            } else {
                0
            },
            ..self
        }
    }
}

} // verus!
