//! The mathematical model of the machine.
//!
//! [`Machine`] is the state of the interpreter as plain mathematics:
//! sequences and unbounded integers. Every operation of the instruction set
//! is a function from one `Machine` to the next, and [`Machine::step`] puts
//! them together into one tick. The executable engine is specified against
//! this model.

use vstd::prelude::*;
use crate::font::{FONT, FONT_BYTES, GLYPH_HEIGHT};
use crate::instruction::{decoded, Instruction};

verus! {

/// Bytes of memory.
pub const RAMBYTES: usize = 4096;

/// Columns of the display.
pub const CHIP_WIDTH: usize = 64;

/// Rows of the display.
pub const CHIP_HEIGHT: usize = 32;

/// Keys of the keypad, and general-purpose registers.
pub const NKEYS: usize = 16;

/// Where programs are loaded, and where execution starts.
pub const PROGRAM_START: usize = 0x200;

/// The register that receives carries, borrows and collisions.
pub const FLAG: usize = 0xF;

/// Columns of a sprite.
pub const SPRITE_WIDTH: usize = 8;

/// The largest value that the index register holds.
pub const INDEX_MAX: usize = 0xFFFF;

/// The state of a machine.
#[verifier::ext_equal]
pub struct Machine {
    /// Memory, one byte per address.
    pub ram: Seq<u8>,
    /// The display, row by row from the top; each row from the left.
    pub vram: Seq<Seq<bool>>,
    /// For each key, whether it is down.
    pub keyboard: Seq<bool>,
    /// The program counter: the address of the next instruction.
    pub pc: int,
    /// The index register.
    pub i: int,
    /// The return addresses of the calls in progress, innermost last.
    pub stack: Seq<int>,
    /// The delay timer.
    pub delay_timer: u8,
    /// The sound timer.
    pub sound_timer: u8,
    /// The general-purpose registers.
    pub v: Seq<u8>,
}

/// Whether the bit of `byte` that a sprite shows in column `col` is set;
/// column 0 is the most significant bit.
pub open spec fn sprite_bit(byte: u8, col: int) -> bool {
    (byte >> ((7 - col) as usize)) & 1 == 1
}

/// A display with every pixel off.
pub open spec fn blank_display() -> Seq<Seq<bool>> {
    Seq::new(CHIP_HEIGHT as nat, |r: int| Seq::new(CHIP_WIDTH as nat, |c: int| false))
}

/// How many rows of an `n`-row sprite lie on the display when its top row is
/// row `row` of the display.
pub open spec fn visible_rows(row: int, n: int) -> int {
    if n <= CHIP_HEIGHT - row {
        n
    } else {
        CHIP_HEIGHT - row
    }
}

/// Whether, on the keypad `keys`, key `k` is down and no key with a smaller
/// number is.
pub open spec fn is_lowest_down(keys: Seq<bool>, k: int) -> bool {
    &&& 0 <= k < keys.len()
    &&& keys[k]
    &&& forall|j: int| 0 <= j < k ==> !keys[j]
}

/// Whether any key of the keypad `keys` is down.
pub open spec fn any_down(keys: Seq<bool>) -> bool {
    exists|k: int| 0 <= k < keys.len() && keys[k]
}

/// The smallest number of a key of the keypad `keys` that is down.
pub open spec fn lowest_down(keys: Seq<bool>) -> int
    recommends
        any_down(keys),
{
    choose|k: int| is_lowest_down(keys, k)
}

/// A timer one tick later: one less, but never below zero.
pub open spec fn counted_down(timer: u8) -> u8 {
    if timer > 0 {
        (timer - 1) as u8
    } else {
        0
    }
}

impl Machine {
    /// The state has the machine's fixed shape: memory, display, keypad and
    /// registers have their sizes, addresses are not negative, and the
    /// index register fits its sixteen bits.
    pub open spec fn wf(self) -> bool {
        &&& self.ram.len() == RAMBYTES
        &&& self.vram.len() == CHIP_HEIGHT
        &&& forall|r: int| 0 <= r < CHIP_HEIGHT ==> (#[trigger] self.vram[r]).len() == CHIP_WIDTH
        &&& self.keyboard.len() == NKEYS
        &&& self.v.len() == NKEYS
        &&& 0 <= self.pc
        &&& 0 <= self.i <= INDEX_MAX
        &&& forall|k: int| 0 <= k < self.stack.len() ==> 0 <= #[trigger] self.stack[k]
    }

    /// The state of a machine that was just switched on: the font at the
    /// bottom of memory, the program counter at the start of the program
    /// area, everything else zero.
    pub open spec fn initial() -> Machine {
        Machine {
            ram: Seq::new(
                RAMBYTES as nat,
                |a: int|
                    if 0 <= a < FONT_BYTES {
                        FONT[a]
                    } else {
                        0u8
                    },
            ),
            vram: blank_display(),
            keyboard: Seq::new(NKEYS as nat, |k: int| false),
            pc: PROGRAM_START as int,
            i: 0,
            stack: Seq::empty(),
            delay_timer: 0,
            sound_timer: 0,
            v: Seq::new(NKEYS as nat, |k: int| 0u8),
        }
    }

    /// The state after a program image was copied to the program area. The
    /// bytes that do not fit into memory are dropped.
    pub open spec fn loaded(self, bytes: Seq<u8>) -> Machine {
        Machine {
            ram: Seq::new(
                self.ram.len(),
                |a: int|
                    if PROGRAM_START <= a < PROGRAM_START + bytes.len() {
                        bytes[a - PROGRAM_START]
                    } else {
                        self.ram[a]
                    },
            ),
            ..self
        }
    }

    /// The state with the program counter at `pc`.
    pub open spec fn with_pc(self, pc: int) -> Machine {
        Machine { pc, ..self }
    }

    /// The state with `value` in register `x`.
    pub open spec fn with_register(self, x: int, value: u8) -> Machine {
        Machine { v: self.v.update(x, value), ..self }
    }

    /// The state with the next instruction skipped if `condition` holds.
    pub open spec fn skip_if(self, condition: bool) -> Machine {
        if condition {
            self.with_pc(self.pc + 2)
        } else {
            self
        }
    }

    /// Clear-display: every pixel off.
    pub open spec fn clear_display(self) -> Machine {
        Machine { vram: blank_display(), ..self }
    }

    /// Return: the innermost return address becomes the program counter.
    /// With no call in progress nothing changes.
    pub open spec fn return_from_call(self) -> Machine {
        if self.stack.len() > 0 {
            Machine { pc: self.stack.last(), stack: self.stack.drop_last(), ..self }
        } else {
            self
        }
    }

    /// Call: the program counter is remembered as a return address and
    /// execution continues at `nnn`.
    pub open spec fn call(self, nnn: int) -> Machine {
        Machine { pc: nnn, stack: self.stack.push(self.pc), ..self }
    }

    /// Add-immediate: register `x` plus `nn`, modulo 256. The flag is left
    /// alone.
    pub open spec fn add_immediate(self, x: int, nn: u8) -> Machine {
        self.with_register(x, ((self.v[x] + nn) % 256) as u8)
    }

    /// Add: register `x` receives the low eight bits of the sum of
    /// registers `x` and `y`, then the flag receives the carry.
    pub open spec fn add_registers(self, x: int, y: int) -> Machine {
        let sum = self.v[x] + self.v[y];
        self.with_register(x, (sum % 256) as u8).with_register(
            FLAG as int,
            if sum > 0xFF {
                1
            } else {
                0
            },
        )
    }

    /// Sub: the flag receives 1 if register `x` is larger than register
    /// `y` and 0 otherwise, then register `x` receives `x` minus `y`,
    /// modulo 256.
    pub open spec fn sub_registers(self, x: int, y: int) -> Machine {
        let flagged = self.with_register(
            FLAG as int,
            if self.v[x] > self.v[y] {
                1
            } else {
                0
            },
        );
        flagged.with_register(x, ((flagged.v[x] - flagged.v[y]) % 256) as u8)
    }

    /// Sub-reverse: the flag receives 1 if register `y` is larger than
    /// register `x` and 0 otherwise, then register `x` receives `y` minus
    /// `x`, modulo 256.
    pub open spec fn sub_reverse(self, x: int, y: int) -> Machine {
        let flagged = self.with_register(
            FLAG as int,
            if self.v[y] > self.v[x] {
                1
            } else {
                0
            },
        );
        flagged.with_register(x, ((flagged.v[y] - flagged.v[x]) % 256) as u8)
    }

    /// Shift-right: the flag receives the lowest bit of register `x`, then
    /// register `x` is halved.
    pub open spec fn shift_right(self, x: int) -> Machine {
        let flagged = self.with_register(FLAG as int, (self.v[x] % 2) as u8);
        flagged.with_register(x, (flagged.v[x] / 2) as u8)
    }

    /// Shift-left: the flag receives the highest bit of register `x`, then
    /// register `x` is doubled, modulo 256.
    pub open spec fn shift_left(self, x: int) -> Machine {
        let flagged = self.with_register(FLAG as int, (self.v[x] / 128) as u8);
        flagged.with_register(x, ((flagged.v[x] * 2) % 256) as u8)
    }

    /// The column and the row at which a sprite is drawn whose position is
    /// held in registers `x` and `y`.
    pub open spec fn sprite_origin(self, x: int, y: int) -> (int, int) {
        (self.v[x] as int % CHIP_WIDTH as int, self.v[y] as int % CHIP_HEIGHT as int)
    }

    /// Whether the `n`-row sprite at the index register, drawn with its top
    /// left corner at column `col` and row `row`, has a set bit at row `r`
    /// and column `c` of the display.
    pub open spec fn sprite_covers(self, col: int, row: int, n: int, r: int, c: int) -> bool {
        &&& row <= r < row + n
        &&& col <= c < col + SPRITE_WIDTH
        &&& sprite_bit(self.ram[self.i + (r - row)], c - col)
    }

    /// Whether drawing that sprite switches the pixel at row `r` and column
    /// `c` off: the pixel is on and the sprite has a set bit there.
    pub open spec fn sprite_erases(self, col: int, row: int, n: int, r: int, c: int) -> bool {
        &&& 0 <= r < CHIP_HEIGHT
        &&& 0 <= c < CHIP_WIDTH
        &&& self.vram[r][c]
        &&& self.sprite_covers(col, row, n, r, c)
    }

    /// Whether drawing that sprite switches the pixel at row `r` and column
    /// `c` on: the pixel is off and the sprite has a set bit there.
    pub open spec fn sprite_lights(self, col: int, row: int, n: int, r: int, c: int) -> bool {
        &&& 0 <= r < CHIP_HEIGHT
        &&& 0 <= c < CHIP_WIDTH
        &&& !self.vram[r][c]
        &&& self.sprite_covers(col, row, n, r, c)
    }

    /// Whether drawing that sprite switches any pixel off.
    pub open spec fn sprite_collides(self, col: int, row: int, n: int) -> bool {
        exists|r: int, c: int| #[trigger] self.sprite_erases(col, row, n, r, c)
    }

    /// The display after that sprite was drawn: every pixel under a set
    /// bit of the sprite is flipped. What falls beyond the right or the
    /// bottom edge is not drawn.
    pub open spec fn drawn_display(self, col: int, row: int, n: int) -> Seq<Seq<bool>> {
        Seq::new(
            CHIP_HEIGHT as nat,
            |r: int|
                Seq::new(
                    CHIP_WIDTH as nat,
                    |c: int| self.vram[r][c] ^ self.sprite_covers(col, row, n, r, c),
                ),
        )
    }

    /// Draw-sprite: the `n`-row sprite at the index register is drawn at
    /// the position held in registers `x` and `y`, and the flag receives 1
    /// if that switched a pixel off and 0 otherwise.
    pub open spec fn draw_sprite(self, x: int, y: int, n: int) -> Machine {
        let (col, row) = self.sprite_origin(x, y);
        Machine {
            vram: self.drawn_display(col, row, n),
            v: self.v.update(
                FLAG as int,
                if self.sprite_collides(col, row, n) {
                    1
                } else {
                    0
                },
            ),
            ..self
        }
    }

    /// Whether key `k` is down and no key with a smaller number is.
    pub open spec fn is_lowest_key_down(self, k: int) -> bool {
        is_lowest_down(self.keyboard, k)
    }

    /// Whether any key is down.
    pub open spec fn any_key_down(self) -> bool {
        any_down(self.keyboard)
    }

    /// The smallest number of a key that is down.
    pub open spec fn lowest_key_down(self) -> int
        recommends
            self.any_key_down(),
    {
        lowest_down(self.keyboard)
    }

    /// Wait-for-key: with a key down, register `x` receives the smallest
    /// number of such a key. With none, the program counter goes back by
    /// one instruction, so that the wait is executed again.
    pub open spec fn wait_for_key(self, x: int) -> Machine {
        if self.any_key_down() {
            self.with_register(x, self.lowest_key_down() as u8)
        } else {
            self.with_pc(self.pc - 2)
        }
    }

    /// Store-bcd: the hundreds, tens and ones of register `x` go to the
    /// three bytes at the index register.
    pub open spec fn store_bcd(self, x: int) -> Machine {
        let value = self.v[x];
        Machine {
            ram: self.ram.update(self.i, (value / 100) as u8).update(
                self.i + 1,
                ((value % 100) / 10) as u8,
            ).update(self.i + 2, (value % 10) as u8),
            ..self
        }
    }

    /// Store-registers: registers 0 to `x` go to the bytes at the index
    /// register.
    pub open spec fn store_registers(self, x: int) -> Machine {
        Machine {
            ram: Seq::new(
                self.ram.len(),
                |a: int|
                    if self.i <= a <= self.i + x {
                        self.v[a - self.i]
                    } else {
                        self.ram[a]
                    },
            ),
            ..self
        }
    }

    /// Load-registers: registers 0 to `x` are read from the bytes at the
    /// index register.
    pub open spec fn load_registers(self, x: int) -> Machine {
        Machine {
            v: Seq::new(
                self.v.len(),
                |k: int|
                    if 0 <= k <= x {
                        self.ram[self.i + k]
                    } else {
                        self.v[k]
                    },
            ),
            ..self
        }
    }

    /// The state after `ins` was carried out. `random` is the byte that
    /// random-and masks; no other instruction looks at it.
    pub open spec fn execute(self, ins: Instruction, random: u8) -> Machine {
        match ins {
            Instruction::ClearDisplay => self.clear_display(),
            Instruction::Return => self.return_from_call(),
            Instruction::Jump { nnn } => self.with_pc(nnn as int),
            Instruction::Call { nnn } => self.call(nnn as int),
            Instruction::SkipIfEqual { x, nn } => self.skip_if(self.v[x as int] == nn),
            Instruction::SkipIfNotEqual { x, nn } => self.skip_if(self.v[x as int] != nn),
            Instruction::SkipIfRegistersEqual { x, y } => self.skip_if(
                self.v[x as int] == self.v[y as int],
            ),
            Instruction::SetRegister { x, nn } => self.with_register(x as int, nn),
            Instruction::AddImmediate { x, nn } => self.add_immediate(x as int, nn),
            Instruction::CopyRegister { x, y } => self.with_register(x as int, self.v[y as int]),
            Instruction::OrRegisters { x, y } => self.with_register(
                x as int,
                self.v[x as int] | self.v[y as int],
            ),
            Instruction::AndRegisters { x, y } => self.with_register(
                x as int,
                self.v[x as int] & self.v[y as int],
            ),
            Instruction::XorRegisters { x, y } => self.with_register(
                x as int,
                self.v[x as int] ^ self.v[y as int],
            ),
            Instruction::AddRegisters { x, y } => self.add_registers(x as int, y as int),
            Instruction::SubRegisters { x, y } => self.sub_registers(x as int, y as int),
            Instruction::ShiftRight { x } => self.shift_right(x as int),
            Instruction::SubReverse { x, y } => self.sub_reverse(x as int, y as int),
            Instruction::ShiftLeft { x } => self.shift_left(x as int),
            Instruction::SkipIfRegistersNotEqual { x, y } => self.skip_if(
                self.v[x as int] != self.v[y as int],
            ),
            Instruction::SetIndex { nnn } => Machine { i: nnn as int, ..self },
            Instruction::JumpWithOffset { nnn } => self.with_pc(nnn + self.v[0]),
            Instruction::RandomAnd { x, nn } => self.with_register(x as int, random & nn),
            Instruction::DrawSprite { x, y, n } => self.draw_sprite(x as int, y as int, n as int),
            Instruction::SkipIfKeyDown { x } => self.skip_if(self.keyboard[self.v[x as int] as int]),
            Instruction::SkipIfKeyUp { x } => self.skip_if(!self.keyboard[self.v[x as int] as int]),
            Instruction::GetDelayTimer { x } => self.with_register(x as int, self.delay_timer),
            Instruction::WaitForKey { x } => self.wait_for_key(x as int),
            Instruction::SetDelayTimer { x } => Machine { delay_timer: self.v[x as int], ..self },
            Instruction::SetSoundTimer { x } => Machine { sound_timer: self.v[x as int], ..self },
            Instruction::AddToIndex { x } => Machine { i: self.i + self.v[x as int], ..self },
            Instruction::LoadGlyphAddress { x } => Machine {
                i: GLYPH_HEIGHT * self.v[x as int],
                ..self
            },
            Instruction::StoreBcd { x } => self.store_bcd(x as int),
            Instruction::StoreRegisters { x } => self.store_registers(x as int),
            Instruction::LoadRegisters { x } => self.load_registers(x as int),
        }
    }

    /// Whether `ins` can be carried out in this state: the memory that it
    /// reads or writes lies within memory, the key or digit that it names
    /// exists, and the index register can hold what it receives.
    pub open spec fn admits(self, ins: Instruction) -> bool {
        match ins {
            Instruction::DrawSprite { x, y, n } => {
                let (col, row) = self.sprite_origin(x as int, y as int);
                let rows = visible_rows(row, n as int);
                rows > 0 ==> self.i + rows <= RAMBYTES
            },
            Instruction::SkipIfKeyDown { x } | Instruction::SkipIfKeyUp { x } => {
                self.v[x as int] < NKEYS
            },
            Instruction::AddToIndex { x } => self.i + self.v[x as int] <= INDEX_MAX,
            Instruction::LoadGlyphAddress { x } => self.v[x as int] < NKEYS,
            Instruction::StoreBcd { x } => self.i + 2 < RAMBYTES,
            Instruction::StoreRegisters { x } | Instruction::LoadRegisters { x } => {
                self.i + x < RAMBYTES
            },
            _ => true,
        }
    }

    /// The instruction word at the program counter: two bytes, the high one
    /// first.
    pub open spec fn word(self) -> u16 {
        (self.ram[self.pc] * 256 + self.ram[self.pc + 1]) as u16
    }

    /// Whether a tick can be carried out in this state: the instruction
    /// word lies within memory, and so does whatever the instruction that
    /// it encodes touches.
    pub open spec fn ready(self) -> bool {
        &&& self.pc + 1 < RAMBYTES
        &&& decoded(self.word()) matches Some(ins) ==> self.admits(ins)
    }

    /// The state after the instruction that `word` encodes was carried
    /// out. A word that encodes none changes nothing.
    pub open spec fn dispatch(self, word: u16, random: u8) -> Machine {
        match decoded(word) {
            Some(ins) => self.execute(ins, random),
            None => self,
        }
    }

    /// The state with both timers one tick later.
    pub open spec fn count_down(self) -> Machine {
        Machine {
            delay_timer: counted_down(self.delay_timer),
            sound_timer: counted_down(self.sound_timer),
            ..self
        }
    }

    /// One tick: the instruction word at the program counter is fetched
    /// and the program counter moves past it, the instruction is carried
    /// out, and the timers count down.
    pub open spec fn step(self, random: u8) -> Machine {
        self.with_pc(self.pc + 2).dispatch(self.word(), random).count_down()
    }

    /// Whether the next tick sets the delay timer.
    pub open spec fn sets_delay_timer(self) -> bool {
        decoded(self.word()) matches Some(Instruction::SetDelayTimer { .. })
    }

    /// Whether the next tick sets the sound timer.
    pub open spec fn sets_sound_timer(self) -> bool {
        decoded(self.word()) matches Some(Instruction::SetSoundTimer { .. })
    }

    /// The state after one tick for each byte of `randoms`, in their order,
    /// each tick with its byte as the random byte.
    pub open spec fn run(self, randoms: Seq<u8>) -> Machine
        decreases randoms.len(),
    {
        if randoms.len() == 0 {
            self
        } else {
            self.run(randoms.drop_last()).step(randoms.last())
        }
    }

    /// The state after a call to each address of `targets`, in their order.
    pub open spec fn call_all(self, targets: Seq<int>) -> Machine
        decreases targets.len(),
    {
        if targets.len() == 0 {
            self
        } else {
            self.call_all(targets.drop_last()).call(targets.last())
        }
    }

    /// The state after `count` returns.
    pub open spec fn return_times(self, count: nat) -> Machine
        decreases count,
    {
        if count == 0 {
            self
        } else {
            self.return_from_call().return_times((count - 1) as nat)
        }
    }

    /// Whether the next tick consumes a random byte.
    pub open spec fn draws_random(self) -> bool {
        decoded(self.word()) matches Some(Instruction::RandomAnd { .. })
    }
}

} // verus!
