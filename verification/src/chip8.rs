//! The interpreter engine.
//!
//! [`Chip8`] owns the whole state of one machine and advances it one
//! instruction per [`Chip8::tick`]. Its view is the [`Machine`] of the
//! model, and every operation is specified as the model's function of the
//! same name.

use vstd::prelude::*;
use rand::Rng;
use crate::font::{FONT, FONT_BYTES, GLYPH_HEIGHT};
use crate::instruction::{decode, decoded, lemma_decoded_wf, Instruction};
use crate::machine::{
    visible_rows, Machine, CHIP_HEIGHT, CHIP_WIDTH, FLAG, INDEX_MAX, NKEYS, PROGRAM_START,
    RAMBYTES, SPRITE_WIDTH,
};

verus! {

/// One machine: memory, display, keypad snapshot, registers, call stack and
/// timers.
pub struct Chip8 {
    ram: [u8; RAMBYTES],
    vram: [[bool; CHIP_WIDTH]; CHIP_HEIGHT],
    keyboard: [bool; NKEYS],
    pc: usize,
    i: u16,
    stack: Vec<usize>,
    delay_timer: u8,
    sound_timer: u8,
    v: [u8; NKEYS],
}

impl View for Chip8 {
    type V = Machine;

    closed spec fn view(&self) -> Machine {
        Machine {
            ram: self.ram@,
            vram: Seq::new(CHIP_HEIGHT as nat, |r: int| self.vram[r]@),
            keyboard: self.keyboard@,
            pc: self.pc as int,
            i: self.i as int,
            stack: self.stack@.map_values(|a: usize| a as int),
            delay_timer: self.delay_timer,
            sound_timer: self.sound_timer,
            v: self.v@,
        }
    }
}

impl Chip8 {
    /// The state of every engine has the machine's fixed shape.
    pub proof fn lemma_view_wf(&self)
        ensures
            self@.wf(),
    {
    }

    /// A machine that was just switched on.
    pub fn new() -> (chip8: Self)
        ensures
            chip8@ == Machine::initial(),
    {
        // load font
        let mut ram = [0u8; RAMBYTES];
        for k in 0..FONT_BYTES
            invariant
                forall|a: int| 0 <= a < k ==> ram[a] == FONT[a],
                forall|a: int| k <= a < RAMBYTES ==> ram[a] == 0u8,
        {
            ram[k] = FONT[k];
        }

        let chip8 = Chip8 {
            ram: ram,
            vram: [[false; CHIP_WIDTH]; CHIP_HEIGHT],
            keyboard: [false; NKEYS],
            pc: PROGRAM_START,
            i: 0,
            stack: Vec::new(),
            delay_timer: 0u8,
            sound_timer: 0u8,
            v: [0u8; NKEYS],
        };
        assert(chip8@ =~~= Machine::initial());
        chip8
    }

    /// Copies a program image into memory, from the start of the program
    /// area on. Bytes that would lie beyond the end of memory are dropped.
    /// Nothing but memory changes.
    pub fn load_rom(&mut self, bytes: &[u8])
        ensures
            final(self)@ == old(self)@.loaded(bytes@),
    {
        let room = RAMBYTES - PROGRAM_START;
        let count = if bytes.len() < room {
            bytes.len()
        } else {
            room
        };
        for k in 0..count
            invariant
                count <= bytes.len(),
                count <= RAMBYTES - PROGRAM_START,
                self@ == (Machine { ram: self.ram@, ..old(self)@ }),
                forall|a: int|
                    PROGRAM_START <= a < PROGRAM_START + k ==> self.ram[a] == bytes[a
                        - PROGRAM_START],
                forall|a: int|
                    0 <= a < RAMBYTES && !(PROGRAM_START <= a < PROGRAM_START + k)
                        ==> self.ram[a] == old(self).ram[a],
        {
            let addr = PROGRAM_START + k;
            self.ram[addr] = bytes[k];
        }
        assert(self@ =~= old(self)@.loaded(bytes@));
    }

    /// Replaces the snapshot of the keypad: `keyboard[k]` says whether key
    /// `k` is down.
    pub fn update_keyboard(&mut self, keyboard: [bool; NKEYS])
        ensures
            final(self)@ == (Machine { keyboard: keyboard@, ..old(self)@ }),
    {
        self.keyboard = keyboard;
    }

    /// The display: `vram[r][c]` says whether the pixel in row `r` and
    /// column `c` is on.
    pub fn get_vram(&self) -> (vram: [[bool; CHIP_WIDTH]; CHIP_HEIGHT])
        ensures
            forall|r: int| 0 <= r < CHIP_HEIGHT ==> (#[trigger] vram[r])@ == self@.vram[r],
    {
        return self.vram;
    }

    /// Whether the sound timer is running, which is when the machine asks
    /// for a tone.
    pub fn should_beep(&self) -> (beep: bool)
        ensures
            beep == (self@.sound_timer > 0),
    {
        return self.sound_timer > 0;
    }

    /// Carries out one tick: fetches the instruction at the program
    /// counter, carries it out, and lets the timers count down. The byte
    /// that a random-and instruction masks comes from the thread's random
    /// number generator, so the outcome is the step of the model for some
    /// byte; every other instruction has one outcome only.
    pub fn tick(&mut self)
        requires
            old(self)@.ready(),
        ensures
            exists|random: u8| final(self)@ == #[trigger] old(self)@.step(random),
            !old(self)@.draws_random() ==> forall|random: u8|
                final(self)@ == #[trigger] old(self)@.step(random),
    {
        let random = match decode(self.peek()) {
            Some(Instruction::RandomAnd { .. }) => random_byte(),
            _ => 0,
        };
        self.tick_with(random);
    }

    /// Carries out one tick like [`Chip8::tick`], with `random` in place of
    /// a byte from the random number generator.
    pub fn tick_with(&mut self, random: u8)
        requires
            old(self)@.ready(),
        ensures
            final(self)@ == old(self)@.step(random),
    {
        let opcode = self.fetch();
        self.process(opcode, random);

        if self.delay_timer > 0 {
            self.delay_timer -= 1;
        }
        if self.sound_timer > 0 {
            self.sound_timer -= 1;
        }
    }

    /// Whether the next tick stays within memory, the keypad and the font,
    /// which is what [`Chip8::tick`] asks of its caller.
    pub fn can_tick(&self) -> (ok: bool)
        ensures
            ok == self@.ready(),
    {
        if self.pc >= RAMBYTES - 1 {
            return false;
        }
        match decode(self.peek()) {
            Some(ins) => {
                proof {
                    lemma_decoded_wf(self@.word());
                }
                self.admits(ins)
            },
            None => true,
        }
    }

    /// Carries out one tick if the machine is ready for it, and says
    /// whether it did. A machine that is not ready is left as it is.
    pub fn try_tick(&mut self) -> (done: bool)
        ensures
            done == old(self)@.ready(),
            done ==> exists|random: u8| final(self)@ == #[trigger] old(self)@.step(random),
            done && !old(self)@.draws_random() ==> forall|random: u8|
                final(self)@ == #[trigger] old(self)@.step(random),
            !done ==> final(self)@ == old(self)@,
    {
        if self.can_tick() {
            self.tick();
            true
        } else {
            false
        }
    }

    /// Whether `ins` stays within memory, the keypad and the font.
    fn admits(&self, ins: Instruction) -> (ok: bool)
        requires
            ins.wf(),
        ensures
            ok == self@.admits(ins),
    {
        match ins {
            Instruction::DrawSprite { x, y, n } => {
                let y0 = (self.v[y] as usize) % CHIP_HEIGHT;
                let rows = if n <= CHIP_HEIGHT - y0 {
                    n
                } else {
                    CHIP_HEIGHT - y0
                };
                rows == 0 || self.i as usize + rows <= RAMBYTES
            },
            Instruction::SkipIfKeyDown { x } | Instruction::SkipIfKeyUp { x } => {
                (self.v[x] as usize) < NKEYS
            },
            Instruction::AddToIndex { x } => self.i as usize + self.v[x] as usize <= INDEX_MAX,
            Instruction::LoadGlyphAddress { x } => (self.v[x] as usize) < NKEYS,
            Instruction::StoreBcd { .. } => self.i as usize + 2 < RAMBYTES,
            Instruction::StoreRegisters { x } | Instruction::LoadRegisters { x } => {
                self.i as usize + x < RAMBYTES
            },
            _ => true,
        }
    }

    /// The instruction word at the program counter.
    fn peek(&self) -> (opcode: u16)
        requires
            self@.pc + 1 < RAMBYTES,
        ensures
            opcode == self@.word(),
    {
        let hi = self.ram[self.pc];
        let lo = self.ram[self.pc + 1];
        let byte1 = (hi as u16) << 8;
        let byte2 = lo as u16;
        assert(((hi as u16) << 8) | (lo as u16) == (hi as u16) * 256 + (lo as u16))
            by (bit_vector);
        return byte1 | byte2;
    }

    /// Reads the instruction word at the program counter and moves the
    /// program counter past it.
    fn fetch(&mut self) -> (opcode: u16)
        requires
            old(self)@.pc + 1 < RAMBYTES,
        ensures
            opcode == old(self)@.word(),
            final(self)@ == old(self)@.with_pc(old(self)@.pc + 2),
    {
        let opcode = self.peek();
        self.pc += 2;
        return opcode;
    }

    /// Carries out the instruction that `opcode` encodes; a word that
    /// encodes none is passed over.
    fn process(&mut self, opcode: u16, random: u8)
        requires
            2 <= old(self)@.pc <= RAMBYTES,
            decoded(opcode) matches Some(ins) ==> old(self)@.admits(ins),
        ensures
            final(self)@ == old(self)@.dispatch(opcode, random),
    {
        proof {
            lemma_decoded_wf(opcode);
        }
        match decode(opcode) {
            Some(Instruction::ClearDisplay) => self.op_00e0(),
            Some(Instruction::Return) => self.op_00ee(),
            Some(Instruction::Jump { nnn }) => self.op_1nnn(nnn),
            Some(Instruction::Call { nnn }) => self.op_2nnn(nnn),
            Some(Instruction::SkipIfEqual { x, nn }) => self.op_3xnn(x, nn),
            Some(Instruction::SkipIfNotEqual { x, nn }) => self.op_4xnn(x, nn),
            Some(Instruction::SkipIfRegistersEqual { x, y }) => self.op_5xy0(x, y),
            Some(Instruction::SetRegister { x, nn }) => self.op_6xnn(x, nn),
            Some(Instruction::AddImmediate { x, nn }) => self.op_7xnn(x, nn),
            Some(Instruction::CopyRegister { x, y }) => self.op_8xy0(x, y),
            Some(Instruction::OrRegisters { x, y }) => self.op_8xy1(x, y),
            Some(Instruction::AndRegisters { x, y }) => self.op_8xy2(x, y),
            Some(Instruction::XorRegisters { x, y }) => self.op_8xy3(x, y),
            Some(Instruction::AddRegisters { x, y }) => self.op_8xy4(x, y),
            Some(Instruction::SubRegisters { x, y }) => self.op_8xy5(x, y),
            Some(Instruction::ShiftRight { x }) => self.op_8xy6(x),
            Some(Instruction::SubReverse { x, y }) => self.op_8xy7(x, y),
            Some(Instruction::ShiftLeft { x }) => self.op_8xye(x),
            Some(Instruction::SkipIfRegistersNotEqual { x, y }) => self.op_9xy0(x, y),
            Some(Instruction::SetIndex { nnn }) => self.op_annn(nnn),
            Some(Instruction::JumpWithOffset { nnn }) => self.op_bnnn(nnn),
            Some(Instruction::RandomAnd { x, nn }) => self.op_cxnn(x, nn, random),
            Some(Instruction::DrawSprite { x, y, n }) => self.op_dxyn(x, y, n),
            Some(Instruction::SkipIfKeyDown { x }) => self.op_ex9e(x),
            Some(Instruction::SkipIfKeyUp { x }) => self.op_exa1(x),
            Some(Instruction::GetDelayTimer { x }) => self.op_fx07(x),
            Some(Instruction::WaitForKey { x }) => self.op_fx0a(x),
            Some(Instruction::SetDelayTimer { x }) => self.op_fx15(x),
            Some(Instruction::SetSoundTimer { x }) => self.op_fx18(x),
            Some(Instruction::AddToIndex { x }) => self.op_fx1e(x),
            Some(Instruction::LoadGlyphAddress { x }) => self.op_fx29(x),
            Some(Instruction::StoreBcd { x }) => self.op_fx33(x),
            Some(Instruction::StoreRegisters { x }) => self.op_fx55(x),
            Some(Instruction::LoadRegisters { x }) => self.op_fx65(x),
            None => (),
        }
    }

    /// Clear-display.
    fn op_00e0(&mut self)
        ensures
            final(self)@ == old(self)@.clear_display(),
    {
        for y in 0..CHIP_HEIGHT
            invariant
                self@ == (Machine { vram: self@.vram, ..old(self)@ }),
                forall|r: int, c: int| 0 <= r < y && 0 <= c < CHIP_WIDTH ==> !self.vram[r][c],
        {
            for x in 0..CHIP_WIDTH
                invariant
                    y < CHIP_HEIGHT,
                    self@ == (Machine { vram: self@.vram, ..old(self)@ }),
                    forall|r: int, c: int|
                        0 <= r < y && 0 <= c < CHIP_WIDTH ==> !self.vram[r][c],
                    forall|c: int| 0 <= c < x ==> !self.vram[y as int][c],
            {
                self.vram[y][x] = false;
            }
        }
        assert(self@ =~~= old(self)@.clear_display());
    }

    /// Return.
    fn op_00ee(&mut self)
        ensures
            final(self)@ == old(self)@.return_from_call(),
    {
        if let Some(sp) = self.stack.pop() {
            self.pc = sp;
        }
        assert(self@ =~= old(self)@.return_from_call());
    }

    /// Jump.
    fn op_1nnn(&mut self, nnn: usize)
        ensures
            final(self)@ == old(self)@.with_pc(nnn as int),
    {
        self.pc = nnn;
    }

    /// Call.
    fn op_2nnn(&mut self, nnn: usize)
        ensures
            final(self)@ == old(self)@.call(nnn as int),
    {
        self.stack.push(self.pc);
        self.pc = nnn;
        assert(self@ =~= old(self)@.call(nnn as int));
    }

    /// Skip-if-equal.
    fn op_3xnn(&mut self, x: usize, nn: u8)
        requires
            x < NKEYS,
            old(self)@.pc <= RAMBYTES,
        ensures
            final(self)@ == old(self)@.skip_if(old(self)@.v[x as int] == nn),
    {
        if self.v[x] == nn {
            self.pc += 2;
        }
    }

    /// Skip-if-not-equal.
    fn op_4xnn(&mut self, x: usize, nn: u8)
        requires
            x < NKEYS,
            old(self)@.pc <= RAMBYTES,
        ensures
            final(self)@ == old(self)@.skip_if(old(self)@.v[x as int] != nn),
    {
        if self.v[x] != nn {
            self.pc += 2;
        }
    }

    /// Skip-if-registers-equal.
    fn op_5xy0(&mut self, x: usize, y: usize)
        requires
            x < NKEYS,
            y < NKEYS,
            old(self)@.pc <= RAMBYTES,
        ensures
            final(self)@ == old(self)@.skip_if(old(self)@.v[x as int] == old(self)@.v[y as int]),
    {
        if self.v[x] == self.v[y] {
            self.pc += 2;
        }
    }

    /// Set.
    fn op_6xnn(&mut self, x: usize, nn: u8)
        requires
            x < NKEYS,
        ensures
            final(self)@ == old(self)@.with_register(x as int, nn),
    {
        self.v[x] = nn;
    }

    /// Add-immediate.
    fn op_7xnn(&mut self, x: usize, nn: u8)
        requires
            x < NKEYS,
        ensures
            final(self)@ == old(self)@.add_immediate(x as int, nn),
    {
        let sum: u16 = (self.v[x] as u16) + (nn as u16);
        let result = #[verifier::truncate] (sum as u8);
        assert(sum as u8 == sum % 256) by (bit_vector);
        self.v[x] = result;
    }

    /// Copy.
    fn op_8xy0(&mut self, x: usize, y: usize)
        requires
            x < NKEYS,
            y < NKEYS,
        ensures
            final(self)@ == old(self)@.with_register(x as int, old(self)@.v[y as int]),
    {
        self.v[x] = self.v[y];
    }

    /// Or.
    fn op_8xy1(&mut self, x: usize, y: usize)
        requires
            x < NKEYS,
            y < NKEYS,
        ensures
            final(self)@ == old(self)@.with_register(
                x as int,
                old(self)@.v[x as int] | old(self)@.v[y as int],
            ),
    {
        self.v[x] = self.v[x] | self.v[y];
    }

    /// And.
    fn op_8xy2(&mut self, x: usize, y: usize)
        requires
            x < NKEYS,
            y < NKEYS,
        ensures
            final(self)@ == old(self)@.with_register(
                x as int,
                old(self)@.v[x as int] & old(self)@.v[y as int],
            ),
    {
        self.v[x] = self.v[x] & self.v[y];
    }

    /// Xor.
    fn op_8xy3(&mut self, x: usize, y: usize)
        requires
            x < NKEYS,
            y < NKEYS,
        ensures
            final(self)@ == old(self)@.with_register(
                x as int,
                old(self)@.v[x as int] ^ old(self)@.v[y as int],
            ),
    {
        self.v[x] = self.v[x] ^ self.v[y];
    }

    /// Add.
    fn op_8xy4(&mut self, x: usize, y: usize)
        requires
            x < NKEYS,
            y < NKEYS,
        ensures
            final(self)@ == old(self)@.add_registers(x as int, y as int),
    {
        let result: u16 = (self.v[x] as u16) + (self.v[y] as u16);
        assert(result as u8 == result % 256) by (bit_vector);
        self.v[x] = #[verifier::truncate] (result as u8);
        self.v[FLAG] = if result > 0xFF {
            1
        } else {
            0
        };
    }

    /// Sub.
    fn op_8xy5(&mut self, x: usize, y: usize)
        requires
            x < NKEYS,
            y < NKEYS,
        ensures
            final(self)@ == old(self)@.sub_registers(x as int, y as int),
    {
        self.v[FLAG] = if self.v[x] > self.v[y] {
            1
        } else {
            0
        };
        self.v[x] = self.v[x].wrapping_sub(self.v[y]);
    }

    /// Shift-right.
    fn op_8xy6(&mut self, x: usize)
        requires
            x < NKEYS,
        ensures
            final(self)@ == old(self)@.shift_right(x as int),
    {
        let low = self.v[x];
        assert(low & 1 == low % 2) by (bit_vector);
        self.v[FLAG] = self.v[x] & 1;
        let value = self.v[x];
        assert(value >> 1 == value / 2) by (bit_vector);
        self.v[x] = self.v[x] >> 1;
    }

    /// Sub-reverse.
    fn op_8xy7(&mut self, x: usize, y: usize)
        requires
            x < NKEYS,
            y < NKEYS,
        ensures
            final(self)@ == old(self)@.sub_reverse(x as int, y as int),
    {
        self.v[FLAG] = if self.v[y] > self.v[x] {
            1
        } else {
            0
        };
        self.v[x] = self.v[y].wrapping_sub(self.v[x]);
    }

    /// Shift-left.
    fn op_8xye(&mut self, x: usize)
        requires
            x < NKEYS,
        ensures
            final(self)@ == old(self)@.shift_left(x as int),
    {
        let high = self.v[x];
        assert((high >> 7) & 1 == high / 128) by (bit_vector);
        self.v[FLAG] = (self.v[x] >> 7) & 1;
        let value = self.v[x];
        assert(value << 1 == (value * 2) % 256) by (bit_vector);
        self.v[x] = self.v[x] << 1;
    }

    /// Skip-if-registers-not-equal.
    fn op_9xy0(&mut self, x: usize, y: usize)
        requires
            x < NKEYS,
            y < NKEYS,
            old(self)@.pc <= RAMBYTES,
        ensures
            final(self)@ == old(self)@.skip_if(old(self)@.v[x as int] != old(self)@.v[y as int]),
    {
        if self.v[x] != self.v[y] {
            self.pc += 2;
        }
    }

    /// Set-index.
    fn op_annn(&mut self, nnn: usize)
        requires
            nnn < 0x1000,
        ensures
            final(self)@ == (Machine { i: nnn as int, ..old(self)@ }),
    {
        self.i = nnn as u16;
    }

    /// Jump-with-offset.
    fn op_bnnn(&mut self, nnn: usize)
        requires
            nnn < 0x1000,
        ensures
            final(self)@ == old(self)@.with_pc(nnn + old(self)@.v[0]),
    {
        self.pc = (self.v[0] as usize) + nnn;
    }

    /// Random-and, with `random` as the random byte.
    fn op_cxnn(&mut self, x: usize, nn: u8, random: u8)
        requires
            x < NKEYS,
        ensures
            final(self)@ == old(self)@.with_register(x as int, random & nn),
    {
        self.v[x] = random & nn;
    }

    /// While a sprite is drawn onto the state `before`, only the display
    /// and the flag differ from `before`.
    spec fn drawing_frame(&self, before: Machine) -> bool {
        &&& self@ == (Machine { vram: self@.vram, v: self@.v, ..before })
        &&& self.v@ == before.v.update(FLAG as int, self.v[FLAG as int])
    }

    /// While a sprite is drawn onto the state `before`, the flag says
    /// whether one of the pixels that come before row `row_limit` and
    /// column `col_limit` was switched off.
    spec fn drawing_flag(
        &self,
        before: Machine,
        col: int,
        row: int,
        n: int,
        row_limit: int,
        col_limit: int,
    ) -> bool {
        self.v[FLAG as int] == (if erased_before(before, col, row, n, row_limit, col_limit) {
            1u8
        } else {
            0u8
        })
    }

    /// While a sprite is drawn onto the state `before`, the pixels that
    /// come before row `row_limit` and column `col_limit` are drawn and the
    /// others are as in `before`.
    spec fn drawing_pixels(
        &self,
        before: Machine,
        col: int,
        row: int,
        n: int,
        row_limit: int,
        col_limit: int,
    ) -> bool {
        forall|r: int, c: int|
            0 <= r < CHIP_HEIGHT && 0 <= c < CHIP_WIDTH ==> #[trigger] self.vram[r][c] == (
            if comes_before(r, c, row_limit, col_limit) {
                before.vram[r][c] ^ before.sprite_covers(col, row, n, r, c)
            } else {
                before.vram[r][c]
            })
    }

    /// Draw-sprite.
    fn op_dxyn(&mut self, x: usize, y: usize, n: usize)
        requires
            x < NKEYS,
            y < NKEYS,
            n < 16,
            old(self)@.admits(Instruction::DrawSprite { x, y, n }),
        ensures
            final(self)@ == old(self)@.draw_sprite(x as int, y as int, n as int),
    {
        let x0 = (self.v[x] as usize) % CHIP_WIDTH;
        let y0 = (self.v[y] as usize) % CHIP_HEIGHT;
        let ghost before = self@;

        self.v[FLAG] = 0;

        let rows = if n <= CHIP_HEIGHT - y0 {
            n
        } else {
            CHIP_HEIGHT - y0
        };
        let cols = if SPRITE_WIDTH <= CHIP_WIDTH - x0 {
            SPRITE_WIDTH
        } else {
            CHIP_WIDTH - x0
        };
        proof {
            lemma_nothing_erased_above(before, x0 as int, y0 as int, n as int);
        }
        for offset in 0..rows
            invariant
                x0 < CHIP_WIDTH,
                y0 < CHIP_HEIGHT,
                rows == visible_rows(y0 as int, n as int),
                cols == (if SPRITE_WIDTH <= CHIP_WIDTH - x0 {
                    SPRITE_WIDTH
                } else {
                    (CHIP_WIDTH - x0) as usize
                }),
                rows > 0 ==> before.i + rows <= RAMBYTES,
                before.wf(),
                self.drawing_frame(before),
                self.drawing_flag(before, x0 as int, y0 as int, n as int, y0 + offset, 0),
                self.drawing_pixels(before, x0 as int, y0 as int, n as int, y0 + offset, 0),
        {
            let y = y0 + offset;

            let sprite = self.ram[self.i as usize + offset];

            proof {
                lemma_nothing_erased_left(before, x0 as int, y0 as int, n as int, y as int, x0 as int);
            }
            for bit in 0..cols
                invariant
                    x0 < CHIP_WIDTH,
                    y0 < CHIP_HEIGHT,
                    offset < rows,
                    rows == visible_rows(y0 as int, n as int),
                    y == y0 + offset,
                    x0 + cols <= CHIP_WIDTH,
                    cols <= SPRITE_WIDTH,
                    before.i + rows <= RAMBYTES,
                    sprite == before.ram[before.i + offset],
                    before.wf(),
                    self.drawing_frame(before),
                    self.drawing_flag(before, x0 as int, y0 as int, n as int, y as int, x0 + bit),
                    self.drawing_pixels(before, x0 as int, y0 as int, n as int, y as int, x0 + bit),
            {
                let x = x0 + bit;
                let on: bool = ((sprite >> (7 - bit)) & 1) == 1;
                proof {
                    lemma_erased_next(before, x0 as int, y0 as int, n as int, y as int, x as int);
                }
                if self.vram[y][x] && on {
                    self.v[FLAG] = 1;
                }
                self.vram[y][x] = self.vram[y][x] ^ on;
                assert(self.v@ =~= before.v.update(FLAG as int, self.v[FLAG as int]));
            }
            proof {
                lemma_nothing_erased_right(
                    before,
                    x0 as int,
                    y0 as int,
                    n as int,
                    y as int,
                    x0 + cols,
                );
            }
        }
        proof {
            lemma_erased_below(before, x0 as int, y0 as int, n as int, y0 + rows);
        }
        assert(self@ =~~= before.draw_sprite(x as int, y as int, n as int));
    }

    /// Skip-if-key-down.
    fn op_ex9e(&mut self, x: usize)
        requires
            x < NKEYS,
            old(self)@.v[x as int] < NKEYS,
            old(self)@.pc <= RAMBYTES,
        ensures
            final(self)@ == old(self)@.skip_if(old(self)@.keyboard[old(self)@.v[x as int] as int]),
    {
        if self.keyboard[self.v[x] as usize] {
            self.pc += 2;
        }
    }

    /// Skip-if-key-up.
    fn op_exa1(&mut self, x: usize)
        requires
            x < NKEYS,
            old(self)@.v[x as int] < NKEYS,
            old(self)@.pc <= RAMBYTES,
        ensures
            final(self)@ == old(self)@.skip_if(
                !old(self)@.keyboard[old(self)@.v[x as int] as int],
            ),
    {
        if !self.keyboard[self.v[x] as usize] {
            self.pc += 2;
        }
    }

    /// Get-delay-timer.
    fn op_fx07(&mut self, x: usize)
        requires
            x < NKEYS,
        ensures
            final(self)@ == old(self)@.with_register(x as int, old(self)@.delay_timer),
    {
        self.v[x] = self.delay_timer;
    }

    /// Set-delay-timer.
    fn op_fx15(&mut self, x: usize)
        requires
            x < NKEYS,
        ensures
            final(self)@ == (Machine { delay_timer: old(self)@.v[x as int], ..old(self)@ }),
    {
        self.delay_timer = self.v[x];
    }

    /// Set-sound-timer.
    fn op_fx18(&mut self, x: usize)
        requires
            x < NKEYS,
        ensures
            final(self)@ == (Machine { sound_timer: old(self)@.v[x as int], ..old(self)@ }),
    {
        self.sound_timer = self.v[x];
    }

    /// Add-to-index.
    fn op_fx1e(&mut self, x: usize)
        requires
            x < NKEYS,
            old(self)@.i + old(self)@.v[x as int] <= INDEX_MAX,
        ensures
            final(self)@ == (Machine { i: old(self)@.i + old(self)@.v[x as int], ..old(self)@ }),
    {
        self.i += self.v[x] as u16;
    }

    /// The smallest number of a key that is down, if any is.
    fn first_key_down(&self) -> (key: Option<usize>)
        ensures
            key is Some == self@.any_key_down(),
            key matches Some(k) ==> self@.is_lowest_key_down(k as int),
    {
        let mut k: usize = 0;
        while k < NKEYS && !self.keyboard[k]
            invariant
                k <= NKEYS,
                forall|j: int| 0 <= j < k ==> !self.keyboard[j],
            decreases NKEYS - k,
        {
            k += 1;
        }
        if k < NKEYS {
            assert(self@.keyboard[k as int]);
            Some(k)
        } else {
            assert forall|j: int| 0 <= j < NKEYS implies !self@.keyboard[j] by {
                assert(!self.keyboard[j]);
            }
            None
        }
    }

    /// Wait-for-key.
    fn op_fx0a(&mut self, x: usize)
        requires
            x < NKEYS,
            2 <= old(self)@.pc,
        ensures
            final(self)@ == old(self)@.wait_for_key(x as int),
    {
        if let Some(key_idx) = self.first_key_down() {
            self.v[x] = key_idx as u8;
        } else {
            self.pc -= 2;
        }
    }

    /// Load-glyph-address.
    fn op_fx29(&mut self, x: usize)
        requires
            x < NKEYS,
            old(self)@.v[x as int] < NKEYS,
        ensures
            final(self)@ == (Machine { i: GLYPH_HEIGHT * old(self)@.v[x as int], ..old(self)@ }),
    {
        let font_addr = GLYPH_HEIGHT * (self.v[x] as usize);
        self.i = font_addr as u16;
    }

    /// Store-bcd.
    fn op_fx33(&mut self, x: usize)
        requires
            x < NKEYS,
            old(self)@.i + 2 < RAMBYTES,
        ensures
            final(self)@ == old(self)@.store_bcd(x as int),
    {
        let mut num = self.v[x];
        let i = self.i as usize;

        self.ram[i] = num / 100;
        num %= 100;

        self.ram[i + 1] = num / 10;
        num %= 10;

        self.ram[i + 2] = num;
        assert(self@ =~= old(self)@.store_bcd(x as int));
    }

    /// Store-registers.
    fn op_fx55(&mut self, x: usize)
        requires
            x < NKEYS,
            old(self)@.i + x < RAMBYTES,
        ensures
            final(self)@ == old(self)@.store_registers(x as int),
    {
        let i = self.i as usize;
        for reg_idx in 0..x + 1
            invariant
                x < NKEYS,
                i == old(self).i,
                i + x < RAMBYTES,
                self@ == (Machine { ram: self.ram@, ..old(self)@ }),
                forall|a: int| i <= a < i + reg_idx ==> self.ram[a] == old(self).v[a - i],
                forall|a: int|
                    0 <= a < RAMBYTES && !(i <= a < i + reg_idx) ==> self.ram[a] == old(
                        self,
                    ).ram[a],
        {
            self.ram[i + reg_idx] = self.v[reg_idx];
        }
        assert(self@ =~= old(self)@.store_registers(x as int));
    }

    /// Load-registers.
    fn op_fx65(&mut self, x: usize)
        requires
            x < NKEYS,
            old(self)@.i + x < RAMBYTES,
        ensures
            final(self)@ == old(self)@.load_registers(x as int),
    {
        let i = self.i as usize;
        for reg_idx in 0..x + 1
            invariant
                x < NKEYS,
                i == old(self).i,
                i + x < RAMBYTES,
                self@ == (Machine { v: self.v@, ..old(self)@ }),
                forall|k: int| 0 <= k < reg_idx ==> self.v[k] == old(self).ram[i + k],
                forall|k: int| reg_idx <= k < NKEYS ==> self.v[k] == old(self).v[k],
        {
            self.v[reg_idx] = self.ram[i + reg_idx];
        }
        assert(self@ =~= old(self)@.load_registers(x as int));
    }

    /// The program counter.
    pub fn pc(&self) -> (pc: usize)
        ensures
            pc == self@.pc,
    {
        self.pc
    }

    /// The index register.
    pub fn index(&self) -> (i: u16)
        ensures
            i == self@.i,
    {
        self.i
    }

    /// The general-purpose registers.
    pub fn registers(&self) -> (v: [u8; NKEYS])
        ensures
            v@ == self@.v,
    {
        self.v
    }

    /// The whole memory.
    pub fn memory(&self) -> (ram: [u8; RAMBYTES])
        ensures
            ram@ == self@.ram,
    {
        self.ram
    }

    /// The return addresses of the calls in progress, innermost last.
    pub fn stack(&self) -> (stack: Vec<usize>)
        ensures
            stack@.map_values(|a: usize| a as int) == self@.stack,
    {
        self.stack.clone()
    }

    /// The delay timer.
    pub fn delay_timer(&self) -> (timer: u8)
        ensures
            timer == self@.delay_timer,
    {
        self.delay_timer
    }

    /// The sound timer.
    pub fn sound_timer(&self) -> (timer: u8)
        ensures
            timer == self@.sound_timer,
    {
        self.sound_timer
    }
}

/// Whether the pixel at row `r` and column `c` comes before the pixel at row
/// `row_limit` and column `col_limit` when the display is read row by row.
spec fn comes_before(r: int, c: int, row_limit: int, col_limit: int) -> bool {
    r < row_limit || (r == row_limit && c < col_limit)
}

/// Whether drawing the sprite onto `m` switches off one of the pixels that
/// come before row `row_limit` and column `col_limit`.
spec fn erased_before(m: Machine, col: int, row: int, n: int, row_limit: int, col_limit: int) -> bool {
    exists|r: int, c: int|
        comes_before(r, c, row_limit, col_limit) && #[trigger] m.sprite_erases(col, row, n, r, c)
}

/// A sprite switches off no pixel above its top row.
proof fn lemma_nothing_erased_above(m: Machine, col: int, row: int, n: int)
    ensures
        !erased_before(m, col, row, n, row, 0),
{
}

/// A sprite switches off no pixel to the left of its first column: in row
/// `r`, as much is switched off before column `col` as before column 0.
proof fn lemma_nothing_erased_left(m: Machine, col: int, row: int, n: int, r: int, limit: int)
    requires
        limit <= col,
    ensures
        erased_before(m, col, row, n, r, limit) == erased_before(m, col, row, n, r, 0),
{
}

/// One pixel further, a pixel was switched off if one was before or this
/// one is.
proof fn lemma_erased_next(m: Machine, col: int, row: int, n: int, r: int, c: int)
    ensures
        erased_before(m, col, row, n, r, c + 1) == (erased_before(m, col, row, n, r, c)
            || m.sprite_erases(col, row, n, r, c)),
{
}

/// A sprite switches off no pixel to the right of its last column or of
/// the display: once column `limit` is reached in row `r`, as much is
/// switched off as before the next row.
proof fn lemma_nothing_erased_right(m: Machine, col: int, row: int, n: int, r: int, limit: int)
    requires
        limit >= col + SPRITE_WIDTH || limit >= CHIP_WIDTH,
    ensures
        erased_before(m, col, row, n, r, limit) == erased_before(m, col, row, n, r + 1, 0),
{
}

/// A sprite switches off no pixel below its last row or the display: what
/// is switched off before row `limit` is all that is switched off.
proof fn lemma_erased_below(m: Machine, col: int, row: int, n: int, limit: int)
    requires
        limit >= row + n || limit >= CHIP_HEIGHT,
    ensures
        erased_before(m, col, row, n, limit, 0) == m.sprite_collides(col, row, n),
{
}

/// Draws one byte from `rand`'s thread-local generator, `rand::thread_rng`,
/// with `rand::Rng::gen`. Nothing is claimed of the byte: the generator is
/// seeded by the operating system, so every value can come out.
#[verifier::external_body]
fn random_byte() -> (byte: u8) {
    let mut rng = rand::thread_rng();
    rng.gen::<u8>()
}

} // verus!
