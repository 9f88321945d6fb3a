//! Laws of the machine.
//!
//! Each law is a theorem about the model of [`crate::machine`], and through
//! the contracts of [`crate::chip8::Chip8`] about every engine.

use vstd::prelude::*;
use crate::instruction::{decoded, lemma_decoded_wf, Instruction};
use crate::keyboard::{millis_between, KeyboardState, KEY_TIME_MS};
use crate::machine::{
    blank_display, counted_down, Machine, CHIP_HEIGHT, CHIP_WIDTH, FLAG, PROGRAM_START,
};

verus! {

/// A tick moves the program counter past the instruction it carried out,
/// which is two bytes on, except where the instruction says otherwise: a
/// jump or a call continues at its address, a jump with offset at its
/// address plus register 0, a return at the innermost return address (two
/// bytes on if there is none), a skip whose condition holds four bytes on,
/// and a wait for a key with no key down where it was.
pub proof fn law_program_counter(m: Machine, random: u8)
    ensures
        m.step(random).pc == (match decoded(m.word()) {
            Some(Instruction::Jump { nnn }) => nnn as int,
            Some(Instruction::Call { nnn }) => nnn as int,
            Some(Instruction::JumpWithOffset { nnn }) => nnn + m.v[0],
            Some(Instruction::Return) => if m.stack.len() > 0 {
                m.stack.last()
            } else {
                m.pc + 2
            },
            Some(Instruction::SkipIfEqual { x, nn }) => if m.v[x as int] == nn {
                m.pc + 4
            } else {
                m.pc + 2
            },
            Some(Instruction::SkipIfNotEqual { x, nn }) => if m.v[x as int] != nn {
                m.pc + 4
            } else {
                m.pc + 2
            },
            Some(Instruction::SkipIfRegistersEqual { x, y }) => if m.v[x as int] == m.v[y as int] {
                m.pc + 4
            } else {
                m.pc + 2
            },
            Some(Instruction::SkipIfRegistersNotEqual { x, y }) => if m.v[x as int] != m.v[y as int] {
                m.pc + 4
            } else {
                m.pc + 2
            },
            Some(Instruction::SkipIfKeyDown { x }) => if m.keyboard[m.v[x as int] as int] {
                m.pc + 4
            } else {
                m.pc + 2
            },
            Some(Instruction::SkipIfKeyUp { x }) => if !m.keyboard[m.v[x as int] as int] {
                m.pc + 4
            } else {
                m.pc + 2
            },
            Some(Instruction::WaitForKey { x }) => if m.any_key_down() {
                m.pc + 2
            } else {
                m.pc
            },
            _ => m.pc + 2,
        }),
{
}

/// A tick of a well-formed machine that is ready for it leaves the machine
/// well-formed.
pub proof fn law_step_preserves_wf(m: Machine, random: u8)
    requires
        m.wf(),
        m.ready(),
    ensures
        m.step(random).wf(),
{
    lemma_decoded_wf(m.word());
}

/// The random byte matters to a random-and instruction only: every other
/// tick has the same outcome whatever the byte.
pub proof fn law_random_byte_only_for_random_and(m: Machine, random1: u8, random2: u8)
    requires
        !m.draws_random(),
    ensures
        m.step(random1) == m.step(random2),
{
}

/// Memory is written by the two store instructions only: a tick that
/// carries out neither leaves every byte, and so the font, as it is.
pub proof fn law_only_stores_write_memory(m: Machine, random: u8)
    requires
        !(decoded(m.word()) matches Some(Instruction::StoreBcd { .. })),
        !(decoded(m.word()) matches Some(Instruction::StoreRegisters { .. })),
    ensures
        m.step(random).ram == m.ram,
{
}

/// The display is changed by clear-display and draw-sprite only.
pub proof fn law_only_clear_and_draw_change_display(m: Machine, random: u8)
    requires
        decoded(m.word()) != Some(Instruction::ClearDisplay),
        !(decoded(m.word()) matches Some(Instruction::DrawSprite { .. })),
    ensures
        m.step(random).vram == m.vram,
{
}

/// A program image of any length is loaded above the font and within
/// memory: memory keeps its size, and what lies below the program area
/// stays as it is.
pub proof fn law_load_keeps_font(m: Machine, bytes: Seq<u8>)
    ensures
        m.loaded(bytes).ram.len() == m.ram.len(),
        forall|a: int| 0 <= a < PROGRAM_START && a < m.ram.len() ==> m.loaded(bytes).ram[a] == m.ram[a],
{
}

/// After a clear-display instruction the display has its fixed shape and
/// every pixel of it is off.
pub proof fn law_clear_display(m: Machine, random: u8)
    requires
        decoded(m.word()) == Some(Instruction::ClearDisplay),
    ensures
        m.step(random).vram == blank_display(),
        m.step(random).vram.len() == CHIP_HEIGHT,
        forall|r: int| 0 <= r < CHIP_HEIGHT ==> (#[trigger] m.step(random).vram[r]).len() == CHIP_WIDTH,
        forall|r: int, c: int|
            0 <= r < CHIP_HEIGHT && 0 <= c < CHIP_WIDTH ==> !m.step(random).vram[r][c],
{
}

/// Drawing a sprite a second time at the same position undoes the first
/// drawing: the display is as it was. The second drawing sets the flag
/// exactly if the first switched a pixel on, for that pixel is what the
/// second switches off.
pub proof fn law_draw_twice(m: Machine, x: int, y: int, n: int)
    requires
        m.wf(),
        m.draw_sprite(x, y, n).sprite_origin(x, y) == m.sprite_origin(x, y),
    ensures
        m.draw_sprite(x, y, n).draw_sprite(x, y, n).vram == m.vram,
        m.draw_sprite(x, y, n).draw_sprite(x, y, n).v[FLAG as int] == (if exists|r: int, c: int|
            #[trigger] m.sprite_lights(m.sprite_origin(x, y).0, m.sprite_origin(x, y).1, n, r, c) {
            1u8
        } else {
            0u8
        }),
{
    let (col, row) = m.sprite_origin(x, y);
    let once = m.draw_sprite(x, y, n);
    let twice = once.draw_sprite(x, y, n);
    assert forall|r: int, c: int| 0 <= r < CHIP_HEIGHT && 0 <= c < CHIP_WIDTH implies once.vram[r][c]
        == (m.vram[r][c] ^ m.sprite_covers(col, row, n, r, c)) && twice.vram[r][c] == m.vram[r][c] by {
        assert(once.sprite_covers(col, row, n, r, c) == m.sprite_covers(col, row, n, r, c));
    }
    assert(twice.vram =~~= m.vram);
    if exists|r: int, c: int| #[trigger] m.sprite_lights(col, row, n, r, c) {
        let (r, c) = choose|r: int, c: int| #[trigger] m.sprite_lights(col, row, n, r, c);
        assert(once.sprite_erases(col, row, n, r, c));
    }
    if once.sprite_collides(col, row, n) {
        let (r, c) = choose|r: int, c: int| #[trigger] once.sprite_erases(col, row, n, r, c);
        assert(m.sprite_lights(col, row, n, r, c));
    }
}

/// A call followed by a return leaves the machine as it was: the program
/// counter is back where it was before the call, and so is the call stack.
pub proof fn law_call_return(m: Machine, nnn: int)
    ensures
        m.call(nnn).return_from_call() == m,
{
    assert(m.call(nnn).return_from_call().stack =~= m.stack);
}

/// However many calls are nested, as many returns leave the machine as it
/// was before the first call.
pub proof fn law_nested_calls_return(m: Machine, targets: Seq<int>)
    ensures
        m.call_all(targets).return_times(targets.len()) == m,
    decreases targets.len(),
{
    if targets.len() > 0 {
        let inner = m.call_all(targets.drop_last());
        law_call_return(inner, targets.last());
        law_nested_calls_return(m, targets.drop_last());
    }
}

/// A tick that carries out a call, followed by a tick that carries out a
/// return, continues behind the call, with the call stack as it was.
pub proof fn law_call_return_ticks(m: Machine, nnn: usize, random1: u8, random2: u8)
    requires
        decoded(m.word()) == Some(Instruction::Call { nnn }),
        decoded(m.step(random1).word()) == Some(Instruction::Return),
    ensures
        m.step(random1).step(random2).pc == m.pc + 2,
        m.step(random1).step(random2).stack == m.stack,
{
    law_call_return(m.with_pc(m.pc + 2), nnn as int);
    assert(m.step(random1).step(random2).stack =~= m.stack);
}

/// While no key is down, a wait for a key holds the machine in place: after
/// one tick, and after the next, the program counter is where it was, and
/// nothing but the timers has changed.
pub proof fn law_wait_for_key_stalls(m: Machine, x: usize, random1: u8, random2: u8)
    requires
        decoded(m.word()) == Some(Instruction::WaitForKey { x }),
        !m.any_key_down(),
    ensures
        m.step(random1).pc == m.pc,
        m.step(random1) == m.count_down(),
        m.step(random1).step(random2).pc == m.pc,
        m.step(random1).step(random2) == m.count_down().count_down(),
{
    let once = m.step(random1);
    assert(once == m.count_down());
    assert(once.word() == m.word());
    assert(once.any_key_down() == m.any_key_down());
}

/// With a key down, a wait for a key puts the smallest number of such a key
/// into its register, and the program counter moves on to the next
/// instruction.
pub proof fn law_wait_for_key_resumes(m: Machine, x: usize, k: int, random: u8)
    requires
        m.wf(),
        decoded(m.word()) == Some(Instruction::WaitForKey { x }),
        m.is_lowest_key_down(k),
    ensures
        m.step(random).v[x as int] == k,
        m.step(random).pc == m.pc + 2,
{
    lemma_decoded_wf(m.word());
    assert(Instruction::WaitForKey { x }.wf());
    assert(m.any_key_down());
    let chosen = m.lowest_key_down();
    assert(m.is_lowest_key_down(chosen));
    assert(chosen == k) by {
        if chosen < k {
            assert(!m.keyboard[chosen]);
        }
        if k < chosen {
            assert(!m.keyboard[k]);
        }
    }
}

/// A tick that does not set the delay timer lets it count down by one, and
/// leaves it at zero once it is there.
pub proof fn law_delay_timer_counts_down(m: Machine, random: u8)
    requires
        !m.sets_delay_timer(),
    ensures
        m.step(random).delay_timer == counted_down(m.delay_timer),
{
}

/// A tick that does not set the sound timer lets it count down by one, and
/// leaves it at zero once it is there.
pub proof fn law_sound_timer_counts_down(m: Machine, random: u8)
    requires
        !m.sets_sound_timer(),
    ensures
        m.step(random).sound_timer == counted_down(m.sound_timer),
{
}

/// Over any number of ticks of which none sets the delay timer, the timer
/// loses one per tick until it is zero, and then stays zero.
pub proof fn law_delay_timer_runs_down(m: Machine, randoms: Seq<u8>)
    requires
        forall|k: int| 0 <= k < randoms.len() ==> !(#[trigger] m.run(randoms.take(k))).sets_delay_timer(),
    ensures
        m.run(randoms).delay_timer == (if m.delay_timer >= randoms.len() {
            m.delay_timer - randoms.len()
        } else {
            0
        }),
    decreases randoms.len(),
{
    if randoms.len() > 0 {
        let earlier = randoms.drop_last();
        assert(earlier =~= randoms.take(randoms.len() - 1));
        assert forall|k: int| 0 <= k < earlier.len() implies !(#[trigger] m.run(
            earlier.take(k),
        )).sets_delay_timer() by {
            assert(earlier.take(k) =~= randoms.take(k));
        }
        law_delay_timer_runs_down(m, earlier);
        law_delay_timer_counts_down(m.run(earlier), randoms.last());
    }
}

/// Over any number of ticks of which none sets the sound timer, the timer
/// loses one per tick until it is zero, and then stays zero.
pub proof fn law_sound_timer_runs_down(m: Machine, randoms: Seq<u8>)
    requires
        forall|k: int| 0 <= k < randoms.len() ==> !(#[trigger] m.run(randoms.take(k))).sets_sound_timer(),
    ensures
        m.run(randoms).sound_timer == (if m.sound_timer >= randoms.len() {
            m.sound_timer - randoms.len()
        } else {
            0
        }),
    decreases randoms.len(),
{
    if randoms.len() > 0 {
        let earlier = randoms.drop_last();
        assert(earlier =~= randoms.take(randoms.len() - 1));
        assert forall|k: int| 0 <= k < earlier.len() implies !(#[trigger] m.run(
            earlier.take(k),
        )).sets_sound_timer() by {
            assert(earlier.take(k) =~= randoms.take(k));
        }
        law_sound_timer_runs_down(m, earlier);
        law_sound_timer_counts_down(m.run(earlier), randoms.last());
    }
}

/// A key is sticky: once its symbol has arrived, it is down for as long as
/// no more than [`KEY_TIME_MS`] whole milliseconds have passed, and up after
/// that.
pub proof fn law_key_is_sticky(keyboard: KeyboardState, k: int, at: u128, now: u128)
    requires
        keyboard.wf(),
        0 <= k < keyboard.keys.len(),
    ensures
        keyboard.pressed(k, at).released(now).keys[k] == (millis_between(at, now) <= KEY_TIME_MS),
{
}

/// Releasing stale keys presses none: a key that is up stays up.
pub proof fn law_release_presses_no_key(keyboard: KeyboardState, k: int, now: u128)
    requires
        0 <= k < keyboard.keys.len(),
        !keyboard.keys[k],
    ensures
        !keyboard.released(now).keys[k],
{
}

} // verus!
