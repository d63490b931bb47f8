//! The driver for a 16x2 display: every operation queues the bus actions
//! that carry it out, in order, with the settle delays the controller needs.
use vstd::prelude::*;

use std::collections::VecDeque;

use crate::bus::{
    advance, byte_ops, char_ops, command_ops, delay_ops, nibble_ops, push_level,
    push_nibble_setup, split_byte, Action, Event, Line, Step,
};
use crate::error::Error;

verus! {

/// Settle time after the power-up of the controller, in microseconds.
pub const POWER_UP_US: u64 = 50000;

/// Settle time of the first re-synchronising nibble.
pub const FIRST_SYNC_US: u64 = 4100;

/// Settle time of the later re-synchronising nibbles.
pub const SYNC_US: u64 = 150;

/// Execution time of a short instruction.
pub const SHORT_US: u64 = 39;

/// Execution time of clear, home and cursor moves.
pub const LONG_US: u64 = 1530;

/// Delay before each character that `print` writes.
pub const CHAR_US: u64 = 320;

/// Which way the cursor moves after a character is written.
#[derive(Clone, Copy, Debug, PartialEq, Eq, Structural)]
pub enum Direction {
    LeftToRight,
    RightToLeft,
}

/// Width of the data bus between host and controller.
#[derive(Clone, Copy, Debug, PartialEq, Eq, Structural)]
pub enum BusWidth {
    FourBits,
    EightBits,
}

/// The entry-mode-set opcode: `0x04`, with bit 1 for right-to-left and
/// bit 0 for shifting the display along with the cursor.
pub open spec fn entry_mode_cmd(dir: Direction, edge_tracking: bool) -> u8 {
    (0x04 + (if dir == Direction::RightToLeft { 0x02int } else { 0 }) + (if edge_tracking {
        0x01int
    } else {
        0
    })) as u8
}

/// The display-data address of a cell: row 0 starts at `0x00`, row 1 at `0x40`.
pub open spec fn ddram_address(col: u8, row: u8) -> int {
    row as int * 0x40 + col as int
}

pub open spec fn valid_position(col: u8, row: u8) -> bool {
    col <= 15 && row <= 1
}

/// A command followed by its settle delay.
pub open spec fn settled_command_ops(cmd: u8, us: u64) -> Seq<Action> {
    command_ops(cmd) + delay_ops(us)
}

/// Switching the controller to the 4-bit bus: the function-set nibble `0x2`.
pub open spec fn four_bit_ops() -> Seq<Action> {
    nibble_ops(0x02) + delay_ops(SHORT_US)
}

pub open spec fn clear_ops() -> Seq<Action> {
    settled_command_ops(0x01, LONG_US)
}

pub open spec fn home_ops() -> Seq<Action> {
    settled_command_ops(0x02, LONG_US)
}

pub open spec fn entry_mode_ops(dir: Direction, edge_tracking: bool) -> Seq<Action> {
    settled_command_ops(entry_mode_cmd(dir, edge_tracking), SHORT_US)
}

/// Three `0x3` nibbles bring the controller to 8-bit mode from any state,
/// so that the `0x2` nibble after them lands it in 4-bit mode.
pub open spec fn resync_ops() -> Seq<Action> {
    nibble_ops(0x03) + delay_ops(FIRST_SYNC_US) + nibble_ops(0x03) + delay_ops(SYNC_US)
        + nibble_ops(0x03) + delay_ops(SYNC_US)
}

/// The power-on sequence: settle, re-synchronise, 4-bit bus, display on
/// (`0x0C`), clear, and the entry mode right-to-left without edge tracking.
pub open spec fn init_ops() -> Seq<Action> {
    delay_ops(POWER_UP_US) + resync_ops() + four_bit_ops() + settled_command_ops(0x0C, SHORT_US)
        + clear_ops() + entry_mode_ops(Direction::RightToLeft, false)
}

/// The bytes that `print` puts on the display: each character cut to its
/// low eight bits.
pub open spec fn char_byte(c: char) -> u8 {
    c as u8
}

/// Each character of `s`, preceded by the per-character delay.
pub open spec fn chars_ops(s: Seq<char>) -> Seq<Action>
    decreases s.len(),
{
    if s.len() == 0 {
        Seq::empty()
    } else {
        chars_ops(s.drop_last()) + delay_ops(CHAR_US) + char_ops(char_byte(s.last()))
    }
}

pub open spec fn print_ops(s: Seq<char>) -> Seq<Action> {
    chars_ops(s) + delay_ops(LONG_US)
}

/// A display on the 4-bit bus. It owns the six pins and the timer it is
/// driven through, and the queue of actions that a runner is to carry out
/// on them.
pub struct LCD1602<EN, RS, D4, D5, D6, D7, Timer> {
    pub en: EN,
    pub rs: RS,
    pub d4: D4,
    pub d5: D5,
    pub d6: D6,
    pub d7: D7,
    pub timer: Timer,
    /// The actions queued and not yet handed out to the runner.
    pub queue: VecDeque<Action>,
}

impl<EN, RS, D4, D5, D6, D7, Timer> LCD1602<EN, RS, D4, D5, D6, D7, Timer> {
    /// Both hold the same pins and timer.
    pub open spec fn same_parts(&self, o: &Self) -> bool {
        &&& self.en == o.en
        &&& self.rs == o.rs
        &&& self.d4 == o.d4
        &&& self.d5 == o.d5
        &&& self.d6 == o.d6
        &&& self.d7 == o.d7
        &&& self.timer == o.timer
    }

    /// The actions queued and not yet handed out.
    pub open spec fn pending(&self) -> Seq<Action> {
        self.queue@
    }

    /// Take ownership of the pins and the timer and queue the power-on
    /// sequence.
    pub fn new(en: EN, rs: RS, d4: D4, d5: D5, d6: D6, d7: D7, timer: Timer) -> (r: Self)
        ensures
            r.pending() == init_ops(),
            r.en == en,
            r.rs == rs,
            r.d4 == d4,
            r.d5 == d5,
            r.d6 == d6,
            r.d7 == d7,
            r.timer == timer,
    {
        let mut lcd = LCD1602 { en, rs, d4, d5, d6, d7, timer, queue: VecDeque::new() };
        lcd.init();
        lcd
    }

    fn init(&mut self)
        ensures
            final(self).pending() == old(self).pending() + init_ops(),
            final(self).same_parts(old(self)),
    {
        self.delay_us(POWER_UP_US);
        self.write_bus(0x03);
        self.delay_us(FIRST_SYNC_US);
        self.write_bus(0x03);
        self.delay_us(SYNC_US);
        self.write_bus(0x03);
        self.delay_us(SYNC_US);
        // The 4-bit bus is never refused.
        let _four_bits: Result<(), Error<()>> = self.set_bus_width(BusWidth::FourBits);
        self.command(0x0C);
        self.delay_us(SHORT_US);
        self.clear();
        self.set_entry_mode(Direction::RightToLeft, false);
        assert(final(self).pending() =~= old(self).pending() + init_ops());
    }

    /// Queue one nibble transfer of the low four bits of `data`.
    pub fn write_bus(&mut self, data: u8)
        ensures
            final(self).pending() == old(self).pending() + nibble_ops(data),
            final(self).same_parts(old(self)),
    {
        push_nibble_setup(&mut self.queue, data);
        self.queue.push_back(Action::SetHigh(Line::Enable));
        self.queue.push_back(Action::SetLow(Line::Enable));
        assert(final(self).pending() =~= old(self).pending() + nibble_ops(data));
    }

    /// Queue a command byte: register select low, then the high nibble and
    /// the low one. No settle delay follows.
    pub fn command(&mut self, cmd: u8)
        ensures
            final(self).pending() == old(self).pending() + command_ops(cmd),
            final(self).same_parts(old(self)),
    {
        self.write_byte(false, cmd);
    }

    /// Queue a character byte: register select high, then the high nibble
    /// and the low one.
    pub fn write_char(&mut self, ch: u8)
        ensures
            final(self).pending() == old(self).pending() + char_ops(ch),
            final(self).same_parts(old(self)),
    {
        self.write_byte(true, ch);
    }

    fn write_byte(&mut self, data_register: bool, b: u8)
        ensures
            final(self).pending() == old(self).pending() + byte_ops(data_register, b),
            final(self).same_parts(old(self)),
    {
        let (hi, lo) = split_byte(b);
        push_level(&mut self.queue, Line::RegisterSelect, data_register);
        self.write_bus(hi);
        self.write_bus(lo);
        assert(final(self).pending() =~= old(self).pending() + byte_ops(data_register, b));
    }

    /// Select the bus width. Only the 4-bit bus is driven: it queues the
    /// function-set nibble; the 8-bit bus is refused with nothing queued.
    pub fn set_bus_width<E>(&mut self, bus_width: BusWidth) -> (r: Result<(), Error<E>>)
        ensures
            final(self).same_parts(old(self)),
            bus_width == BusWidth::FourBits ==> r is Ok && final(self).pending() == old(self).pending() + four_bit_ops(),
            bus_width == BusWidth::EightBits ==> r == Err::<(), Error<E>>(
                Error::UnsupportedBusWidth,
            ) && final(self).pending() == old(self).pending(),
    {
        match bus_width {
            BusWidth::FourBits => {
                self.write_bus(0x02);
                self.delay_us(SHORT_US);
                assert(final(self).pending() =~= old(self).pending() + four_bit_ops());
                Ok(())
            },
            BusWidth::EightBits => Err(Error::UnsupportedBusWidth),
        }
    }

    /// Set the direction the cursor moves after each character, and whether
    /// the display shifts along with it.
    pub fn set_entry_mode(&mut self, text_direction: Direction, screen_edge_tracking: bool)
        ensures
            final(self).pending() == old(self).pending() + entry_mode_ops(
                text_direction,
                screen_edge_tracking,
            ),
            final(self).same_parts(old(self)),
    {
        let mut cmd: u8 = 0x04;
        match text_direction {
            Direction::RightToLeft => {
                cmd = cmd | 0x02;
            },
            Direction::LeftToRight => {},
        }
        if screen_edge_tracking {
            cmd = cmd | 0x01;
        }
        assert(cmd == entry_mode_cmd(text_direction, screen_edge_tracking)) by {
            assert(0x04u8 | 0x02u8 == 0x06u8) by (bit_vector);
            assert(0x04u8 | 0x01u8 == 0x05u8) by (bit_vector);
            assert(0x06u8 | 0x01u8 == 0x07u8) by (bit_vector);
        }
        self.command(cmd);
        self.delay_us(SHORT_US);
        assert(final(self).pending() =~= old(self).pending() + entry_mode_ops(
            text_direction,
            screen_edge_tracking,
        ));
    }

    /// Move the cursor to column `x` of row `y`: the command `0x80` with the
    /// cell's display-data address, then the long settle delay. A position
    /// off the 16x2 grid is refused with nothing queued.
    pub fn set_position<E>(&mut self, x: u8, y: u8) -> (r: Result<(), Error<E>>)
        ensures
            final(self).same_parts(old(self)),
            valid_position(x, y) ==> r is Ok && final(self).pending() == old(self).pending()
                + settled_command_ops((0x80 + ddram_address(x, y)) as u8, LONG_US),
            !valid_position(x, y) ==> r == Err::<(), Error<E>>(Error::InvalidCursorPos)
                && final(self).pending() == old(self).pending(),
    {
        if x <= 15 && y <= 1 {
            let addr: u8 = if y == 0 {
                x
            } else {
                x + 0x40
            };
            assert(addr < 0x80 ==> 0x80u8 | addr == 0x80u8 + addr) by (bit_vector);
            self.command(0x80 | addr);
            self.delay_us(LONG_US);
            assert(final(self).pending() =~= old(self).pending() + settled_command_ops(
                (0x80 + ddram_address(x, y)) as u8,
                LONG_US,
            ));
            Ok(())
        } else {
            Err(Error::InvalidCursorPos)
        }
    }

    /// Select a character-generator address: the command `0x40` with the
    /// address, then the short settle delay. An address of 32 or more is
    /// refused with nothing queued.
    pub fn set_cgram_addr<E>(&mut self, addr: u8) -> (r: Result<(), Error<E>>)
        ensures
            final(self).same_parts(old(self)),
            addr < 32 ==> r is Ok && final(self).pending() == old(self).pending()
                + settled_command_ops((0x40 + addr) as u8, SHORT_US),
            addr < 32 ==> (0x40 + addr) as u8 == 0x40u8 | addr,
            addr >= 32 ==> r == Err::<(), Error<E>>(Error::InvalidAddr) && final(self).pending() == old(self).pending(),
    {
        assert(addr < 32 ==> 0x40u8 | addr == 0x40u8 + addr) by (bit_vector);
        if addr < 32 {
            self.command(0x40 | addr);
            self.delay_us(SHORT_US);
            assert(final(self).pending() =~= old(self).pending() + settled_command_ops(
                (0x40 + addr) as u8,
                SHORT_US,
            ));
            Ok(())
        } else {
            Err(Error::InvalidAddr)
        }
    }

    /// Clear the display: the command `0x01` and the long settle delay.
    pub fn clear(&mut self)
        ensures
            final(self).pending() == old(self).pending() + clear_ops(),
            final(self).same_parts(old(self)),
    {
        self.command(0x01);
        self.delay_us(LONG_US);
        assert(final(self).pending() =~= old(self).pending() + clear_ops());
    }

    /// Return the cursor home: the command `0x02` and the long settle delay.
    pub fn home(&mut self)
        ensures
            final(self).pending() == old(self).pending() + home_ops(),
            final(self).same_parts(old(self)),
    {
        self.command(0x02);
        self.delay_us(LONG_US);
        assert(final(self).pending() =~= old(self).pending() + home_ops());
    }

    /// Write a string: each character, cut to eight bits, after the
    /// per-character delay, and the long delay after the last.
    pub fn print(&mut self, s: &str)
        ensures
            final(self).pending() == old(self).pending() + print_ops(s@),
            final(self).same_parts(old(self)),
    {
        let ghost start = self.pending();
        let ghost mut done: Seq<char> = Seq::empty();
        for ch in it: s.chars()
            invariant
                it.seq() == s@,
                done == s@.take(it.index() as int),
                self.pending() == start + chars_ops(done),
                self.same_parts(old(self)),
        {
            self.delay_us(CHAR_US);
            self.write_char(ch as u8);
            proof {
                let next = s@.take(it.index() + 1);
                assert(next.drop_last() =~= done);
                assert(next.last() == ch);
                done = next;
            }
            assert(self.pending() =~= start + chars_ops(done));
        }
        assert(done =~= s@);
        self.delay_us(LONG_US);
        assert(final(self).pending() =~= old(self).pending() + print_ops(s@));
    }

    /// Wait `interval_us` microseconds.
    pub fn delay(&mut self, interval_us: u32)
        ensures
            final(self).pending() == old(self).pending() + delay_ops(interval_us as u64),
            final(self).same_parts(old(self)),
    {
        self.delay_us(interval_us as u64);
    }

    /// The runner's side: the next action to carry out, or, on a reported
    /// failure, the error, with the rest of the queue dropped.
    pub fn step<E>(&mut self, event: Event<E>) -> (r: Step<E>)
        ensures
            final(self).same_parts(old(self)),
            match event {
                Event::Ready => if old(self).pending().len() > 0 {
                    &&& r == Step::<E>::Perform(old(self).pending()[0])
                    &&& final(self).pending() == old(self).pending().drop_first()
                } else {
                    &&& r == Step::<E>::Idle
                    &&& final(self).pending() == old(self).pending()
                },
                Event::PinFailed(e) => {
                    &&& r == Step::<E>::Failed(Error::GPIOError(e))
                    &&& final(self).pending().len() == 0
                },
                Event::TimerFailed => {
                    &&& r == Step::<E>::Failed(Error::TimerError)
                    &&& final(self).pending().len() == 0
                },
            },
    {
        advance(&mut self.queue, event)
    }

    fn delay_us(&mut self, us: u64)
        ensures
            final(self).pending() == old(self).pending() + delay_ops(us),
            final(self).same_parts(old(self)),
    {
        self.queue.push_back(Action::Delay(us));
        assert(final(self).pending() =~= old(self).pending() + delay_ops(us));
    }
}

/// Display on (`0x0C`) followed by clear queues exactly two commands: register
/// select low, the nibbles `0x0` and `0xC`; register select low, the nibbles
/// `0x0` and `0x1`; and then the long settle delay.
pub proof fn lemma_display_on_then_clear()
    ensures
        command_ops(0x0C) + clear_ops() == seq![Action::SetLow(Line::RegisterSelect)]
            + nibble_ops(0x0) + nibble_ops(0xC) + seq![Action::SetLow(Line::RegisterSelect)]
            + nibble_ops(0x0) + nibble_ops(0x1) + seq![Action::Delay(LONG_US)],
{
    assert(command_ops(0x0C) + clear_ops() =~= seq![Action::SetLow(Line::RegisterSelect)]
        + nibble_ops(0x0) + nibble_ops(0xC) + seq![Action::SetLow(Line::RegisterSelect)]
        + nibble_ops(0x0) + nibble_ops(0x1) + seq![Action::Delay(LONG_US)]);
}

} // verus!
