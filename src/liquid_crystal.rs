//! A variant of the driver whose enable pulses are held high for a
//! microsecond. A command or a character carries no settle delay of its
//! own: the power-on sequence queues the delays it needs, and other callers
//! queue theirs with `delay`.
use vstd::prelude::*;

use std::collections::VecDeque;

use crate::bus::{
    advance, delay_ops, held_byte_ops, held_nibble_ops, push_level, push_nibble_setup, split_byte,
    Action, Event, Line, Step,
};
use crate::error::Error;

verus! {

/// Execution time of a short instruction, in microseconds.
pub const SETTLE_US: u64 = 39;

/// Settle time of the clear command in the power-on sequence.
pub const CLEAR_US: u64 = 2900;

/// The power-on sequence: settle 50 ms; three `0x3` nibbles, which bring
/// the controller to 8-bit mode whatever its state, then the `0x2` nibble
/// that switches it to the 4-bit bus; display on (`0x0C`), clear (`0x01`)
/// and entry mode `0x06`, each followed by its settle time.
pub open spec fn timed_init_ops() -> Seq<Action> {
    delay_ops(50000) + held_nibble_ops(0x03) + delay_ops(4100) + held_nibble_ops(0x03)
        + delay_ops(150) + held_nibble_ops(0x03) + delay_ops(150) + held_nibble_ops(0x02)
        + delay_ops(SETTLE_US) + held_byte_ops(false, 0x0C) + delay_ops(SETTLE_US)
        + held_byte_ops(false, 0x01) + delay_ops(CLEAR_US) + held_byte_ops(false, 0x06)
        + delay_ops(SETTLE_US)
}

/// A display on the 4-bit bus driven through the given pins and timer.
/// A caller that keeps its pins can hand in a type that forwards to them.
pub struct LCD<EnablePin, RegisterSelPin, Digi4Pin, Digi5Pin, Digi6Pin, Digi7Pin, Timer> {
    pub en: EnablePin,
    pub rs: RegisterSelPin,
    pub d4: Digi4Pin,
    pub d5: Digi5Pin,
    pub d6: Digi6Pin,
    pub d7: Digi7Pin,
    pub timer: Timer,
    /// The actions queued and not yet handed out to the runner.
    pub queue: VecDeque<Action>,
}

impl<EnablePin, RegisterSelPin, Digi4Pin, Digi5Pin, Digi6Pin, Digi7Pin, Timer> LCD<
    EnablePin,
    RegisterSelPin,
    Digi4Pin,
    Digi5Pin,
    Digi6Pin,
    Digi7Pin,
    Timer,
> {
    pub open spec fn pending(&self) -> Seq<Action> {
        self.queue@
    }

    /// Both hold the same pins and timer.
    pub open spec fn same_parts(&self, o: &Self) -> bool {
        &&& self.en == o.en
        &&& self.rs == o.rs
        &&& self.d4 == o.d4
        &&& self.d5 == o.d5
        &&& self.d6 == o.d6
        &&& self.d7 == o.d7
        &&& self.timer == o.timer
    }

    /// Take the pins and the timer, with nothing queued yet.
    pub fn new(
        en: EnablePin,
        rs: RegisterSelPin,
        d4: Digi4Pin,
        d5: Digi5Pin,
        d6: Digi6Pin,
        d7: Digi7Pin,
        timer: Timer,
    ) -> (r: Self)
        ensures
            r.pending().len() == 0,
            r.en == en,
            r.rs == rs,
            r.d4 == d4,
            r.d5 == d5,
            r.d6 == d6,
            r.d7 == d7,
            r.timer == timer,
    {
        LCD { en, rs, d4, d5, d6, d7, timer, queue: VecDeque::new() }
    }

    /// Queue the power-on sequence.
    pub fn init(&mut self)
        ensures
            final(self).pending() == old(self).pending() + timed_init_ops(),
            final(self).same_parts(old(self)),
    {
        self.delay(50000);
        self.write4(0x03);
        self.delay(4100);
        self.write4(0x03);
        self.delay(150);
        self.write4(0x03);
        self.delay(150);
        self.write4(0x02);
        self.delay(SETTLE_US);
        self.command(0x0C);
        self.delay(SETTLE_US);
        self.command(0x01);
        self.delay(CLEAR_US);
        self.command(0x06);
        self.delay(SETTLE_US);
        assert(final(self).pending() =~= old(self).pending() + timed_init_ops());
    }

    /// Queue a command byte: register select low, then the high nibble and
    /// the low one. No settle delay follows.
    pub fn command(&mut self, cmd: u8)
        ensures
            final(self).pending() == old(self).pending() + held_byte_ops(false, cmd),
            final(self).same_parts(old(self)),
    {
        self.write_byte(false, cmd);
    }

    /// Queue a character byte: register select high, then the high nibble
    /// and the low one.
    pub fn write_char(&mut self, ch: u8)
        ensures
            final(self).pending() == old(self).pending() + held_byte_ops(true, ch),
            final(self).same_parts(old(self)),
    {
        self.write_byte(true, ch);
    }

    fn write_byte(&mut self, data_register: bool, b: u8)
        ensures
            final(self).pending() == old(self).pending() + held_byte_ops(data_register, b),
            final(self).same_parts(old(self)),
    {
        let (hi, lo) = split_byte(b);
        push_level(&mut self.queue, Line::RegisterSelect, data_register);
        self.write4(hi);
        self.write4(lo);
        assert(final(self).pending() =~= old(self).pending() + held_byte_ops(data_register, b));
    }

    /// Queue one nibble transfer of the low four bits of `data`, with the
    /// enable pulse held high for a microsecond.
    pub fn write4(&mut self, data: u8)
        ensures
            final(self).pending() == old(self).pending() + held_nibble_ops(data),
            final(self).same_parts(old(self)),
    {
        push_nibble_setup(&mut self.queue, data);
        self.queue.push_back(Action::SetHigh(Line::Enable));
        self.queue.push_back(Action::Delay(1));
        self.queue.push_back(Action::SetLow(Line::Enable));
        assert(final(self).pending() =~= old(self).pending() + held_nibble_ops(data));
    }

    /// Wait `interval_us` microseconds.
    pub fn delay(&mut self, interval_us: u64)
        ensures
            final(self).pending() == old(self).pending() + delay_ops(interval_us),
            final(self).same_parts(old(self)),
    {
        self.queue.push_back(Action::Delay(interval_us));
        assert(final(self).pending() =~= old(self).pending() + delay_ops(interval_us));
    }

    /// The runner's side: the next action to carry out, or, on a reported
    /// failure, the error, with the rest of the queue dropped.
    pub fn step<E>(&mut self, event: Event<E>) -> (r: Step<E>)
        ensures
            final(self).same_parts(old(self)),
            match event {
                Event::Ready => if old(self).pending().len() > 0 {
                    &&& r == Step::<E>::Perform(old(self).pending()[0])
                    &&& final(self).pending() == old(self).pending().drop_first()
                } else {
                    &&& r == Step::<E>::Idle
                    &&& final(self).pending() == old(self).pending()
                },
                Event::PinFailed(e) => {
                    &&& r == Step::<E>::Failed(Error::GPIOError(e))
                    &&& final(self).pending().len() == 0
                },
                Event::TimerFailed => {
                    &&& r == Step::<E>::Failed(Error::TimerError)
                    &&& final(self).pending().len() == 0
                },
            },
    {
        advance(&mut self.queue, event)
    }
}

} // verus!
