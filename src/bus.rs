//! The 4-bit parallel bus: its lines, the actions on them, and the
//! sequences that carry nibbles and bytes to the controller.
use vstd::prelude::*;

use std::collections::VecDeque;

use crate::error::Error;

verus! {

/// One of the six lines wired between the host and the controller.
#[derive(Clone, Copy, Debug, PartialEq, Eq, Structural)]
pub enum Line {
    Enable,
    RegisterSelect,
    D4,
    D5,
    D6,
    D7,
}

/// One thing for a runner to do: drive a line, or wait a number of
/// microseconds.
#[derive(Clone, Copy, Debug, PartialEq, Eq, Structural)]
pub enum Action {
    SetHigh(Line),
    SetLow(Line),
    Delay(u64),
}

/// How the action that a runner last performed went; `Ready` when there
/// is none yet to report.
#[derive(Debug)]
pub enum Event<E> {
    Ready,
    PinFailed(E),
    TimerFailed,
}

/// What a runner is to do next.
#[derive(Debug, PartialEq, Eq)]
pub enum Step<E> {
    /// Carry out this action, then report with the next call of `step`.
    Perform(Action),
    /// Nothing is queued.
    Idle,
    /// The transfer has failed; the rest of the queue was dropped.
    Failed(Error<E>),
}

/// Drive `line` to the given level.
pub open spec fn drive(line: Line, high: bool) -> Action {
    if high {
        Action::SetHigh(line)
    } else {
        Action::SetLow(line)
    }
}

/// The four data-line levels of a nibble: D4 to bit 0 up to D7 to bit 3.
pub open spec fn data_levels(data: u8) -> Seq<Action> {
    seq![
        drive(Line::D4, data & 0x1 != 0),
        drive(Line::D5, data & 0x2 != 0),
        drive(Line::D6, data & 0x4 != 0),
        drive(Line::D7, data & 0x8 != 0),
    ]
}

/// Present the low four bits of `data` on D4..D7 (bit 0 on D4), with the
/// enable line held low meanwhile.
pub open spec fn nibble_setup(data: u8) -> Seq<Action> {
    seq![Action::SetLow(Line::Enable)] + data_levels(data)
}

/// A nibble transfer: the data lines set up, then an enable pulse, whose
/// falling edge the controller latches on.
pub open spec fn nibble_ops(data: u8) -> Seq<Action> {
    nibble_setup(data) + seq![Action::SetHigh(Line::Enable), Action::SetLow(Line::Enable)]
}

/// A nibble transfer whose enable pulse is held high for one microsecond.
pub open spec fn held_nibble_ops(data: u8) -> Seq<Action> {
    nibble_setup(data) + seq![
        Action::SetHigh(Line::Enable),
        Action::Delay(1),
        Action::SetLow(Line::Enable),
    ]
}

pub open spec fn high_nibble(b: u8) -> u8 {
    b / 16
}

pub open spec fn low_nibble(b: u8) -> u8 {
    b % 16
}

/// A byte on the 4-bit bus: register select driven (low for a command,
/// high for display data), then the high nibble, then the low one.
pub open spec fn byte_ops(data_register: bool, b: u8) -> Seq<Action> {
    seq![drive(Line::RegisterSelect, data_register)] + nibble_ops(high_nibble(b)) + nibble_ops(
        low_nibble(b),
    )
}

/// The same with held enable pulses.
pub open spec fn held_byte_ops(data_register: bool, b: u8) -> Seq<Action> {
    seq![drive(Line::RegisterSelect, data_register)] + held_nibble_ops(high_nibble(b))
        + held_nibble_ops(low_nibble(b))
}

pub open spec fn command_ops(cmd: u8) -> Seq<Action> {
    byte_ops(false, cmd)
}

pub open spec fn char_ops(ch: u8) -> Seq<Action> {
    byte_ops(true, ch)
}

pub open spec fn delay_ops(us: u64) -> Seq<Action> {
    seq![Action::Delay(us)]
}

/// The split of a byte into the nibbles that go out on the bus.
pub fn split_byte(b: u8) -> (r: (u8, u8))
    ensures
        r.0 == high_nibble(b),
        r.1 == low_nibble(b),
        r.0 < 16,
        r.1 < 16,
{
    let hi = (b & 0xF0) >> 4;
    let lo = b & 0x0F;
    assert(((b & 0xF0) >> 4) == b / 16 && (b & 0x0F) == b % 16) by (bit_vector);
    (hi, lo)
}

/// Queue the action that drives `line` to the given level.
pub fn push_level(queue: &mut VecDeque<Action>, line: Line, high: bool)
    ensures
        final(queue)@ == old(queue)@.push(drive(line, high)),
{
    if high {
        queue.push_back(Action::SetHigh(line));
    } else {
        queue.push_back(Action::SetLow(line));
    }
}

/// Queue the set-up of a nibble on the data lines.
pub fn push_nibble_setup(queue: &mut VecDeque<Action>, data: u8)
    ensures
        final(queue)@ == old(queue)@ + nibble_setup(data),
{
    queue.push_back(Action::SetLow(Line::Enable));
    push_level(queue, Line::D4, (data & 0x1) > 0);
    push_level(queue, Line::D5, (data & 0x2) > 0);
    push_level(queue, Line::D6, (data & 0x4) > 0);
    push_level(queue, Line::D7, (data & 0x8) > 0);
    assert(final(queue)@ =~= old(queue)@ + nibble_setup(data));
}

/// The runner's side of a transfer: hand out the queued actions in order,
/// and on a reported failure drop what is left and give the error.
pub fn advance<E>(queue: &mut VecDeque<Action>, event: Event<E>) -> (r: Step<E>)
    ensures
        match event {
            Event::Ready => if old(queue)@.len() > 0 {
                &&& r == Step::<E>::Perform(old(queue)@[0])
                &&& final(queue)@ == old(queue)@.drop_first()
            } else {
                &&& r == Step::<E>::Idle
                &&& final(queue)@ == old(queue)@
            },
            Event::PinFailed(e) => {
                &&& r == Step::<E>::Failed(Error::GPIOError(e))
                &&& final(queue)@.len() == 0
            },
            Event::TimerFailed => {
                &&& r == Step::<E>::Failed(Error::TimerError)
                &&& final(queue)@.len() == 0
            },
        },
{
    match event {
        Event::Ready => match queue.pop_front() {
            Some(a) => Step::Perform(a),
            None => Step::Idle,
        },
        Event::PinFailed(e) => {
            queue.clear();
            Step::Failed(Error::GPIOError(e))
        },
        Event::TimerFailed => {
            queue.clear();
            Step::Failed(Error::TimerError)
        },
    }
}

/// A nibble transfer depends on the nibble alone: two transfers of the same
/// value in a row, with plain or with held enable pulses, drive the four
/// data lines to the same levels both times, and pulse the enable line the
/// same way both times.
pub proof fn lemma_nibble_transfer_repeatable(data: u8)
    requires
        data < 16,
    ensures
        ({
            let twice = nibble_ops(data) + nibble_ops(data);
            &&& twice.subrange(0, 7) == twice.subrange(7, 14)
            &&& twice.subrange(1, 5) == data_levels(data)
            &&& twice.subrange(8, 12) == data_levels(data)
        }),
        ({
            let twice = held_nibble_ops(data) + held_nibble_ops(data);
            &&& twice.subrange(0, 8) == twice.subrange(8, 16)
            &&& twice.subrange(1, 5) == data_levels(data)
            &&& twice.subrange(9, 13) == data_levels(data)
        }),
{
    let twice = nibble_ops(data) + nibble_ops(data);
    assert(twice.subrange(0, 7) =~= twice.subrange(7, 14));
    assert(twice.subrange(1, 5) =~= data_levels(data));
    assert(twice.subrange(8, 12) =~= data_levels(data));
    let held = held_nibble_ops(data) + held_nibble_ops(data);
    assert(held.subrange(0, 8) =~= held.subrange(8, 16));
    assert(held.subrange(1, 5) =~= data_levels(data));
    assert(held.subrange(9, 13) =~= data_levels(data));
}

} // verus!
