use vstd::prelude::*;

verus! {

/// What can go wrong while driving the display.
#[derive(Debug, PartialEq, Eq)]
pub enum Error<GPIO> {
    /// A pin write failed; the pin's own error is kept.
    GPIOError(GPIO),
    /// The timer's wait failed.
    TimerError,
    /// A character-generator address outside 0..32.
    InvalidAddr,
    /// A cursor position outside the 16x2 grid.
    InvalidCursorPos,
    /// An 8-bit bus was asked for; only the 4-bit bus is driven.
    UnsupportedBusWidth,
}

impl<E> From<E> for Error<E> {
    fn from(gpio_err: E) -> (r: Self)
        ensures
            r == Error::GPIOError(gpio_err),
    {
        Error::GPIOError(gpio_err)
    }
}

impl<E> vstd::std_specs::convert::FromSpecImpl<E> for Error<E> {
    open spec fn obeys_from_spec() -> bool {
        true
    }

    open spec fn from_spec(v: E) -> Self {
        Error::GPIOError(v)
    }
}

} // verus!
