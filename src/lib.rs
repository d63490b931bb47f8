//! A driver for HD44780-compatible 16x2 character displays wired in 4-bit mode.
//!
//! Every operation is encoded into a queue of line-level actions (drive a
//! line high or low, or wait), whose exact content is stated by the spec
//! functions of [`bus`]. A runner that owns real pins and a timer takes the
//! actions out one at a time with `step`, carries each out, and reports how
//! it went; the first failure ends the transfer.
pub mod bus;
pub mod error;
pub mod lcd1602;
pub mod liquid_crystal;

pub use bus::{Action, Event, Line, Step};
pub use error::Error;
pub use lcd1602::{BusWidth, Direction, LCD1602};
pub use liquid_crystal::LCD;
