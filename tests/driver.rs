use lcd1602_rs::bus::split_byte;
use lcd1602_rs::{Action, BusWidth, Direction, Error, Event, Line, Step, LCD1602};

type Lcd = LCD1602<(), (), (), (), (), (), ()>;

fn fresh() -> Lcd {
    let mut lcd = LCD1602::new((), (), (), (), (), (), ());
    lcd.queue.clear();
    lcd
}

fn queued(lcd: &Lcd) -> Vec<Action> {
    lcd.queue.iter().copied().collect()
}

fn level(line: Line, high: bool) -> Action {
    if high {
        Action::SetHigh(line)
    } else {
        Action::SetLow(line)
    }
}

fn nibble(d: u8) -> Vec<Action> {
    vec![
        Action::SetLow(Line::Enable),
        level(Line::D4, d & 1 != 0),
        level(Line::D5, d & 2 != 0),
        level(Line::D6, d & 4 != 0),
        level(Line::D7, d & 8 != 0),
        Action::SetHigh(Line::Enable),
        Action::SetLow(Line::Enable),
    ]
}

fn byte(data: bool, b: u8) -> Vec<Action> {
    let mut v = vec![level(Line::RegisterSelect, data)];
    v.extend(nibble(b >> 4));
    v.extend(nibble(b & 0x0F));
    v
}

fn settled(cmd: u8, us: u64) -> Vec<Action> {
    let mut v = byte(false, cmd);
    v.push(Action::Delay(us));
    v
}

/// A failure of a mock pin.
#[derive(Debug, PartialEq)]
struct PinFault;

/// Carries the queued actions out on mock pins, failing the given
/// `set_high` call (counting from 1). Returns the outcome and the actions
/// that were attempted.
fn run(lcd: &mut Lcd, fail_on_high: Option<usize>) -> (Result<(), Error<PinFault>>, Vec<Action>) {
    let mut trace = Vec::new();
    let mut highs = 0usize;
    let mut event = Event::Ready;
    loop {
        match lcd.step(event) {
            Step::Perform(a) => {
                trace.push(a);
                event = Event::Ready;
                if let Action::SetHigh(_) = a {
                    highs += 1;
                    if Some(highs) == fail_on_high {
                        event = Event::PinFailed(PinFault);
                    }
                }
            }
            Step::Idle => return (Ok(()), trace),
            Step::Failed(e) => return (Err(e), trace),
        }
    }
}

#[test]
fn set_position_addresses_every_cell() {
    for row in 0u8..=1 {
        for col in 0u8..=15 {
            let mut lcd = fresh();
            let r: Result<(), Error<()>> = lcd.set_position(col, row);
            assert_eq!(r, Ok(()));
            let addr = row * 0x40 + col;
            assert_eq!(queued(&lcd), settled(0x80 | addr, 1530));
        }
    }
}

#[test]
fn set_position_second_row_last_column() {
    let mut lcd = fresh();
    let r: Result<(), Error<()>> = lcd.set_position(15, 1);
    assert_eq!(r, Ok(()));
    assert_eq!(queued(&lcd), settled(0xCF, 1530));
}

#[test]
fn set_position_off_grid_is_refused() {
    for (col, row) in [(16u8, 0u8), (0, 2), (16, 1), (255, 255)] {
        let mut lcd = fresh();
        let r: Result<(), Error<()>> = lcd.set_position(col, row);
        assert_eq!(r, Err(Error::InvalidCursorPos));
        assert!(lcd.queue.is_empty());
    }
}

#[test]
fn set_cgram_addr_in_range() {
    for addr in 0u8..32 {
        let mut lcd = fresh();
        let r: Result<(), Error<()>> = lcd.set_cgram_addr(addr);
        assert_eq!(r, Ok(()));
        assert_eq!(queued(&lcd), settled(0x40 + addr, 39));
    }
}

#[test]
fn set_cgram_addr_out_of_range_is_refused() {
    for addr in [32u8, 33, 0x80, 255] {
        let mut lcd = fresh();
        let r: Result<(), Error<()>> = lcd.set_cgram_addr(addr);
        assert_eq!(r, Err(Error::InvalidAddr));
        assert!(lcd.queue.is_empty());
    }
}

#[test]
fn nibble_transfer_repeats_identically() {
    for d in 0u8..16 {
        let mut lcd = fresh();
        lcd.write_bus(d);
        lcd.write_bus(d);
        let q = queued(&lcd);
        assert_eq!(q.len(), 14);
        assert_eq!(q[1..5], q[8..12]);
        assert_eq!(q[..7], nibble(d)[..]);
    }
}

#[test]
fn nibble_transfer_of_0xa() {
    let mut lcd = fresh();
    lcd.write_bus(0xA);
    assert_eq!(
        queued(&lcd),
        vec![
            Action::SetLow(Line::Enable),
            Action::SetLow(Line::D4),
            Action::SetHigh(Line::D5),
            Action::SetLow(Line::D6),
            Action::SetHigh(Line::D7),
            Action::SetHigh(Line::Enable),
            Action::SetLow(Line::Enable),
        ]
    );
}

#[test]
fn display_on_then_clear() {
    let mut lcd = fresh();
    lcd.command(0x0C);
    lcd.clear();
    let mut expected = vec![Action::SetLow(Line::RegisterSelect)];
    expected.extend(nibble(0x0));
    expected.extend(nibble(0xC));
    expected.push(Action::SetLow(Line::RegisterSelect));
    expected.extend(nibble(0x0));
    expected.extend(nibble(0x1));
    expected.push(Action::Delay(1530));
    assert_eq!(queued(&lcd), expected);
}

#[test]
fn init_sequence() {
    let lcd = LCD1602::new((), (), (), (), (), (), ());
    let q: Vec<Action> = lcd.queue.iter().copied().collect();
    let mut expected = vec![Action::Delay(50000)];
    expected.extend(nibble(0x3));
    expected.push(Action::Delay(4100));
    expected.extend(nibble(0x3));
    expected.push(Action::Delay(150));
    expected.extend(nibble(0x3));
    expected.push(Action::Delay(150));
    expected.extend(nibble(0x2));
    expected.push(Action::Delay(39));
    expected.extend(settled(0x0C, 39));
    expected.extend(settled(0x01, 1530));
    expected.extend(settled(0x06, 39));
    assert_eq!(q, expected);
    assert!(matches!(q[0], Action::Delay(us) if us >= 50000));
    assert_eq!(q[q.len() - 16..q.len() - 1], byte(false, 0x04 | 0x02)[..]);
}

#[test]
fn init_runs_to_completion_on_good_pins() {
    let mut lcd = LCD1602::new((), (), (), (), (), (), ());
    let n = lcd.queue.len();
    let (r, trace) = run(&mut lcd, None);
    assert_eq!(r, Ok(()));
    assert_eq!(trace.len(), n);
    assert!(lcd.queue.is_empty());
}

#[test]
fn init_stops_at_third_failing_set_high() {
    let mut lcd = LCD1602::new((), (), (), (), (), (), ());
    let (r, trace) = run(&mut lcd, Some(3));
    assert_eq!(r, Err(Error::GPIOError(PinFault)));
    // The third set_high is the last action attempted.
    let highs = trace.iter().filter(|a| matches!(a, Action::SetHigh(_))).count();
    assert_eq!(highs, 3);
    assert!(matches!(trace.last(), Some(Action::SetHigh(_))));
    assert!(lcd.queue.is_empty());
    let (again, more) = run(&mut lcd, None);
    assert_eq!(again, Ok(()));
    assert!(more.is_empty());
}

#[test]
fn timer_failure_ends_transfer() {
    let mut lcd = fresh();
    lcd.delay(10);
    lcd.home();
    assert_eq!(lcd.step::<PinFault>(Event::Ready), Step::Perform(Action::Delay(10)));
    assert_eq!(lcd.step::<PinFault>(Event::TimerFailed), Step::Failed(Error::TimerError));
    assert!(lcd.queue.is_empty());
    assert_eq!(lcd.step::<PinFault>(Event::Ready), Step::Idle);
}

#[test]
fn print_hi() {
    let mut lcd = fresh();
    lcd.print("Hi");
    let mut expected = vec![Action::Delay(320)];
    expected.push(Action::SetHigh(Line::RegisterSelect));
    expected.extend(nibble(0x4));
    expected.extend(nibble(0x8));
    expected.push(Action::Delay(320));
    expected.push(Action::SetHigh(Line::RegisterSelect));
    expected.extend(nibble(0x6));
    expected.extend(nibble(0x9));
    expected.push(Action::Delay(1530));
    assert_eq!(queued(&lcd), expected);
}

#[test]
fn print_empty_string_only_settles() {
    let mut lcd = fresh();
    lcd.print("");
    assert_eq!(queued(&lcd), vec![Action::Delay(1530)]);
}

#[test]
fn print_cuts_wide_chars_to_a_byte() {
    let mut lcd = fresh();
    lcd.print("\u{e9}\u{20ac}");
    let mut expected = vec![Action::Delay(320)];
    expected.extend(byte(true, 0xE9));
    expected.push(Action::Delay(320));
    expected.extend(byte(true, 0xAC));
    expected.push(Action::Delay(1530));
    assert_eq!(queued(&lcd), expected);
}

#[test]
fn print_stops_at_failing_character() {
    let mut lcd = fresh();
    lcd.print("ab");
    // 'a' (0x61) raises register select, then D5 for its high nibble 0x6.
    let (r, trace) = run(&mut lcd, Some(2));
    assert_eq!(r, Err(Error::GPIOError(PinFault)));
    assert_eq!(trace.len(), 5);
    assert_eq!(trace[4], Action::SetHigh(Line::D5));
    assert!(lcd.queue.is_empty());
}

#[test]
fn entry_mode_encodings() {
    for (dir, track, cmd) in [
        (Direction::LeftToRight, false, 0x04u8),
        (Direction::LeftToRight, true, 0x05),
        (Direction::RightToLeft, false, 0x06),
        (Direction::RightToLeft, true, 0x07),
    ] {
        let mut lcd = fresh();
        lcd.set_entry_mode(dir, track);
        assert_eq!(queued(&lcd), settled(cmd, 39));
    }
}

#[test]
fn bus_width_four_bits() {
    let mut lcd = fresh();
    let r: Result<(), Error<()>> = lcd.set_bus_width(BusWidth::FourBits);
    assert_eq!(r, Ok(()));
    let mut expected = nibble(0x2);
    expected.push(Action::Delay(39));
    assert_eq!(queued(&lcd), expected);
}

#[test]
fn bus_width_eight_bits_is_refused() {
    let mut lcd = fresh();
    let r: Result<(), Error<()>> = lcd.set_bus_width(BusWidth::EightBits);
    assert_eq!(r, Err(Error::UnsupportedBusWidth));
    assert!(lcd.queue.is_empty());
}

#[test]
fn clear_and_home() {
    let mut lcd = fresh();
    lcd.clear();
    assert_eq!(queued(&lcd), settled(0x01, 1530));
    let mut lcd = fresh();
    lcd.home();
    assert_eq!(queued(&lcd), settled(0x02, 1530));
}

#[test]
fn write_char_sends_high_nibble_first() {
    let mut lcd = fresh();
    lcd.write_char(0x48);
    let mut expected = vec![Action::SetHigh(Line::RegisterSelect)];
    expected.extend(nibble(0x4));
    expected.extend(nibble(0x8));
    assert_eq!(queued(&lcd), expected);
}

#[test]
fn delay_queues_its_interval() {
    let mut lcd = fresh();
    lcd.delay(u32::MAX);
    assert_eq!(queued(&lcd), vec![Action::Delay(u32::MAX as u64)]);
}

#[test]
fn split_byte_nibbles() {
    assert_eq!(split_byte(0x48), (0x4, 0x8));
    assert_eq!(split_byte(0xFF), (0xF, 0xF));
    assert_eq!(split_byte(0x00), (0x0, 0x0));
    assert_eq!(split_byte(0x9C), (0x9, 0xC));
}

#[test]
fn gpio_error_from_pin_error() {
    let e: Error<u8> = Error::from(7u8);
    assert_eq!(e, Error::GPIOError(7));
}

#[test]
fn new_keeps_the_parts() {
    let lcd = LCD1602::new(1u8, 2u8, 3u8, 4u8, 5u8, 6u8, 7u16);
    assert_eq!((lcd.en, lcd.rs, lcd.d4, lcd.d5, lcd.d6, lcd.d7, lcd.timer), (1, 2, 3, 4, 5, 6, 7));
}
