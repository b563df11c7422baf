use std::cell::RefCell;
use std::rc::Rc;

use embedded_hal::blocking::spi::Transfer;
use embedded_hal::digital::v2::OutputPin;
use mcp3008::{Action, Channels4, Channels8, Conversion, Error, Event, Mcp3004, Mcp3008};

#[derive(Debug, PartialEq, Clone, Copy)]
enum Op {
    Low,
    High,
    Exchange([u8; 3]),
}

type Log = Rc<RefCell<Vec<Op>>>;

struct MockSpi {
    reply: [u8; 3],
    fail: bool,
    log: Log,
}

impl Transfer<u8> for MockSpi {
    type Error = &'static str;

    fn transfer<'w>(&mut self, words: &'w mut [u8]) -> Result<&'w [u8], Self::Error> {
        self.log.borrow_mut().push(Op::Exchange([words[0], words[1], words[2]]));
        if self.fail {
            return Err("bus fault");
        }
        words.copy_from_slice(&self.reply);
        Ok(words)
    }
}

struct MockPin {
    fail_low: bool,
    fail_high: bool,
    log: Log,
}

impl OutputPin for MockPin {
    type Error = u8;

    fn set_low(&mut self) -> Result<(), u8> {
        self.log.borrow_mut().push(Op::Low);
        if self.fail_low {
            Err(1)
        } else {
            Ok(())
        }
    }

    fn set_high(&mut self) -> Result<(), u8> {
        self.log.borrow_mut().push(Op::High);
        if self.fail_high {
            Err(2)
        } else {
            Ok(())
        }
    }
}

fn mocks(reply: [u8; 3], fail_spi: bool, fail_low: bool, fail_high: bool) -> (MockSpi, MockPin, Log) {
    let log: Log = Rc::new(RefCell::new(Vec::new()));
    let spi = MockSpi { reply, fail: fail_spi, log: log.clone() };
    let pin = MockPin { fail_low, fail_high, log: log.clone() };
    (spi, pin, log)
}

fn perform<SPI, CS, SpiE, PinE>(
    mut conv: Conversion<SpiE, PinE>,
    spi: &mut SPI,
    cs: &mut CS,
) -> Result<u16, Error<SpiE, PinE>>
where
    SPI: Transfer<u8, Error = SpiE>,
    CS: OutputPin<Error = PinE>,
{
    loop {
        let event = match conv.action() {
            Action::Select => Event::Pin(cs.set_low()),
            Action::Transfer(frame) => {
                let mut words = frame;
                let outcome = spi.transfer(&mut words).map(|_| ());
                Event::Bus(outcome.map(|()| words))
            }
            Action::Deselect => Event::Pin(cs.set_high()),
            Action::Stop => return conv.result().expect("a stopped conversion holds its result"),
        };
        conv = conv.advance(event);
    }
}

fn read8(reply: [u8; 3], ch: Channels8, fails: (bool, bool, bool)) -> (Result<u16, Error<&'static str, u8>>, Vec<Op>) {
    let (spi, pin, log) = mocks(reply, fails.0, fails.1, fails.2);
    let mut dev = Mcp3008::new(spi, pin).unwrap();
    let (spi, cs) = dev.parts();
    let r = perform(Conversion::channel8(ch), spi, cs);
    let ops = log.borrow().clone();
    (r, ops)
}

#[test]
fn full_scale_reply_reads_1023() {
    let (r, _) = read8([0xAA, 0x03, 0xFF], Channels8::CH0, (false, false, false));
    assert_eq!(r.unwrap(), 1023);
}

#[test]
fn zero_reply_reads_0() {
    let (r, _) = read8([0xAA, 0x00, 0x00], Channels8::CH3, (false, false, false));
    assert_eq!(r.unwrap(), 0);
}

#[test]
fn stray_high_bits_are_masked() {
    let (r, _) = read8([0x00, 0xFE, 0x34], Channels8::CH1, (false, false, false));
    assert_eq!(r.unwrap(), 0x234);
}

#[test]
fn successful_read_sequence() {
    let (r, ops) = read8([0, 0x01, 0x02], Channels8::CH6, (false, false, false));
    assert_eq!(r.unwrap(), 258);
    assert_eq!(ops, vec![Op::Low, Op::Exchange([0x01, 0xE0, 0x00]), Op::High]);
}

#[test]
fn mcp3004_read_uses_channel_address() {
    let (spi, pin, log) = mocks([0, 0x02, 0x10], false, false, false);
    let mut dev = Mcp3004::new(spi, pin).unwrap();
    let (spi, cs) = dev.parts();
    let r = perform(Conversion::channel4(Channels4::CH2), spi, cs);
    assert_eq!(r.unwrap(), 0x210);
    assert_eq!(*log.borrow(), vec![Op::Low, Op::Exchange([0x01, 0xA0, 0x00]), Op::High]);
}

#[test]
fn transfer_failure_skips_deselect() {
    let (r, ops) = read8([0, 0x03, 0xFF], Channels8::CH2, (true, false, false));
    assert!(matches!(r, Err(Error::Spi("bus fault"))));
    assert_eq!(ops, vec![Op::Low, Op::Exchange([0x01, 0xA0, 0x00])]);
}

#[test]
fn deselect_failure_reports_pin_error() {
    let (r, ops) = read8([0, 0x03, 0xFF], Channels8::CH7, (false, false, true));
    assert!(matches!(r, Err(Error::Pin(2))));
    assert_eq!(ops, vec![Op::Low, Op::Exchange([0x01, 0xF0, 0x00]), Op::High]);
}

#[test]
fn select_failure_aborts_before_transfer() {
    let (r, ops) = read8([0, 0x03, 0xFF], Channels8::CH0, (false, true, false));
    assert!(matches!(r, Err(Error::Pin(1))));
    assert_eq!(ops, vec![Op::Low]);
}

#[test]
fn each_read_is_independent() {
    let (spi, pin, log) = mocks([0, 0x01, 0x00], false, false, false);
    let mut dev = Mcp3008::new(spi, pin).unwrap();
    for _ in 0..3 {
        let (spi, cs) = dev.parts();
        assert_eq!(perform(Conversion::channel8(Channels8::CH4), spi, cs).unwrap(), 256);
    }
    assert_eq!(log.borrow().len(), 9);
}

#[test]
fn conversion_steps_in_order() {
    let conv: Conversion<(), ()> = Conversion::channel8(Channels8::CH5);
    assert!(matches!(conv.action(), Action::Select));
    let conv = conv.advance(Event::Pin(Ok(())));
    assert!(matches!(conv.action(), Action::Transfer([0x01, 0xD0, 0x00])));
    let conv = conv.advance(Event::Bus(Ok([0, 0x03, 0xFF])));
    assert!(matches!(conv.action(), Action::Deselect));
    let conv = conv.advance(Event::Pin(Ok(())));
    assert!(matches!(conv.action(), Action::Stop));
    assert!(matches!(conv.result(), Some(Ok(1023))));
}

#[test]
fn unanswering_event_is_ignored() {
    let conv: Conversion<u8, u8> = Conversion::channel4(Channels4::CH1);
    let conv = conv.advance(Event::Bus(Ok([0, 0, 0])));
    assert!(matches!(conv.action(), Action::Select));
    let conv = conv.advance(Event::Pin(Ok(())));
    let conv = conv.advance(Event::Pin(Err(3)));
    assert!(matches!(conv.action(), Action::Transfer([0x01, 0x90, 0x00])));
}

#[test]
fn finished_conversion_ignores_events() {
    let conv: Conversion<u8, u8> = Conversion::channel8(Channels8::CH0);
    let conv = conv.advance(Event::Pin(Err(9)));
    assert!(matches!(conv.action(), Action::Stop));
    let conv = conv.advance(Event::Pin(Ok(())));
    let conv = conv.advance(Event::Bus(Ok([0, 3, 0xFF])));
    assert!(matches!(conv.result(), Some(Err(Error::Pin(9)))));
}

#[test]
fn result_absent_until_finished() {
    let conv: Conversion<u8, u8> = Conversion::channel8(Channels8::CH0);
    let conv = conv.advance(Event::Pin(Ok(())));
    assert!(conv.result().is_none());
}

#[test]
fn construction_never_fails() {
    let (spi, pin, log) = mocks([0; 3], true, true, true);
    assert!(Mcp3008::new(spi, pin).is_ok());
    let (spi, pin, _) = mocks([0; 3], true, true, true);
    assert!(Mcp3004::new(spi, pin).is_ok());
    assert!(log.borrow().is_empty());
}

#[test]
fn parts_hand_back_the_collaborators() {
    let (spi, pin, _) = mocks([7, 8, 9], false, true, false);
    let mut dev = Mcp3008::new(spi, pin).unwrap();
    let (spi, cs) = dev.parts();
    assert_eq!(spi.reply, [7, 8, 9]);
    assert!(cs.fail_low);
    spi.reply = [1, 2, 3];
    let (spi, _) = dev.parts();
    assert_eq!(spi.reply, [1, 2, 3]);
}
