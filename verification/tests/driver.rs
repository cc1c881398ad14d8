use std::cell::RefCell;
use std::rc::Rc;

use aht10::{
    decode_response, encode_command, Command, DelayMs, Error, Humidity, I2c, StatusFlags,
    Temperature, AHT10, I2C_ADDRESS,
};

#[derive(Clone, Debug, PartialEq)]
enum Event {
    Write(u8, Vec<u8>),
    WriteRead(u8, Vec<u8>),
    Delay(u32),
}

struct MockBus {
    log: Rc<RefCell<Vec<Event>>>,
    fail_write_at: Option<usize>,
    writes_seen: usize,
    response: Result<[u8; 7], u8>,
}

impl MockBus {
    fn new(log: Rc<RefCell<Vec<Event>>>, response: Result<[u8; 7], u8>) -> MockBus {
        MockBus { log, fail_write_at: None, writes_seen: 0, response }
    }
}

impl I2c for MockBus {
    type Error = u8;

    fn write(&mut self, address: u8, data: &[u8; 3]) -> Result<(), u8> {
        self.log.borrow_mut().push(Event::Write(address, data.to_vec()));
        let idx = self.writes_seen;
        self.writes_seen += 1;
        if self.fail_write_at == Some(idx) {
            Err(7)
        } else {
            Ok(())
        }
    }

    fn write_read(&mut self, address: u8, data: &[u8; 3]) -> Result<[u8; 7], u8> {
        self.log
            .borrow_mut()
            .push(Event::WriteRead(address, data.to_vec()));
        self.response
    }
}

struct MockDelay {
    log: Rc<RefCell<Vec<Event>>>,
}

impl DelayMs for MockDelay {
    fn delay_ms(&mut self, ms: u32) {
        self.log.borrow_mut().push(Event::Delay(ms));
    }
}

const CALIBRATED_RESPONSE: [u8; 7] = [0x08, 0x19, 0x99, 0x9A, 0x19, 0x99, 0x00];

fn fresh_driver(
    response: Result<[u8; 7], u8>,
) -> (AHT10<MockBus, MockDelay>, Rc<RefCell<Vec<Event>>>) {
    let log = Rc::new(RefCell::new(Vec::new()));
    let bus = MockBus::new(log.clone(), response);
    let delay = MockDelay { log: log.clone() };
    let dev = AHT10::new(bus, delay).expect("handshake should succeed");
    log.borrow_mut().clear();
    (dev, log)
}

#[test]
fn new_issues_handshake_in_order() {
    let log = Rc::new(RefCell::new(Vec::new()));
    let bus = MockBus::new(log.clone(), Ok(CALIBRATED_RESPONSE));
    let delay = MockDelay { log: log.clone() };
    let dev = AHT10::new(bus, delay);
    assert!(dev.is_ok());
    assert_eq!(
        *log.borrow(),
        vec![
            Event::Write(I2C_ADDRESS, vec![0xA8, 0x00, 0x00]),
            Event::Delay(300),
            Event::Write(I2C_ADDRESS, vec![0xE1, 0x08, 0x00]),
            Event::Delay(300),
        ]
    );
}

#[test]
fn new_short_circuits_when_trigger_write_fails() {
    let log = Rc::new(RefCell::new(Vec::new()));
    let mut bus = MockBus::new(log.clone(), Ok(CALIBRATED_RESPONSE));
    bus.fail_write_at = Some(0);
    let delay = MockDelay { log: log.clone() };
    let dev = AHT10::new(bus, delay);
    assert_eq!(dev.err(), Some(7));
    assert_eq!(*log.borrow(), vec![Event::Write(I2C_ADDRESS, vec![0xA8, 0x00, 0x00])]);
}

#[test]
fn new_short_circuits_when_calibrate_write_fails() {
    let log = Rc::new(RefCell::new(Vec::new()));
    let mut bus = MockBus::new(log.clone(), Ok(CALIBRATED_RESPONSE));
    bus.fail_write_at = Some(1);
    let delay = MockDelay { log: log.clone() };
    let dev = AHT10::new(bus, delay);
    assert!(dev.is_err());
    assert_eq!(
        *log.borrow(),
        vec![
            Event::Write(I2C_ADDRESS, vec![0xA8, 0x00, 0x00]),
            Event::Delay(300),
            Event::Write(I2C_ADDRESS, vec![0xE1, 0x08, 0x00]),
        ]
    );
}

#[test]
fn reset_issues_one_write_then_short_delay() {
    let (mut dev, log) = fresh_driver(Ok(CALIBRATED_RESPONSE));
    assert!(dev.reset().is_ok());
    assert_eq!(
        *log.borrow(),
        vec![Event::Write(I2C_ADDRESS, vec![0xBA, 0x00, 0x00]), Event::Delay(20)]
    );
}

#[test]
fn read_issues_one_combined_transaction() {
    let (mut dev, log) = fresh_driver(Ok(CALIBRATED_RESPONSE));
    let r = dev.read();
    assert!(r.is_ok());
    assert_eq!(
        *log.borrow(),
        vec![Event::WriteRead(I2C_ADDRESS, vec![0xAC, 0xFF, 0x00])]
    );
}

#[test]
fn read_decodes_packed_counts() {
    let (mut dev, _log) = fresh_driver(Ok(CALIBRATED_RESPONSE));
    let (h, t) = dev.read().ok().expect("calibrated response should decode");
    assert_eq!(h.raw(), (0x19u32 << 12) | (0x99u32 << 4) | (0x9Au32 >> 4));
    assert_eq!(h.raw(), 0x19999);
    assert_eq!(t.raw(), ((0x9Au32 & 0x0F) << 16) | (0x19u32 << 8) | 0x99u32);
    assert_eq!(t.raw(), 0xA1999);
}

#[test]
fn read_rejects_uncalibrated_status() {
    let uncal = [0xF7, 0x19, 0x99, 0x9A, 0x19, 0x99, 0x00];
    let (mut dev, _log) = fresh_driver(Ok(uncal));
    let r = dev.read();
    assert!(matches!(r, Err(Error::Uncalibrated())));
}

#[test]
fn read_passes_bus_error_through() {
    let (mut dev, _log) = fresh_driver(Err(9));
    let r = dev.read();
    assert!(matches!(r, Err(Error::BusError(9))));
}

#[test]
fn decode_response_unpacks_known_bytes() {
    let (h, t) = decode_response(&CALIBRATED_RESPONSE).expect("calibration bit is set");
    assert_eq!(h.raw(), (0x19u32 << 12) | (0x99u32 << 4) | (0x9Au32 >> 4));
    assert_eq!(t.raw(), ((0x9Au32 & 0x0F) << 16) | (0x19u32 << 8) | 0x99u32);
}

#[test]
fn decode_response_rejects_any_uncalibrated_status() {
    for status in 0u8..=255 {
        let buf = [status, 0xFF, 0xFF, 0xFF, 0xFF, 0xFF, 0xFF];
        let decoded = decode_response(&buf);
        if status & 0x08 == 0 {
            assert!(decoded.is_none());
        } else {
            assert!(decoded.is_some());
        }
    }
}

#[test]
fn raw_round_trip_is_lossless() {
    for raw in [0u32, 1, 0x19999, 0xA1999, 0xFFFFF] {
        assert_eq!(Humidity::from_raw(raw).raw(), raw);
        assert_eq!(Temperature::from_raw(raw).raw(), raw);
    }
}

#[test]
fn encode_command_lays_out_big_endian() {
    assert_eq!(encode_command(Command::GetRaw, 0), [0xA8, 0x00, 0x00]);
    assert_eq!(encode_command(Command::Calibrate, 0x0800), [0xE1, 0x08, 0x00]);
    assert_eq!(encode_command(Command::Reset, 0), [0xBA, 0x00, 0x00]);
    assert_eq!(encode_command(Command::GetCT, 0x1234), [0xAC, 0x12, 0x34]);
}

#[test]
fn command_opcodes_match_wire_values() {
    assert_eq!(Command::Calibrate.opcode(), 0b1110_0001);
    assert_eq!(Command::GetRaw.opcode(), 0b1010_1000);
    assert_eq!(Command::GetCT.opcode(), 0b1010_1100);
    assert_eq!(Command::Reset.opcode(), 0b1011_1010);
}

#[test]
fn status_flags_pick_out_named_bits() {
    let flags = StatusFlags::from_byte(0b1010_1010);
    assert_eq!(flags.bits(), 0xAA);
    assert!(flags.busy());
    assert_eq!(flags.mode(), 0b01);
    assert!(!flags.crc());
    assert!(flags.calibration_enabled());
    assert!(!flags.fifo_enabled());
    assert!(flags.fifo_full());
    assert!(!flags.fifo_empty());

    let flags = StatusFlags::from_byte(0b0101_0101);
    assert!(!flags.busy());
    assert_eq!(flags.mode(), 0b10);
    assert!(flags.crc());
    assert!(!flags.calibration_enabled());
    assert!(flags.fifo_enabled());
    assert!(!flags.fifo_full());
    assert!(flags.fifo_empty());
}

#[test]
fn bus_error_wraps_through_from() {
    let e: Error<u8> = Error::from(3u8);
    assert!(matches!(e, Error::BusError(3)));
}
