//! The serial port.

use std::sync::{Arc, Mutex};
use vibe_emu::serial::{LinkPort, NullLinkPort, Serial};
use vibe_emu::hardware::DmgRevision;

struct FixedInLinkPort {
    ret: u8,
    calls: usize,
    last_out: Option<u8>,
}

impl FixedInLinkPort {
    fn new(ret: u8) -> Self {
        Self {
            ret,
            calls: 0,
            last_out: None,
        }
    }
}

impl LinkPort for FixedInLinkPort {
    fn transfer(&mut self, byte: u8) -> u8 {
        self.calls += 1;
        self.last_out = Some(byte);
        self.ret
    }
}

#[test]
fn sc_write_during_active_transfer_does_not_cancel() {
    let mut serial = Serial::new(false, DmgRevision::default());
    serial.connect(Box::new(FixedInLinkPort::new(0x34)));

    serial.write(0xFF01, 0x12);
    serial.write(0xFF02, 0x80 | 0x01);

    // Attempt to clear SC mid-transfer. The transfer should be cancelled
    // and must not complete later.
    serial.write(0xFF02, 0x00);
    assert_eq!(serial.read(0xFF02) & 0x80, 0);

    let mut if_reg = 0u8;
    serial.step(0, 4096, false, &mut if_reg);
    assert_eq!(serial.read(0xFF02) & 0x80, 0);
    assert_eq!(if_reg & 0x08, 0);
}

#[test]
fn internal_clock_transfer_completes_and_requests_irq() {
    let mut serial = Serial::new(false, DmgRevision::default());
    serial.connect(Box::new(FixedInLinkPort::new(0x34)));

    serial.write(0xFF01, 0x12);
    serial.write(0xFF02, 0x80 | 0x01);

    let mut if_reg = 0u8;
    // For DMG internal clock, we clock on DIV bit 8 falling edges.
    // 8 bits = 8 falling edges = 8 * 512 DIV increments.
    serial.step(0, 4096, false, &mut if_reg);

    assert_eq!(serial.read(0xFF02) & 0x80, 0);
    assert_ne!(if_reg & 0x08, 0);
    assert_eq!(serial.read(0xFF01), 0x34);
}

#[test]
fn external_clock_stalls_without_pulses() {
    let mut serial = Serial::new(false, DmgRevision::default());
    serial.connect(Box::new(FixedInLinkPort::new(0x34)));

    serial.write(0xFF01, 0x12);
    serial.write(0xFF02, 0x80);

    let mut if_reg = 0u8;
    serial.step(0, 60000, false, &mut if_reg);

    assert_ne!(serial.read(0xFF02) & 0x80, 0);
    assert_eq!(if_reg & 0x08, 0);
}

#[test]
fn external_clock_completes_with_pulses() {
    let mut serial = Serial::new(false, DmgRevision::default());
    serial.connect(Box::new(FixedInLinkPort::new(0x34)));

    serial.write(0xFF01, 0x12);
    serial.write(0xFF02, 0x80);

    let mut if_reg = 0u8;
    serial.external_clock_pulse(7, &mut if_reg);
    assert_ne!(serial.read(0xFF02) & 0x80, 0);
    assert_eq!(if_reg & 0x08, 0);

    serial.external_clock_pulse(1, &mut if_reg);
    assert_eq!(serial.read(0xFF02) & 0x80, 0);
    assert_ne!(if_reg & 0x08, 0);
    assert_eq!(serial.read(0xFF01), 0x34);
}

#[test]
fn internal_clock_irq_only_on_final_bit_dmg() {
    let mut serial = Serial::new(false, DmgRevision::default());
    serial.connect(Box::new(FixedInLinkPort::new(0x34)));

    serial.write(0xFF01, 0x12);
    serial.write(0xFF02, 0x80 | 0x01);

    let mut if_reg = 0u8;
    // 7 bits worth of falling edges: 7 * 512 DIV increments.
    serial.step(0, 3584, false, &mut if_reg);
    assert_ne!(serial.read(0xFF02) & 0x80, 0);
    assert_eq!(if_reg & 0x08, 0);

    // Final bit.
    serial.step(3584, 4096, false, &mut if_reg);
    assert_eq!(serial.read(0xFF02) & 0x80, 0);
    assert_ne!(if_reg & 0x08, 0);
    assert_eq!(serial.read(0xFF01), 0x34);
}

#[test]
fn internal_clock_rate_cgb_normal_speed() {
    let mut serial = Serial::new(true, DmgRevision::default());
    serial.connect(Box::new(FixedInLinkPort::new(0x34)));

    serial.write(0xFF01, 0x12);
    // CGB internal, normal clock.
    serial.write(0xFF02, 0x80 | 0x01);

    let mut if_reg = 0u8;
    // CGB normal clock uses DIV bit 8: 8 bits -> 8 * 512 increments.
    serial.step(0, 4095, false, &mut if_reg);
    assert_ne!(serial.read(0xFF02) & 0x80, 0);
    assert_eq!(if_reg & 0x08, 0);

    serial.step(4095, 4096, false, &mut if_reg);
    assert_eq!(serial.read(0xFF02) & 0x80, 0);
    assert_ne!(if_reg & 0x08, 0);
    assert_eq!(serial.read(0xFF01), 0x34);
}

#[test]
fn internal_clock_rate_cgb_double_speed() {
    let mut serial = Serial::new(true, DmgRevision::default());
    serial.connect(Box::new(FixedInLinkPort::new(0x34)));

    serial.write(0xFF01, 0x12);
    // CGB internal, normal clock (fast bit clear) in double-speed mode.
    serial.write(0xFF02, 0x80 | 0x01);

    let mut if_reg = 0u8;
    // In double-speed, CGB normal clock uses DIV bit 7: 8 bits -> 8 * 256.
    serial.step(0, 2047, true, &mut if_reg);
    assert_ne!(serial.read(0xFF02) & 0x80, 0);
    assert_eq!(if_reg & 0x08, 0);

    serial.step(2047, 2048, true, &mut if_reg);
    assert_eq!(serial.read(0xFF02) & 0x80, 0);
    assert_ne!(if_reg & 0x08, 0);
    assert_eq!(serial.read(0xFF01), 0x34);
}

#[test]
fn internal_clock_rate_cgb_fast_clock() {
    let mut serial = Serial::new(true, DmgRevision::default());
    serial.connect(Box::new(FixedInLinkPort::new(0x34)));

    serial.write(0xFF01, 0x12);
    // CGB internal + fast clock (SC bit1).
    serial.write(0xFF02, 0x80 | 0x01 | 0x02);

    let mut if_reg = 0u8;
    // Fast clock uses DIV bit 3 in normal speed: falling edges every 16.
    // 8 bits -> 8 * 16 = 128 increments.
    serial.step(0, 127, false, &mut if_reg);
    assert_ne!(serial.read(0xFF02) & 0x80, 0);
    assert_eq!(if_reg & 0x08, 0);

    serial.step(127, 128, false, &mut if_reg);
    assert_eq!(serial.read(0xFF02) & 0x80, 0);
    assert_ne!(if_reg & 0x08, 0);
    assert_eq!(serial.read(0xFF01), 0x34);
}

#[test]
fn open_bus_no_partner_internal_clock_receives_ff() {
    let mut serial = Serial::<NullLinkPort>::new(false, DmgRevision::default());
    // No connect(): an open cable shifts in 1s.
    serial.write(0xFF01, 0x12);
    serial.write(0xFF02, 0x80 | 0x01);

    let mut if_reg = 0u8;
    serial.step(0, 4096, false, &mut if_reg);

    assert_ne!(if_reg & 0x08, 0);
    assert_eq!(serial.read(0xFF01), 0xFF);
}

#[test]
fn open_bus_no_partner_external_clock_receives_ff() {
    let mut serial = Serial::<NullLinkPort>::new(false, DmgRevision::default());
    // No connect(): an open cable shifts in 1s.
    serial.write(0xFF01, 0x12);
    serial.write(0xFF02, 0x80);

    let mut if_reg = 0u8;
    serial.external_clock_pulse(8, &mut if_reg);

    assert_ne!(if_reg & 0x08, 0);
    assert_eq!(serial.read(0xFF01), 0xFF);
}

#[test]
fn sc_write_with_bit7_restarts_transfer_using_current_sb() {
    let mut serial = Serial::new(false, DmgRevision::default());
    serial.connect(Box::new(FixedInLinkPort::new(0x34)));

    serial.write(0xFF01, 0x12);
    serial.write(0xFF02, 0x80 | 0x01);

    let mut if_reg = 0u8;
    // Advance one bit.
    serial.step(0, 512, false, &mut if_reg);
    assert_eq!(if_reg & 0x08, 0);

    // Update SB and restart.
    serial.write(0xFF01, 0x55);
    serial.write(0xFF02, 0x80 | 0x01);

    // Complete transfer.
    serial.step(512, 512 + 4096, false, &mut if_reg);
    assert_ne!(if_reg & 0x08, 0);
    // Output buffer records the outgoing byte that was actually used.
    assert_eq!(serial.peek_output().last().copied(), Some(0x55));
}

/// A partner that answers with its replies in turn and keeps what it is asked.
struct Partner {
    asked: Arc<Mutex<Vec<u8>>>,
    replies: Vec<u8>,
}

impl LinkPort for Partner {
    fn transfer(&mut self, byte: u8) -> u8 {
        let mut asked = self.asked.lock().unwrap();
        let reply = self.replies[asked.len() % self.replies.len()];
        asked.push(byte);
        reply
    }
}

fn with_partner(replies: &[u8]) -> (Serial<Partner>, Arc<Mutex<Vec<u8>>>) {
    let asked = Arc::new(Mutex::new(Vec::new()));
    let mut serial = Serial::new(false, DmgRevision::default());
    serial.connect(Box::new(Partner { asked: Arc::clone(&asked), replies: replies.to_vec() }));
    (serial, asked)
}

#[test]
fn the_partner_is_asked_once_per_transfer() {
    let (mut serial, asked) = with_partner(&[0x34, 0x56]);
    let mut if_reg = 0u8;
    serial.write(0xFF01, 0x12);
    serial.write(0xFF02, 0x81);
    // Pulses are nothing to an internal-clock transfer.
    serial.external_clock_pulse(8, &mut if_reg);
    assert!(asked.lock().unwrap().is_empty());
    let mut div = 0u16;
    while serial.read(0xFF02) & 0x80 != 0 {
        serial.step(div, div + 100, false, &mut if_reg);
        div += 100;
        assert_eq!(*asked.lock().unwrap(), [0x12]);
    }
    assert_eq!(div, 4100);
    assert_eq!(serial.read(0xFF01), 0x34);
    // Without a transfer nobody is asked.
    serial.step(div, div + 1000, false, &mut if_reg);
    assert_eq!(*asked.lock().unwrap(), [0x12]);

    serial.write(0xFF01, 0x9A);
    serial.write(0xFF02, 0x80);
    serial.step(0, 5000, false, &mut if_reg);
    assert_eq!(*asked.lock().unwrap(), [0x12]);
    for _ in 0..8 {
        serial.external_clock_pulse(1, &mut if_reg);
        assert_eq!(*asked.lock().unwrap(), [0x12, 0x9A]);
    }
    assert_eq!(serial.read(0xFF01), 0x56);
}

#[test]
fn a_split_step_is_one_step() {
    for cut in [0u16, 1, 511, 512, 2000, 4095, 4096] {
        let (mut split, split_asked) = with_partner(&[0xA5]);
        let (mut whole, whole_asked) = with_partner(&[0xA5]);
        let mut split_if = 0xE0u8;
        let mut whole_if = 0xE0u8;
        for serial in [&mut split, &mut whole] {
            serial.write(0xFF01, 0x3C);
            serial.write(0xFF02, 0x81);
        }
        split.step(0, cut, false, &mut split_if);
        split.step(cut, 4096, false, &mut split_if);
        whole.step(0, 4096, false, &mut whole_if);
        assert_eq!(split.read(0xFF01), whole.read(0xFF01));
        assert_eq!(split.read(0xFF02), whole.read(0xFF02));
        assert_eq!(split.peek_output(), whole.peek_output());
        assert_eq!(split_if, whole_if);
        assert_eq!(whole_if, 0xE8);
        assert_eq!(*split_asked.lock().unwrap(), *whole_asked.lock().unwrap());
    }
}

#[test]
fn the_output_is_what_completed_transfers_sent() {
    let (mut serial, _) = with_partner(&[0x00]);
    let mut if_reg = 0u8;
    for byte in [0x11u8, 0x22] {
        serial.write(0xFF01, byte);
        serial.write(0xFF02, 0x81);
        serial.step(0, 4096, false, &mut if_reg);
    }
    // A cancelled transfer sends nothing.
    serial.write(0xFF01, 0x33);
    serial.write(0xFF02, 0x81);
    serial.step(0, 2048, false, &mut if_reg);
    serial.write(0xFF02, 0x01);
    serial.step(2048, 8192, false, &mut if_reg);
    serial.write(0xFF01, 0x44);
    serial.write(0xFF02, 0x80);
    serial.external_clock_pulse(8, &mut if_reg);
    // Nor does an unfinished one.
    serial.write(0xFF01, 0x55);
    serial.write(0xFF02, 0x80);
    serial.external_clock_pulse(7, &mut if_reg);
    assert_eq!(serial.take_output(), vec![0x11, 0x22, 0x44]);
    assert!(serial.take_output().is_empty());
    serial.external_clock_pulse(1, &mut if_reg);
    assert_eq!(serial.take_output(), vec![0x55]);
}
