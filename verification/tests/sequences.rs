use fleet_clock::controller::{EpdController, Phase, VcomPolicy};
use fleet_clock::event::{Event, TransmitError};
use fleet_clock::frame::{resolution_bytes, Geometry};
use fleet_clock::mock::MockInterface;

fn push_command(v: &mut Vec<Event>, opcode: u8, payload: Option<&[u8]>) {
    v.push(Event::Deselect);
    v.push(Event::CommandMode);
    v.push(Event::Select);
    v.push(Event::Byte(opcode));
    v.push(Event::DataMode);
    if let Some(data) = payload {
        for &b in data {
            v.push(Event::Byte(b));
        }
    }
    v.push(Event::Deselect);
}

fn expected_init(width: u8, height_high: u8, height_low: u8) -> Vec<Event> {
    let mut v = Vec::new();
    push_command(&mut v, 0x01, Some(&[0x03, 0x00, 0x2b, 0x2b, 0x09]));
    push_command(&mut v, 0x06, Some(&[0x17, 0x17, 0x17]));
    push_command(&mut v, 0x04, None);
    v.push(Event::DelayMs(200));
    push_command(&mut v, 0x00, Some(&[0xCF]));
    push_command(&mut v, 0x50, Some(&[0x37]));
    push_command(&mut v, 0x30, Some(&[0x29]));
    push_command(&mut v, 0x82, Some(&[0x0A]));
    v.push(Event::DelayMs(20));
    push_command(&mut v, 0x61, Some(&[width, height_high, height_low]));
    v
}

#[test]
fn power_up_runs_the_literal_init_script() {
    let mut c = EpdController::new(MockInterface::new());
    c.power_up(Geometry { width: 104, height: 212 }).unwrap();
    assert_eq!(c.bus.log, expected_init(104, 0, 212));
    assert_eq!(c.phase, Phase::Ready);
}

#[test]
fn power_up_failure_is_fatal_and_partial() {
    // The first six transmits cover the three power commands and the
    // panel-setting opcode; the failing seventh is the panel-setting payload,
    // sent after the 200 ms settle delay.
    let mut c = EpdController::new(MockInterface::failing(6, 3));
    let r = c.power_up(Geometry { width: 104, height: 212 });
    assert_eq!(r, Err(TransmitError { code: 3 }));
    assert_eq!(c.phase, Phase::Failed);
    let full = expected_init(104, 0, 212);
    assert!(c.bus.log.len() < full.len());
    assert_eq!(c.bus.log[..], full[..c.bus.log.len()]);
}

#[test]
fn power_up_encodes_tall_height_in_the_resolution_command() {
    let mut c = EpdController::new(MockInterface::new());
    c.power_up(Geometry { width: 104, height: 300 }).unwrap();
    assert_eq!(c.bus.log, expected_init(104, 1, 44));
}

#[test]
fn resolution_payload_small_panel() {
    assert_eq!(resolution_bytes(Geometry { width: 104, height: 212 }), vec![104, 0, 212]);
}

#[test]
fn resolution_payload_splits_tall_height() {
    assert_eq!(resolution_bytes(Geometry { width: 104, height: 300 }), vec![104, 1, 44]);
    assert_eq!(resolution_bytes(Geometry { width: 400, height: 300 }), vec![144, 1, 44]);
}

#[test]
fn refresh_then_power_down_script() {
    let mut c = EpdController::new(MockInterface::new());
    c.power_up(Geometry { width: 104, height: 212 }).unwrap();
    let before = c.bus.log.len();
    c.refresh_and_power_down(VcomPolicy::OpcodeOnly).unwrap();
    let mut tail = Vec::new();
    push_command(&mut tail, 0x12, None);
    tail.push(Event::DelayMs(20_000));
    push_command(&mut tail, 0x50, Some(&[0x17]));
    push_command(&mut tail, 0x82, None);
    push_command(&mut tail, 0x02, None);
    assert_eq!(c.bus.log[before..], tail[..]);
    assert_eq!(c.phase, Phase::Unpowered);
}

#[test]
fn vcom_zero_byte_policy_sends_one_zero() {
    let mut c = EpdController::new(MockInterface::new());
    c.power_up(Geometry { width: 104, height: 212 }).unwrap();
    let before = c.bus.log.len();
    c.refresh_and_power_down(VcomPolicy::ZeroByte).unwrap();
    let mut tail = Vec::new();
    push_command(&mut tail, 0x12, None);
    tail.push(Event::DelayMs(20_000));
    push_command(&mut tail, 0x50, Some(&[0x17]));
    push_command(&mut tail, 0x82, Some(&[0x00]));
    push_command(&mut tail, 0x02, None);
    assert_eq!(c.bus.log[before..], tail[..]);
}
