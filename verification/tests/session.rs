use fleet_clock::controller::{EpdController, Phase, VcomPolicy};
use fleet_clock::event::Event;
use fleet_clock::mock::MockInterface;

fn push_session_command(v: &mut Vec<Event>, opcode: u8, payload: Option<&[u8]>) {
    v.push(Event::Deselect);
    v.push(Event::CommandMode);
    v.push(Event::Select);
    v.push(Event::Byte(opcode));
    v.push(Event::DataMode);
    if let Some(data) = payload {
        for &b in data {
            v.push(Event::Byte(b));
        }
    }
    v.push(Event::Deselect);
}

fn push_power_down(v: &mut Vec<Event>) {
    push_session_command(v, 0x50, Some(&[0x17]));
    push_session_command(v, 0x82, None);
    push_session_command(v, 0x02, None);
}

/// The golden trace of one full demo session on a 104 by 212 panel.
fn golden_session() -> Vec<Event> {
    let mut v = vec![Event::Deselect, Event::DataMode, Event::DelayUs(100)];
    push_power_down(&mut v);
    v.push(Event::DelayMs(100));
    push_session_command(&mut v, 0x01, Some(&[0x03, 0x00, 0x2b, 0x2b, 0x09]));
    push_session_command(&mut v, 0x06, Some(&[0x17, 0x17, 0x17]));
    push_session_command(&mut v, 0x04, None);
    v.push(Event::DelayMs(200));
    push_session_command(&mut v, 0x00, Some(&[0xCF]));
    push_session_command(&mut v, 0x50, Some(&[0x37]));
    push_session_command(&mut v, 0x30, Some(&[0x29]));
    push_session_command(&mut v, 0x82, Some(&[0x0A]));
    v.push(Event::DelayMs(20));
    push_session_command(&mut v, 0x61, Some(&[104, 0, 212]));
    let mut black = vec![0xFFu8; 2756];
    for b in black[..65].iter_mut() {
        *b = 0x00;
    }
    push_session_command(&mut v, 0x10, Some(black.as_slice()));
    v.push(Event::DelayMs(2));
    let mut red = vec![0xFFu8; 2756];
    for b in red[65..130].iter_mut() {
        *b = 0x00;
    }
    push_session_command(&mut v, 0x13, Some(red.as_slice()));
    push_session_command(&mut v, 0x12, None);
    v.push(Event::DelayMs(20_000));
    push_power_down(&mut v);
    v
}

#[test]
fn session_matches_golden_trace() {
    let mut c = EpdController::new(MockInterface::new());
    c.run_session(VcomPolicy::OpcodeOnly).unwrap();
    let golden = golden_session();
    assert_eq!(c.bus.log.len(), golden.len());
    assert_eq!(c.bus.log, golden);
    assert_eq!(c.phase, Phase::Unpowered);
}

#[test]
fn session_byte_stream_matches_literal_segments() {
    let mut c = EpdController::new(MockInterface::new());
    c.run_session(VcomPolicy::OpcodeOnly).unwrap();
    let bytes: Vec<u8> = c
        .bus
        .log
        .iter()
        .filter_map(|e| match e {
            Event::Byte(b) => Some(*b),
            _ => None,
        })
        .collect();
    // 4 power-down bytes, 23 init bytes, two planes of 1 + 2756 bytes each,
    // the refresh opcode, and 4 more power-down bytes.
    assert_eq!(bytes.len(), 5546);
    assert_eq!(
        &bytes[..27],
        &[
            0x50, 0x17, 0x82, 0x02, // defensive power-down
            0x01, 0x03, 0x00, 0x2b, 0x2b, 0x09, // power setting
            0x06, 0x17, 0x17, 0x17, // booster soft-start
            0x04, // power on
            0x00, 0xCF, // panel setting
            0x50, 0x37, // CDI
            0x30, 0x29, // PLL
            0x82, 0x0A, // VCOM DC
            0x61, 104, 0, 212, // resolution
        ]
    );
    // Black/white plane: opcode, five drawn rows, background for the rest.
    assert_eq!(bytes[27], 0x10);
    assert!(bytes[28..28 + 65].iter().all(|&b| b == 0x00));
    assert!(bytes[28 + 65..28 + 2756].iter().all(|&b| b == 0xFF));
    // Red plane: opcode, five background rows, five drawn, background after.
    assert_eq!(bytes[2784], 0x13);
    assert!(bytes[2785..2785 + 65].iter().all(|&b| b == 0xFF));
    assert!(bytes[2785 + 65..2785 + 130].iter().all(|&b| b == 0x00));
    assert!(bytes[2785 + 130..2785 + 2756].iter().all(|&b| b == 0xFF));
    // Refresh, then the closing power-down.
    assert_eq!(&bytes[5541..], &[0x12, 0x50, 0x17, 0x82, 0x02]);
}

#[test]
fn session_failure_leaves_a_prefix_and_fails_the_session() {
    // Fail the transmit of the red plane's opcode.
    let mut c = EpdController::new(MockInterface::failing(21, 11));
    let r = c.run_session(VcomPolicy::OpcodeOnly);
    assert!(r.is_err());
    assert_eq!(c.phase, Phase::Failed);
    let golden = golden_session();
    assert!(c.bus.log.len() < golden.len());
    assert_eq!(c.bus.log[..], golden[..c.bus.log.len()]);
}
