//! Tests for the positioning receiver: fix status codes, the latest-fix
//! slot, the binary protocol frames, and the acknowledgment wait.

use os_balloon::frame::{ack_frame, build_frame, compute_checksum, AckPoll, AckWait};
use os_balloon::gps::{
    airborne_frame, config_frames, power_action, FixStatus, Frame, Gps, GpsInit, GpsInitEvent,
    GpsInitStep, PowerAction, ACK_INNER_MS, ACK_OUTER_MS, CONFIG_FRAME_REPEATS,
};

/// Checks the fix status from string conversion.
#[test]
fn gps_status_from_str() {
    assert_eq!(FixStatus::parse("A").unwrap(), FixStatus::Active);
    assert_eq!(FixStatus::parse("V").unwrap(), FixStatus::Void);

    // Check errors.
    assert!(FixStatus::parse("").is_err());
    assert!(FixStatus::parse("invalid").is_err());
    assert!(FixStatus::parse("a").is_err());
    assert!(FixStatus::parse("Ab").is_err());
}

/// Checks the fix status to string conversion.
#[test]
fn gps_status_display() {
    assert_eq!(FixStatus::Active.as_str(), "A");
    assert_eq!(FixStatus::Void.as_str(), "V");
}

/// A fix snapshot for tests; only the status matters to the latest-fix slot.
fn fix(status: FixStatus, fix_time: i64) -> Frame {
    Frame {
        fix_time,
        status,
        satellites: 7,
        latitude: 23_444_970,
        longitude: 100_057_920,
        altitude: 1_500_340,
        pdop: 3210,
        hdop: 2100,
        vdop: 1900,
        speed: 13_500,
        course: 1650,
    }
}

/// An active frame lands in the latest-fix slot; a void frame clears it.
#[test]
fn latest_fix_updates() {
    let mut gps = Gps::new();
    assert_eq!(gps.latest_data(), None);

    gps.handle_frame(fix(FixStatus::Active, 100));
    assert_eq!(gps.latest_data().unwrap().fix_time(), 100);

    gps.handle_frame(fix(FixStatus::Void, 200));
    assert_eq!(gps.latest_data(), None);
}

/// Feeding a sequence whose last frame is void leaves no latest fix, even
/// though earlier frames were active.
#[test]
fn latest_fix_freshness() {
    let mut gps = Gps::new();
    let frames = vec![
        fix(FixStatus::Active, 1),
        fix(FixStatus::Active, 2),
        fix(FixStatus::Void, 3),
    ];
    gps.handle_frames(&frames);
    assert_eq!(gps.latest_data(), None);

    let frames = vec![fix(FixStatus::Void, 4), fix(FixStatus::Active, 5)];
    gps.handle_frames(&frames);
    assert_eq!(gps.latest_data().unwrap().fix_time(), 5);
}

/// A frame exposes the fix quantities it was built from.
#[test]
fn frame_getters() {
    let f = fix(FixStatus::Active, 42);
    assert!(f.is_valid());
    assert_eq!(f.status(), FixStatus::Active);
    assert_eq!(f.satellites(), 7);
    assert_eq!(f.latitude(), 23_444_970);
    assert_eq!(f.longitude(), 100_057_920);
    assert_eq!(f.altitude(), 1_500_340);
    assert_eq!(f.pdop(), 3210);
    assert_eq!(f.hdop(), 2100);
    assert_eq!(f.vdop(), 1900);
    assert_eq!(f.speed(), 13_500);
    assert_eq!(f.course(), 1650);
    assert!(!fix(FixStatus::Void, 43).is_valid());
}

/// The checksum over a fixed sample frame matches the precomputed reference
/// pair, and computing it twice yields the same pair.
#[test]
fn checksum_reference_value() {
    let frame = airborne_frame();
    // The checksum spans everything from the class byte to the payload end.
    let body = &frame[2..frame.len() - 2];
    let first = compute_checksum(body);
    let second = compute_checksum(body);
    assert_eq!(first, (0x16, 0xDC));
    assert_eq!(first, second);
}

/// The frame builder reproduces the update-rate configuration frame byte for
/// byte, checksum included.
#[test]
fn refresh_frame_bytes() {
    let frames = config_frames();
    assert_eq!(frames.len(), 5);
    assert_eq!(
        frames[0],
        vec![0xB5, 0x62, 0x06, 0x08, 0x06, 0x00, 0x64, 0x00, 0x01, 0x00, 0x01, 0x00, 0x7A, 0x12]
    );
    assert_eq!(
        frames[1],
        vec![0xB5, 0x62, 0x05, 0x01, 0x02, 0x00, 0x06, 0x01, 0x0F, 0x38]
    );
    assert_eq!(
        frames[2],
        vec![0xB5, 0x62, 0x06, 0x01, 0x03, 0x00, 0xF0, 0x01, 0x00, 0xFB, 0x11]
    );
    assert_eq!(
        frames[3],
        vec![0xB5, 0x62, 0x06, 0x01, 0x03, 0x00, 0xF0, 0x03, 0x00, 0xFD, 0x15]
    );
    assert_eq!(
        frames[4],
        vec![0xB5, 0x62, 0x06, 0x01, 0x03, 0x00, 0xF0, 0x05, 0x00, 0xFF, 0x19]
    );
}

/// The airborne platform model frame carries its documented payload length
/// and checksum.
#[test]
fn airborne_frame_bytes() {
    let frame = airborne_frame();
    assert_eq!(frame.len(), 44);
    assert_eq!(&frame[0..6], &[0xB5, 0x62, 0x06, 0x24, 0x24, 0x00]);
    assert_eq!(&frame[42..44], &[0x16, 0xDC]);
}

/// The expected acknowledgment for the airborne frame has the fixed 10-byte
/// shape with its own checksum over bytes 2 through 7.
#[test]
fn ack_frame_bytes() {
    let ack = ack_frame(0x06, 0x24);
    assert_eq!(
        ack,
        vec![0xB5, 0x62, 0x05, 0x01, 0x02, 0x00, 0x06, 0x24, 0x32, 0x5B]
    );
}

/// A frame built from a payload embeds its little-endian length.
#[test]
fn build_frame_length() {
    let payload = vec![0xAA; 300];
    let frame = build_frame(0x01, 0x02, &payload);
    assert_eq!(frame.len(), 308);
    assert_eq!(frame[4], 0x2C);
    assert_eq!(frame[5], 0x01);
}

/// A channel that never produces the expected sequence makes the wait fail
/// at the outer deadline: not earlier, not indefinitely.
#[test]
fn ack_wait_bounded() {
    let expected = ack_frame(0x06, 0x24);
    let mut wait = AckWait::new(expected, 0, ACK_OUTER_MS, ACK_INNER_MS);

    assert_eq!(wait.poll(0), AckPoll::Read);
    let garbage = [0x00u8; 64];
    assert!(!wait.feed_bytes(&garbage));

    // The inner window elapses: resend, then keep reading.
    assert_eq!(wait.poll(ACK_INNER_MS), AckPoll::Resend);
    wait.resent(ACK_INNER_MS);
    assert!(!wait.feed_bytes(&garbage));
    assert_eq!(wait.poll(ACK_OUTER_MS - 1), AckPoll::Read);

    // The outer deadline elapses without a full match: failure, exactly now.
    assert_eq!(wait.poll(ACK_OUTER_MS), AckPoll::Failed);
    assert_eq!(wait.poll(ACK_OUTER_MS + 1000), AckPoll::Failed);
}

/// The expected sequence fed byte by byte completes the wait.
#[test]
fn ack_wait_success() {
    let expected = ack_frame(0x06, 0x24);
    let bytes = expected.clone();
    let mut wait = AckWait::new(expected, 0, ACK_OUTER_MS, ACK_INNER_MS);
    assert!(wait.feed_bytes(&bytes));
    assert!(wait.complete());
    assert_eq!(wait.poll(100), AckPoll::Done);
}

/// A byte that ends a failed partial match is re-examined as the start of a
/// fresh attempt.
#[test]
fn ack_sliding_match() {
    let expected = ack_frame(0x06, 0x24);
    let mut wait = AckWait::new(expected, 0, ACK_OUTER_MS, ACK_INNER_MS);

    // Two good bytes, then the sync byte again: the match restarts at one.
    wait.on_byte(0xB5);
    wait.on_byte(0x62);
    assert_eq!(wait.matched, 2);
    wait.on_byte(0xB5);
    assert_eq!(wait.matched, 1);

    // A byte that matches nowhere resets the match to zero.
    wait.on_byte(0x99);
    assert_eq!(wait.matched, 0);
}

/// Noise around the acknowledgment does not stop the scan from finding it.
#[test]
fn ack_found_amid_noise() {
    let expected = ack_frame(0x06, 0x24);
    let mut bytes = vec![0x01, 0xB5, 0x62, 0x00];
    bytes.extend_from_slice(&expected);
    bytes.push(0x77);
    let mut wait = AckWait::new(expected, 0, ACK_OUTER_MS, ACK_INNER_MS);
    assert!(wait.feed_bytes(&bytes));
}

/// Switching power to the state the pin already has is a warning, not a
/// write.
#[test]
fn power_action_decisions() {
    assert_eq!(power_action(true, true), PowerAction::WarnAlready);
    assert_eq!(power_action(false, false), PowerAction::WarnAlready);
    assert_eq!(power_action(false, true), PowerAction::SetPin(true));
    assert_eq!(power_action(true, false), PowerAction::SetPin(false));
}

/// A full bring-up session: power cycle, serial, the redundant configuration
/// writes, and the best-effort airborne step.
#[test]
fn gps_init_walkthrough() {
    let mut session = GpsInit::new();
    assert_eq!(session.step, GpsInitStep::SetPinDirection);
    session.advance(GpsInitEvent::Completed);
    assert_eq!(session.step, GpsInitStep::CheckPower);
    session.advance(GpsInitEvent::PowerIs(true));
    assert_eq!(session.step, GpsInitStep::PowerOffSettle);
    session.advance(GpsInitEvent::Completed);
    assert_eq!(session.step, GpsInitStep::PowerOn);
    session.advance(GpsInitEvent::Completed);
    assert_eq!(session.step, GpsInitStep::OpenSerial);
    session.advance(GpsInitEvent::Completed);
    assert_eq!(session.step, GpsInitStep::SendConfig { msg: 0, repeat: 0 });

    // Each of the five frames is written the full redundant count of times.
    let mut writes: u32 = 0;
    while let GpsInitStep::SendConfig { .. } = session.step {
        session.advance(GpsInitEvent::Completed);
        writes += 1;
    }
    assert_eq!(writes, 5 * CONFIG_FRAME_REPEATS);
    assert_eq!(session.step, GpsInitStep::EnterAirborne);

    // The airborne step is best effort: even a failure finishes bring-up.
    session.advance(GpsInitEvent::AirborneDone(false));
    assert_eq!(session.step, GpsInitStep::Done);
    assert!(session.finished());
    assert_eq!(session.error(), None);
}

/// A failed action anywhere else is fatal to the bring-up.
#[test]
fn gps_init_failure() {
    let mut session = GpsInit::new();
    session.advance(GpsInitEvent::Completed);
    session.advance(GpsInitEvent::PowerIs(false));
    assert_eq!(session.step, GpsInitStep::PowerOn);
    session.advance(GpsInitEvent::Errored);
    assert_eq!(session.step, GpsInitStep::Failed);
    assert!(session.finished());
    assert_eq!(session.error(), Some(os_balloon::error::Gps::Init));
}
