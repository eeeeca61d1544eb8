//! Tests for the modem command-session protocol: line reading, command
//! framing, the SMS and location sessions, and the telemetry parsers.

use os_balloon::error;
use os_balloon::fona::{
    check_command_echo, cmgs_command, frame_command, has_connectivity, parse_cadc_response,
    parse_cbc_response, parse_location_response, sms_payload, LineReader, LocStep,
    LocationSession, ModemInit, ModemInitStep, SmsSend, SmsStep,
};
use os_balloon::strutil::{comma_field, parse_decimal_micro};

/// A line ends at the line feed; the carriage return is discarded.
#[test]
fn line_reader_crlf() {
    let mut reader = LineReader::new();
    assert_eq!(reader.push_byte(b'O'), None);
    assert_eq!(reader.push_byte(b'K'), None);
    assert_eq!(reader.push_byte(b'\r'), None);
    assert_eq!(reader.push_byte(b'\n'), Some(b"OK".to_vec()));

    // The buffer starts over for the next line.
    assert_eq!(reader.push_byte(b'\n'), Some(Vec::new()));
}

/// A timed-out read becomes a partial-response error carrying the text read
/// so far.
#[test]
fn line_reader_timeout_partial() {
    let mut reader = LineReader::new();
    let _ = reader.push_byte(b'A');
    let _ = reader.push_byte(b'T');
    match reader.on_timeout() {
        Some(error::Fona::PartialResponse { response }) => assert_eq!(response, "AT"),
        other => panic!("expected a partial response, got {:?}", other),
    }
    // The partial bytes were consumed.
    assert_eq!(reader.push_byte(b'\n'), Some(Vec::new()));
}

/// A command goes to the wire with the CRLF terminator.
#[test]
fn frame_command_crlf() {
    assert_eq!(frame_command("AT"), b"AT\r\n".to_vec());
    assert_eq!(frame_command("ATE0"), b"ATE0\r\n".to_vec());
}

/// The echo line after a command must be empty.
#[test]
fn command_echo_check() {
    assert!(check_command_echo("").is_ok());
    assert_eq!(
        check_command_echo("noise"),
        Err(error::Fona::SendCommandCrlf)
    );
}

/// Exactly the home-network and roaming registration codes count as
/// connectivity.
#[test]
fn connectivity_codes() {
    assert!(has_connectivity("+CREG: 0,1"));
    assert!(has_connectivity("+CREG: 0,5"));
    assert!(!has_connectivity("+CREG: 0,2"));
    assert!(!has_connectivity("OK"));
    assert!(!has_connectivity(""));
}

/// The battery-charge reply yields its voltage field in millivolts; any
/// deviation is the invalid-response error.
#[test]
fn cbc_parsing() {
    assert_eq!(parse_cbc_response("+CBC:,3925").unwrap(), 3925);
    assert_eq!(
        parse_cbc_response("+CBC: 0,82,3925"),
        Err(error::Fona::CBCInvalidResponse)
    );
    assert_eq!(
        parse_cbc_response("+CBC:"),
        Err(error::Fona::CBCInvalidResponse)
    );
    assert_eq!(
        parse_cbc_response("+CBC:,abc"),
        Err(error::Fona::CBCInvalidResponse)
    );
    assert_eq!(
        parse_cbc_response("OK"),
        Err(error::Fona::CBCInvalidResponse)
    );
}

/// The converter reply parses the same way under its own prefix and error.
#[test]
fn cadc_parsing() {
    assert_eq!(parse_cadc_response("+CADC=1,2750").unwrap(), 2750);
    assert_eq!(
        parse_cadc_response("+CADC=0,2750"),
        Err(error::Fona::CADCInvalidResponse)
    );
    assert_eq!(
        parse_cadc_response("+CADC=1"),
        Err(error::Fona::CADCInvalidResponse)
    );
    assert_eq!(
        parse_cadc_response("+CADC=1,"),
        Err(error::Fona::CADCInvalidResponse)
    );
}

/// Decimal strings parse to micro-units, fractions kept to six digits.
#[test]
fn decimal_micro_parsing() {
    assert_eq!(parse_decimal_micro("41.27"), Some(41_270_000));
    assert_eq!(parse_decimal_micro("-3.5"), Some(-3_500_000));
    assert_eq!(parse_decimal_micro("+2"), Some(2_000_000));
    assert_eq!(parse_decimal_micro("0.000001"), Some(1));
    assert_eq!(parse_decimal_micro("12.3456789"), Some(12_345_678));
    assert_eq!(parse_decimal_micro("1."), Some(1_000_000));
    assert_eq!(parse_decimal_micro(".5"), Some(500_000));
    assert_eq!(parse_decimal_micro(""), None);
    assert_eq!(parse_decimal_micro("-"), None);
    assert_eq!(parse_decimal_micro("abc"), None);
    assert_eq!(parse_decimal_micro("1.2.3"), None);
}

/// Comma-separated fields come out by index; a missing field is `None`.
#[test]
fn comma_fields() {
    assert_eq!(comma_field("a,b,c", 0), Some("a"));
    assert_eq!(comma_field("a,b,c", 1), Some("b"));
    assert_eq!(comma_field("a,b,c", 2), Some("c"));
    assert_eq!(comma_field("a,b,c", 3), None);
    assert_eq!(comma_field("", 0), Some(""));
    assert_eq!(comma_field("", 1), None);
}

/// The location reply's second field is the longitude and its third the
/// latitude, in micro-degrees.
#[test]
fn location_response_parsing() {
    let loc = parse_location_response("0,-3.703790,40.416775,2017/03/25,12:33:54").unwrap();
    assert_eq!(loc.longitude(), -3_703_790);
    assert_eq!(loc.latitude(), 40_416_775);

    assert_eq!(
        parse_location_response("0"),
        Err(error::Fona::LocLon)
    );
    assert_eq!(
        parse_location_response("0,bad,40.4"),
        Err(error::Fona::LocLon)
    );
    assert_eq!(
        parse_location_response("0,-3.7"),
        Err(error::Fona::LocLat)
    );
    assert_eq!(
        parse_location_response("0,-3.7,bad"),
        Err(error::Fona::LocLat)
    );
}

/// A message of 161 characters is rejected before anything touches the
/// serial channel; a message of exactly 160 characters is not rejected on
/// length grounds.
#[test]
fn sms_length_guard() {
    let long = "a".repeat(161);
    match SmsSend::start(&long) {
        Err(error::Fona::LongSms) => {}
        other => panic!("expected the long-SMS error, got {:?}", other),
    }

    let max = "a".repeat(160);
    let session = SmsSend::start(&max).unwrap();
    assert_eq!(session.step, SmsStep::SetTextMode);
}

/// The send-to-number command embeds the recipient.
#[test]
fn sms_commands() {
    assert_eq!(cmgs_command("+34600000000"), "AT+CMGS=\"+34600000000\"");
    assert_eq!(sms_payload("hi"), vec![b'h', b'i', 0x1A]);
}

/// A full SMS transmission: text mode, the prompt, the body, the reference
/// line and the final confirmation.
#[test]
fn sms_walkthrough() {
    let mut session = SmsSend::start("test message").unwrap();
    assert_eq!(session.on_response("OK"), Ok(false));
    assert_eq!(session.step, SmsStep::SendRecipient);
    assert_eq!(session.on_response("> "), Ok(false));
    assert_eq!(session.step, SmsStep::SendBody);
    session.body_sent();
    assert_eq!(session.step, SmsStep::ReadFlush1);
    assert_eq!(session.on_response(""), Ok(false));
    assert_eq!(session.on_response("+CMGS: 12"), Ok(false));
    // A non-empty flush line is only worth a warning.
    assert_eq!(session.on_response("noise"), Ok(true));
    assert_eq!(session.on_response("OK"), Ok(false));
    assert!(session.done());
}

/// Each deviation in the SMS sequence has its own named error.
#[test]
fn sms_step_errors() {
    let mut session = SmsSend::start("x").unwrap();
    assert_eq!(session.on_response("ERROR"), Err(error::Fona::SmsAtCmgf));

    let mut session = SmsSend::start("x").unwrap();
    let _ = session.on_response("OK");
    assert_eq!(session.on_response("no"), Err(error::Fona::SmsAtCmgs));

    let mut session = SmsSend::start("x").unwrap();
    let _ = session.on_response("OK");
    let _ = session.on_response("> ");
    session.body_sent();
    let _ = session.on_response("");
    assert_eq!(session.on_response("garbage"), Err(error::Fona::SmsCmgs));

    let mut session = SmsSend::start("x").unwrap();
    let _ = session.on_response("OK");
    let _ = session.on_response("> ");
    session.body_sent();
    let _ = session.on_response("");
    let _ = session.on_response("+CMGS: 1");
    let _ = session.on_response("");
    assert_eq!(session.on_response("ERROR"), Err(error::Fona::SmsOk));
}

/// A successful location lookup walks the whole command chain and closes the
/// bearer.
#[test]
fn location_walkthrough() {
    let mut session = LocationSession::new();
    assert_eq!(session.command("apn.example").unwrap(), "AT+CMGF=1");
    assert_eq!(session.on_response("OK"), Ok(None));
    assert_eq!(session.command("apn.example").unwrap(), "AT+CGATT=1");
    assert_eq!(session.on_response("OK"), Ok(None));
    assert_eq!(
        session.command("apn.example").unwrap(),
        "AT+SAPBR=3,1,\"CONTYPE\",\"GPRS\""
    );
    assert_eq!(session.on_response("OK"), Ok(None));
    assert_eq!(
        session.command("apn.example").unwrap(),
        "AT+SAPBR=3,1,\"APN\",\"apn.example\""
    );
    assert_eq!(session.on_response("OK"), Ok(None));
    assert_eq!(session.command("apn.example").unwrap(), "AT+SAPBR=1,1");
    assert_eq!(session.on_response("OK"), Ok(None));
    assert_eq!(session.command("apn.example").unwrap(), "AT+CIPGSMLOC=1,1");
    assert_eq!(
        session.on_response("0,-3.703790,40.416775,2017/03/25,12:33:54"),
        Ok(None)
    );
    assert_eq!(session.step, LocStep::FinalOk);
    assert_eq!(session.on_response("OK"), Ok(None));
    assert_eq!(session.command("apn.example").unwrap(), "AT+SAPBR=0,1");
    let loc = session.on_response("OK").unwrap().unwrap();
    assert_eq!(loc.longitude(), -3_703_790);
    assert_eq!(loc.latitude(), 40_416_775);
    assert_eq!(session.step, LocStep::Done);
}

/// A failure after the packet-data attach tears the bearer down and reports
/// the failed step; the error says whether the cleanup failed too.
#[test]
fn location_teardown_on_failure() {
    let mut session = LocationSession::new();
    let _ = session.on_response("OK");
    // The attach fails: cleanup before reporting.
    assert_eq!(session.on_response("ERROR"), Ok(None));
    assert_eq!(session.step, LocStep::TearDown);
    assert_eq!(session.command("apn").unwrap(), "AT+SAPBR=0,1");
    let err = session.on_response("OK").unwrap_err();
    assert_eq!(err.cause, error::Fona::LocAtCgatt);
    assert!(!err.teardown_failed);

    // The same failure with a failing cleanup reports both.
    let mut session = LocationSession::new();
    let _ = session.on_response("OK");
    let _ = session.on_response("ERROR");
    let err = session.on_response("ERROR").unwrap_err();
    assert_eq!(err.cause, error::Fona::LocAtCgatt);
    assert!(err.teardown_failed);
}

/// A text-mode failure needs no cleanup, and a failing final bearer close is
/// its own error.
#[test]
fn location_other_failures() {
    let mut session = LocationSession::new();
    let err = session.on_response("ERROR").unwrap_err();
    assert_eq!(err.cause, error::Fona::LocAtCmgf);
    assert!(!err.teardown_failed);

    let mut session = LocationSession::new();
    for _ in 0..5 {
        let _ = session.on_response("OK");
    }
    let _ = session.on_response("0,-3.7,40.4,2017/03/25,12:33:54");
    let _ = session.on_response("OK");
    let err = session.on_response("ERROR").unwrap_err();
    assert_eq!(err.cause, error::Fona::LocAtGprsDown);
    assert!(!err.teardown_failed);
}

/// Each step of the bearer chain reports its own named error after cleanup.
#[test]
fn location_step_errors() {
    // The connection-type step.
    let mut session = LocationSession::new();
    let _ = session.on_response("OK");
    let _ = session.on_response("OK");
    let _ = session.on_response("ERROR");
    let err = session.on_response("OK").unwrap_err();
    assert_eq!(err.cause, error::Fona::LocAtSapbrContype);

    // The access-point step.
    let mut session = LocationSession::new();
    for _ in 0..3 {
        let _ = session.on_response("OK");
    }
    let _ = session.on_response("ERROR");
    let err = session.on_response("OK").unwrap_err();
    assert_eq!(err.cause, error::Fona::LocAtSapbrApn);

    // The bearer-open step.
    let mut session = LocationSession::new();
    for _ in 0..4 {
        let _ = session.on_response("OK");
    }
    let _ = session.on_response("ERROR");
    let err = session.on_response("OK").unwrap_err();
    assert_eq!(err.cause, error::Fona::LocAtSapbr);

    // The trailing line of the query.
    let mut session = LocationSession::new();
    for _ in 0..5 {
        let _ = session.on_response("OK");
    }
    let _ = session.on_response("0,-3.7,40.4,2017/03/25,12:33:54");
    let _ = session.on_response("ERROR");
    let err = session.on_response("OK").unwrap_err();
    assert_eq!(err.cause, error::Fona::LocAtCipgsmloc);
}

/// A malformed location reply is reported at once, without teardown.
#[test]
fn location_parse_failure() {
    let mut session = LocationSession::new();
    for _ in 0..5 {
        let _ = session.on_response("OK");
    }
    let err = session.on_response("garbage").unwrap_err();
    assert_eq!(err.cause, error::Fona::LocLon);
    assert!(!err.teardown_failed);
    assert_eq!(session.step, LocStep::Failed);
}

/// A full modem bring-up: power cycle, liveness checks, echo off.
#[test]
fn modem_init_walkthrough() {
    let mut session = ModemInit::new();
    assert_eq!(session.on_power(true), Ok(()));
    assert_eq!(session.step, ModemInitStep::PowerCycleOff);
    session.on_completed();
    assert_eq!(session.step, ModemInitStep::PowerOnPulse);
    session.on_completed();
    assert_eq!(session.step, ModemInitStep::VerifyPower);
    assert_eq!(session.on_power(true), Ok(()));
    assert_eq!(session.step, ModemInitStep::OpenSerial);
    session.on_completed();
    assert_eq!(session.step, ModemInitStep::Liveness { attempt: 0 });

    // The first two liveness attempts only log their outcome.
    assert_eq!(session.on_response("gibberish"), Ok(()));
    assert_eq!(session.on_response("still nothing"), Ok(()));
    assert_eq!(session.on_response("OK"), Ok(()));
    assert_eq!(session.step, ModemInitStep::EchoOffFirst);
    assert_eq!(session.on_response("anything"), Ok(()));
    assert_eq!(session.on_response("OK"), Ok(()));
    assert!(session.done());
}

/// A modem still off after the power pulse, a dead liveness check, and a
/// failing echo-off each report their own error.
#[test]
fn modem_init_errors() {
    let mut session = ModemInit::new();
    let _ = session.on_power(false);
    assert_eq!(session.step, ModemInitStep::PowerOnPulse);
    session.on_completed();
    assert_eq!(session.on_power(false), Err(error::Fona::PowerOn));
    assert_eq!(session.step, ModemInitStep::Failed);

    let mut session = ModemInit::new();
    let _ = session.on_power(false);
    session.on_completed();
    let _ = session.on_power(true);
    session.on_completed();
    let _ = session.on_response("x");
    let _ = session.on_response("y");
    assert_eq!(session.on_response("dead"), Err(error::Fona::Init));

    let mut session = ModemInit::new();
    let _ = session.on_power(false);
    session.on_completed();
    let _ = session.on_power(true);
    session.on_completed();
    let _ = session.on_response("x");
    let _ = session.on_response("y");
    let _ = session.on_response("OK");
    let _ = session.on_response("ignored");
    assert_eq!(session.on_response("ERROR"), Err(error::Fona::EchoOff));
}
