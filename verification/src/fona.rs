//! Cellular modem module.
//!
//! The modem command-session protocol: line reading with timeout handling,
//! command framing, response validation, the SMS transmission session, the
//! network-assisted location session with its rollback on partial failure,
//! the battery telemetry parsers, and the bring-up session. The surrounding
//! application owns the power pins and the serial port; it asks each session
//! what to do next, performs the write or the read, and feeds back the
//! response line.

use vstd::prelude::*;
use vstd::string::StrSliceExecFns;
use vstd::string::StringExecFns;
use vstd::string::StringSliceAdditionalSpecFns;
use vstd::utf8::{decode_utf8, valid_utf8};

use crate::error;
use crate::strutil::{
    all_digits, comma_field, comma_field_spec, digits_value_spec, parse_decimal_micro,
    parse_decimal_micro_spec, parse_u32_digits, starts_with_spec, str_eq, str_starts_with,
};

verus! {

/// Minimum voltage of the modem battery when empty, in millivolts.
pub const BAT_FONA_MIN_MV: i64 = 3700;

/// Maximum voltage of the modem battery when full, in millivolts.
pub const BAT_FONA_MAX_MV: i64 = 4200;

/// Relies on `String::from_utf8`: it succeeds exactly on valid UTF-8 and
/// then returns the decoded characters of the input bytes.
#[verifier::external_body]
fn bytes_to_string(bytes: Vec<u8>) -> (r: Option<String>)
    ensures
        match r {
            Some(s) => valid_utf8(bytes@) && s@ == decode_utf8(bytes@),
            None => !valid_utf8(bytes@),
        },
{
    match String::from_utf8(bytes) {
        Ok(s) => Some(s),
        Err(_) => None,
    }
}

/// Reads a response line byte by byte: carriage returns are discarded, a
/// line feed terminates the line, every other byte is accumulated. A read
/// that times out mid-line ends in a partial-response error carrying
/// whatever was accumulated.
pub struct LineReader {
    buf: Vec<u8>,
}

impl LineReader {
    /// The bytes accumulated since the last line ended.
    pub closed spec fn buf_spec(&self) -> Seq<u8> {
        self.buf@
    }

    /// A reader with nothing accumulated.
    pub fn new() -> (r: LineReader)
        ensures
            r.buf_spec() == Seq::<u8>::empty(),
    {
        LineReader { buf: Vec::new() }
    }

    /// Feeds one received byte. A carriage return is discarded, a line feed
    /// completes the line and empties the buffer, anything else accumulates.
    pub fn push_byte(&mut self, b: u8) -> (r: Option<Vec<u8>>)
        ensures
            b == 13 ==> final(self).buf_spec() == old(self).buf_spec() && r is None,
            b == 10 ==> final(self).buf_spec() == Seq::<u8>::empty() && (r matches Some(line)
                && line@ == old(self).buf_spec()),
            b != 13 && b != 10 ==> final(self).buf_spec() == old(self).buf_spec().push(b)
                && r is None,
    {
        if b == 13 {
            None
        } else if b == 10 {
            let mut line: Vec<u8> = Vec::new();
            core::mem::swap(&mut line, &mut self.buf);
            Some(line)
        } else {
            self.buf.push(b);
            None
        }
    }

    /// Ends a read whose underlying cause was a timeout: the accumulated
    /// bytes become a partial-response error carrying them as text, so a
    /// caller can tell "the link went quiet mid-reply" apart from "the link
    /// failed outright". Yields nothing when the partial bytes are not valid
    /// text.
    pub fn on_timeout(&mut self) -> (r: Option<error::Fona>)
        ensures
            final(self).buf_spec() == Seq::<u8>::empty(),
            match r {
                Some(e) => valid_utf8(old(self).buf_spec()) && (e matches error::Fona::PartialResponse { response }
                    && response@ == decode_utf8(old(self).buf_spec())),
                None => !valid_utf8(old(self).buf_spec()),
            },
    {
        let mut line: Vec<u8> = Vec::new();
        core::mem::swap(&mut line, &mut self.buf);
        match bytes_to_string(line) {
            Some(s) => Some(error::Fona::PartialResponse { response: s }),
            None => None,
        }
    }
}

/// Frames a command for the wire: its bytes followed by the CRLF terminator.
pub fn frame_command(cmd: &str) -> (r: Vec<u8>)
    ensures
        r@ == cmd.spec_bytes() + seq![13u8, 10u8],
{
    let mut bytes = cmd.as_bytes_vec();
    bytes.push(13);
    bytes.push(10);
    proof {
        assert(bytes@ =~= cmd.spec_bytes() + seq![13u8, 10u8]);
    }
    bytes
}

/// After a command is written the modem first echoes an empty line; any
/// other text there is a command-echo error.
pub fn check_command_echo(line: &str) -> (r: Result<(), error::Fona>)
    ensures
        line@.len() == 0 ==> r == Ok::<(), error::Fona>(()),
        line@.len() != 0 ==> r == Err::<(), error::Fona>(error::Fona::SendCommandCrlf),
{
    if line.unicode_len() == 0 {
        Ok(())
    } else {
        Err(error::Fona::SendCommandCrlf)
    }
}

/// Whether a registration-status reply means the modem has network
/// connectivity: exactly the home-network and roaming status codes do.
pub fn has_connectivity(response: &str) -> (r: bool)
    ensures
        r == (response@ == "+CREG: 0,1"@ || response@ == "+CREG: 0,5"@),
{
    str_eq(response, "+CREG: 0,1") || str_eq(response, "+CREG: 0,5")
}

/// The battery voltage named by a battery-charge reply: the reply's first
/// comma-separated field must be the literal reply prefix, and its second
/// must be a plain decimal number, the voltage in millivolts.
pub open spec fn cbc_value_spec(line: Seq<char>) -> Option<int> {
    match comma_field_spec(line, 0) {
        Some(f0) => if f0 == "+CBC:"@ {
            match comma_field_spec(line, 1) {
                Some(f1) => if 0 < f1.len() <= 9 && all_digits(f1) {
                    Some(digits_value_spec(f1))
                } else {
                    None
                },
                None => None,
            }
        } else {
            None
        },
        None => None,
    }
}

/// Parses a battery-charge reply into the battery voltage, in millivolts.
/// An unexpected prefix or a missing or malformed numeric field is an
/// invalid-response error, never a silent default.
pub fn parse_cbc_response(line: &str) -> (r: Result<u32, error::Fona>)
    ensures
        match r {
            Ok(v) => cbc_value_spec(line@) == Some(v as int),
            Err(e) => cbc_value_spec(line@) == None::<int> && e == error::Fona::CBCInvalidResponse,
        },
{
    let f0 = match comma_field(line, 0) {
        Some(f) => f,
        None => {
            proof {
                assert(false);
            }
            return Err(error::Fona::CBCInvalidResponse);
        },
    };
    if !str_eq(f0, "+CBC:") {
        return Err(error::Fona::CBCInvalidResponse);
    }
    let f1 = match comma_field(line, 1) {
        Some(f) => f,
        None => {
            return Err(error::Fona::CBCInvalidResponse);
        },
    };
    match parse_u32_digits(f1) {
        Some(v) => Ok(v),
        None => Err(error::Fona::CBCInvalidResponse),
    }
}

/// The converter voltage named by an analog-digital-converter reply, read
/// the same way as the battery-charge reply but under its own prefix.
pub open spec fn cadc_value_spec(line: Seq<char>) -> Option<int> {
    match comma_field_spec(line, 0) {
        Some(f0) => if f0 == "+CADC=1"@ {
            match comma_field_spec(line, 1) {
                Some(f1) => if 0 < f1.len() <= 9 && all_digits(f1) {
                    Some(digits_value_spec(f1))
                } else {
                    None
                },
                None => None,
            }
        } else {
            None
        },
        None => None,
    }
}

/// Parses an analog-digital-converter reply into the measured voltage, in
/// millivolts. An unexpected prefix or a missing or malformed numeric field
/// is an invalid-response error.
pub fn parse_cadc_response(line: &str) -> (r: Result<u32, error::Fona>)
    ensures
        match r {
            Ok(v) => cadc_value_spec(line@) == Some(v as int),
            Err(e) => cadc_value_spec(line@) == None::<int> && e
                == error::Fona::CADCInvalidResponse,
        },
{
    let f0 = match comma_field(line, 0) {
        Some(f) => f,
        None => {
            proof {
                assert(false);
            }
            return Err(error::Fona::CADCInvalidResponse);
        },
    };
    if !str_eq(f0, "+CADC=1") {
        return Err(error::Fona::CADCInvalidResponse);
    }
    let f1 = match comma_field(line, 1) {
        Some(f) => f,
        None => {
            return Err(error::Fona::CADCInvalidResponse);
        },
    };
    match parse_u32_digits(f1) {
        Some(v) => Ok(v),
        None => Err(error::Fona::CADCInvalidResponse),
    }
}

/// The location of the probe as obtained by the modem, in micro-degrees.
#[derive(Debug, Clone, Copy, PartialEq, Eq, Structural)]
pub struct Location {
    /// Latitude of the location, in micro-degrees.
    pub latitude: i64,
    /// Longitude of the location, in micro-degrees.
    pub longitude: i64,
}

impl Location {
    /// Gets the latitude of the location, in micro-degrees.
    pub fn latitude(self) -> (r: i64)
        ensures
            r == self.latitude,
    {
        self.latitude
    }

    /// Gets the longitude of the location, in micro-degrees.
    pub fn longitude(self) -> (r: i64)
        ensures
            r == self.longitude,
    {
        self.longitude
    }
}

/// What the location-query reply names: of its comma-separated fields, the
/// second is the longitude and the third the latitude, both decimal degrees
/// read to micro-degrees. A missing or malformed longitude or latitude field
/// is its own named error.
pub open spec fn location_parse_spec(line: Seq<char>) -> Result<(int, int), error::Fona> {
    match comma_field_spec(line, 1) {
        None => Err(error::Fona::LocLon),
        Some(f1) => match parse_decimal_micro_spec(f1) {
            None => Err(error::Fona::LocLon),
            Some(lon) => match comma_field_spec(line, 2) {
                None => Err(error::Fona::LocLat),
                Some(f2) => match parse_decimal_micro_spec(f2) {
                    None => Err(error::Fona::LocLat),
                    Some(lat) => Ok((lon, lat)),
                },
            },
        },
    }
}

/// Parses the location-query reply into a location, in micro-degrees.
pub fn parse_location_response(line: &str) -> (r: Result<Location, error::Fona>)
    ensures
        match location_parse_spec(line@) {
            Ok((lon, lat)) => (r matches Ok(loc) && loc.longitude == lon && loc.latitude == lat),
            Err(e) => r == Err::<Location, error::Fona>(e),
        },
{
    let lon_field = match comma_field(line, 1) {
        Some(f) => f,
        None => {
            return Err(error::Fona::LocLon);
        },
    };
    let lon = match parse_decimal_micro(lon_field) {
        Some(v) => v,
        None => {
            return Err(error::Fona::LocLon);
        },
    };
    let lat_field = match comma_field(line, 2) {
        Some(f) => f,
        None => {
            return Err(error::Fona::LocLat);
        },
    };
    let lat = match parse_decimal_micro(lat_field) {
        Some(v) => v,
        None => {
            return Err(error::Fona::LocLat);
        },
    };
    Ok(Location { latitude: lat, longitude: lon })
}

/// The send-to-number command for a recipient phone number.
pub fn cmgs_command(phone: &str) -> (r: String)
    ensures
        r@ == "AT+CMGS=\""@ + phone@ + "\""@,
{
    let head = String::from_str("AT+CMGS=\"");
    head.concat(phone).concat("\"")
}

/// The bytes written for the message body: the message followed by the
/// single control byte that ends SMS input, with no trailing line
/// terminator.
pub fn sms_payload(message: &str) -> (r: Vec<u8>)
    ensures
        r@ == message.spec_bytes() + seq![26u8],
{
    let mut bytes = message.as_bytes_vec();
    bytes.push(26);
    proof {
        assert(bytes@ =~= message.spec_bytes() + seq![26u8]);
    }
    bytes
}

/// A step of the SMS transmission session.
#[derive(Debug, Clone, Copy, PartialEq, Eq, Structural)]
pub enum SmsStep {
    /// Send the text-mode configuration command; its response must be `"OK"`.
    SetTextMode,
    /// Send the send-to-number command; the reply is the 2-byte prompt
    /// `"> "`, read as exactly two bytes, not as a line.
    SendRecipient,
    /// Write the message body followed by the single control byte, with no
    /// trailing line terminator.
    SendBody,
    /// Read a flush line; it should be empty, and any text there only
    /// warrants a warning.
    ReadFlush1,
    /// Read the reference line; it must begin with the SMS-reference prefix.
    ReadReference,
    /// Read another flush line; any text there only warrants a warning.
    ReadFlush2,
    /// Read the final line; it must be exactly `"OK"`.
    ReadOk,
    /// The SMS was sent.
    Done,
    /// The session failed at some step.
    Failed,
}

/// Whether a step of the SMS session waits for a response line.
pub open spec fn sms_awaits_response(s: SmsStep) -> bool {
    match s {
        SmsStep::SetTextMode => true,
        SmsStep::SendRecipient => true,
        SmsStep::ReadFlush1 => true,
        SmsStep::ReadReference => true,
        SmsStep::ReadFlush2 => true,
        SmsStep::ReadOk => true,
        _ => false,
    }
}

/// The SMS transmission session: a fixed command sequence where any
/// deviation at any step is a distinct, named failure.
#[derive(Debug, Clone, Copy)]
pub struct SmsSend {
    /// The step the session is at.
    pub step: SmsStep,
}

impl SmsSend {
    /// Starts an SMS transmission. A message of more than 160 characters is
    /// rejected here, before anything is written to the serial channel; a
    /// message of exactly 160 characters is accepted.
    pub fn start(message: &str) -> (r: Result<SmsSend, error::Fona>)
        ensures
            message@.len() > 160 ==> r == Err::<SmsSend, error::Fona>(error::Fona::LongSms),
            message@.len() <= 160 ==> (r matches Ok(s) && s.step == SmsStep::SetTextMode),
    {
        if message.unicode_len() > 160 {
            Err(error::Fona::LongSms)
        } else {
            Ok(SmsSend { step: SmsStep::SetTextMode })
        }
    }

    /// Feeds the response for the current step and advances the session. A
    /// deviation is the step's own named failure; for the two flush reads
    /// the returned flag notes a non-empty line, worth a warning.
    pub fn on_response(&mut self, line: &str) -> (r: Result<bool, error::Fona>)
        requires
            sms_awaits_response(old(self).step),
        ensures
            match old(self).step {
                SmsStep::SetTextMode => if line@ == "OK"@ {
                    r == Ok::<bool, error::Fona>(false) && final(self).step
                        == SmsStep::SendRecipient
                } else {
                    r == Err::<bool, error::Fona>(error::Fona::SmsAtCmgf) && final(self).step
                        == SmsStep::Failed
                },
                SmsStep::SendRecipient => if line@ == "> "@ {
                    r == Ok::<bool, error::Fona>(false) && final(self).step == SmsStep::SendBody
                } else {
                    r == Err::<bool, error::Fona>(error::Fona::SmsAtCmgs) && final(self).step
                        == SmsStep::Failed
                },
                SmsStep::ReadFlush1 => r == Ok::<bool, error::Fona>(line@.len() != 0) && final(self).step == SmsStep::ReadReference,
                SmsStep::ReadReference => if starts_with_spec(line@, "+CMGS: "@) {
                    r == Ok::<bool, error::Fona>(false) && final(self).step == SmsStep::ReadFlush2
                } else {
                    r == Err::<bool, error::Fona>(error::Fona::SmsCmgs) && final(self).step
                        == SmsStep::Failed
                },
                SmsStep::ReadFlush2 => r == Ok::<bool, error::Fona>(line@.len() != 0) && final(self).step == SmsStep::ReadOk,
                SmsStep::ReadOk => if line@ == "OK"@ {
                    r == Ok::<bool, error::Fona>(false) && final(self).step == SmsStep::Done
                } else {
                    r == Err::<bool, error::Fona>(error::Fona::SmsOk) && final(self).step
                        == SmsStep::Failed
                },
                _ => false,
            },
    {
        match self.step {
            SmsStep::SetTextMode => {
                if str_eq(line, "OK") {
                    self.step = SmsStep::SendRecipient;
                    Ok(false)
                } else {
                    self.step = SmsStep::Failed;
                    Err(error::Fona::SmsAtCmgf)
                }
            },
            SmsStep::SendRecipient => {
                if str_eq(line, "> ") {
                    self.step = SmsStep::SendBody;
                    Ok(false)
                } else {
                    self.step = SmsStep::Failed;
                    Err(error::Fona::SmsAtCmgs)
                }
            },
            SmsStep::ReadFlush1 => {
                self.step = SmsStep::ReadReference;
                Ok(line.unicode_len() != 0)
            },
            SmsStep::ReadReference => {
                if str_starts_with(line, "+CMGS: ") {
                    self.step = SmsStep::ReadFlush2;
                    Ok(false)
                } else {
                    self.step = SmsStep::Failed;
                    Err(error::Fona::SmsCmgs)
                }
            },
            SmsStep::ReadFlush2 => {
                self.step = SmsStep::ReadOk;
                Ok(line.unicode_len() != 0)
            },
            SmsStep::ReadOk => {
                if str_eq(line, "OK") {
                    self.step = SmsStep::Done;
                    Ok(false)
                } else {
                    self.step = SmsStep::Failed;
                    Err(error::Fona::SmsOk)
                }
            },
            _ => {
                proof {
                    assert(false);
                }
                Err(error::Fona::Command)
            },
        }
    }

    /// Records that the message body and the trailing control byte were
    /// written.
    pub fn body_sent(&mut self)
        requires
            old(self).step == SmsStep::SendBody,
        ensures
            final(self).step == SmsStep::ReadFlush1,
    {
        self.step = SmsStep::ReadFlush1;
    }

    /// Whether the SMS was sent.
    pub fn done(&self) -> (r: bool)
        ensures
            r == (self.step == SmsStep::Done),
    {
        self.step == SmsStep::Done
    }
}

/// Failure of the location lookup: the step that failed, and whether the
/// packet-data teardown attempted as cleanup failed too — so operators can
/// tell "feature unavailable" apart from "left attached".
#[derive(Debug, Clone, PartialEq, Eq)]
pub struct LocationError {
    /// The error of the step that failed.
    pub cause: error::Fona,
    /// Whether the cleanup teardown was attempted and failed too.
    pub teardown_failed: bool,
}

/// A step of the network-assisted location session.
#[derive(Debug, Clone, Copy, PartialEq, Eq, Structural)]
pub enum LocStep {
    /// Send the text-mode configuration command; a failure here needs no
    /// cleanup.
    SetTextMode,
    /// Send the packet-data attach command.
    Attach,
    /// Send the bearer connection-type command.
    BearerContype,
    /// Send the bearer access-point command.
    BearerApn,
    /// Send the bearer-open command.
    BearerOpen,
    /// Send the location query; its reply carries the coordinates.
    Query,
    /// Read the trailing line of the query; it must be `"OK"`.
    FinalOk,
    /// Send the bearer-close command that ends a successful lookup.
    BearerClose,
    /// A step after attach failed: send the bearer-close command as cleanup
    /// before reporting the failure.
    TearDown,
    /// The lookup succeeded.
    Done,
    /// The lookup failed.
    Failed,
}

/// The network-assisted location session: a chained command sequence, each
/// step expecting `"OK"`. When a step after the packet-data attach fails,
/// the session tears the bearer down as cleanup; the reported error then
/// says whether that cleanup failed too.
#[derive(Debug, Clone)]
pub struct LocationSession {
    /// The step the session is at.
    pub step: LocStep,
    /// The error of the failed step, while cleanup is under way.
    pub pending: Option<error::Fona>,
    /// The parsed coordinates, once the query reply has arrived.
    pub location: Option<Location>,
}

impl LocationSession {
    /// The session's bookkeeping matches its step: cleanup knows what
    /// failed, and the closing steps know the coordinates.
    pub open spec fn wf(&self) -> bool {
        &&& (self.step == LocStep::TearDown ==> self.pending is Some)
        &&& (self.step == LocStep::FinalOk || self.step == LocStep::BearerClose
            ==> self.location is Some)
    }

    /// Starts a location lookup.
    pub fn new() -> (r: LocationSession)
        ensures
            r.step == LocStep::SetTextMode,
            r.wf(),
    {
        LocationSession { step: LocStep::SetTextMode, pending: None, location: None }
    }

    /// The command to send at the current step, if it sends one; the
    /// access-point name fills the bearer access-point command.
    pub fn command(&self, apn: &str) -> (r: Option<String>)
        ensures
            match self.step {
                LocStep::SetTextMode => (r matches Some(c) && c@ == "AT+CMGF=1"@),
                LocStep::Attach => (r matches Some(c) && c@ == "AT+CGATT=1"@),
                LocStep::BearerContype => (r matches Some(c) && c@
                    == "AT+SAPBR=3,1,\"CONTYPE\",\"GPRS\""@),
                LocStep::BearerApn => (r matches Some(c) && c@ == "AT+SAPBR=3,1,\"APN\",\""@
                    + apn@ + "\""@),
                LocStep::BearerOpen => (r matches Some(c) && c@ == "AT+SAPBR=1,1"@),
                LocStep::Query => (r matches Some(c) && c@ == "AT+CIPGSMLOC=1,1"@),
                LocStep::BearerClose => (r matches Some(c) && c@ == "AT+SAPBR=0,1"@),
                LocStep::TearDown => (r matches Some(c) && c@ == "AT+SAPBR=0,1"@),
                _ => r is None,
            },
    {
        match self.step {
            LocStep::SetTextMode => Some(String::from_str("AT+CMGF=1")),
            LocStep::Attach => Some(String::from_str("AT+CGATT=1")),
            LocStep::BearerContype => Some(String::from_str("AT+SAPBR=3,1,\"CONTYPE\",\"GPRS\"")),
            LocStep::BearerApn => {
                let head = String::from_str("AT+SAPBR=3,1,\"APN\",\"");
                Some(head.concat(apn).concat("\""))
            },
            LocStep::BearerOpen => Some(String::from_str("AT+SAPBR=1,1")),
            LocStep::Query => Some(String::from_str("AT+CIPGSMLOC=1,1")),
            LocStep::BearerClose => Some(String::from_str("AT+SAPBR=0,1")),
            LocStep::TearDown => Some(String::from_str("AT+SAPBR=0,1")),
            _ => None,
        }
    }

    /// Feeds the response line for the current step. `Ok(None)` means the
    /// session continues, `Ok(Some(location))` ends a successful lookup, and
    /// an error carries the failed step and the fate of its cleanup.
    pub fn on_response(&mut self, line: &str) -> (r: Result<Option<Location>, LocationError>)
        requires
            old(self).wf(),
            old(self).step != LocStep::Done,
            old(self).step != LocStep::Failed,
        ensures
            final(self).wf(),
            match old(self).step {
                LocStep::SetTextMode => if line@ == "OK"@ {
                    r == Ok::<Option<Location>, LocationError>(None) && final(self).step
                        == LocStep::Attach
                } else {
                    (r matches Err(e) && e.cause == error::Fona::LocAtCmgf && !e.teardown_failed)
                        && final(self).step == LocStep::Failed
                },
                LocStep::Attach => if line@ == "OK"@ {
                    r == Ok::<Option<Location>, LocationError>(None) && final(self).step
                        == LocStep::BearerContype
                } else {
                    r == Ok::<Option<Location>, LocationError>(None) && final(self).step
                        == LocStep::TearDown && final(self).pending == Some(
                        error::Fona::LocAtCgatt,
                    )
                },
                LocStep::BearerContype => if line@ == "OK"@ {
                    r == Ok::<Option<Location>, LocationError>(None) && final(self).step
                        == LocStep::BearerApn
                } else {
                    r == Ok::<Option<Location>, LocationError>(None) && final(self).step
                        == LocStep::TearDown && final(self).pending == Some(
                        error::Fona::LocAtSapbrContype,
                    )
                },
                LocStep::BearerApn => if line@ == "OK"@ {
                    r == Ok::<Option<Location>, LocationError>(None) && final(self).step
                        == LocStep::BearerOpen
                } else {
                    r == Ok::<Option<Location>, LocationError>(None) && final(self).step
                        == LocStep::TearDown && final(self).pending == Some(
                        error::Fona::LocAtSapbrApn,
                    )
                },
                LocStep::BearerOpen => if line@ == "OK"@ {
                    r == Ok::<Option<Location>, LocationError>(None) && final(self).step
                        == LocStep::Query
                } else {
                    r == Ok::<Option<Location>, LocationError>(None) && final(self).step
                        == LocStep::TearDown && final(self).pending == Some(
                        error::Fona::LocAtSapbr,
                    )
                },
                LocStep::Query => match location_parse_spec(line@) {
                    Ok((lon, lat)) => r == Ok::<Option<Location>, LocationError>(None) && final(self).step == LocStep::FinalOk && final(self).location == Some(
                        Location { latitude: lat as i64, longitude: lon as i64 },
                    ),
                    Err(e) => (r matches Err(le) && le.cause == e && !le.teardown_failed) && final(self).step == LocStep::Failed,
                },
                LocStep::FinalOk => if line@ == "OK"@ {
                    r == Ok::<Option<Location>, LocationError>(None) && final(self).step
                        == LocStep::BearerClose && final(self).location == old(self).location
                } else {
                    r == Ok::<Option<Location>, LocationError>(None) && final(self).step
                        == LocStep::TearDown && final(self).pending == Some(
                        error::Fona::LocAtCipgsmloc,
                    )
                },
                LocStep::BearerClose => if line@ == "OK"@ {
                    r == Ok::<Option<Location>, LocationError>(old(self).location) && final(self).step == LocStep::Done
                } else {
                    (r matches Err(e) && e.cause == error::Fona::LocAtGprsDown
                        && !e.teardown_failed) && final(self).step == LocStep::Failed
                },
                LocStep::TearDown => (r matches Err(e) && Some(e.cause) == old(self).pending
                    && e.teardown_failed == (line@ != "OK"@)) && final(self).step
                    == LocStep::Failed,
                _ => false,
            },
    {
        match self.step {
            LocStep::SetTextMode => {
                if str_eq(line, "OK") {
                    self.step = LocStep::Attach;
                    Ok(None)
                } else {
                    self.step = LocStep::Failed;
                    Err(LocationError { cause: error::Fona::LocAtCmgf, teardown_failed: false })
                }
            },
            LocStep::Attach => {
                if str_eq(line, "OK") {
                    self.step = LocStep::BearerContype;
                } else {
                    self.pending = Some(error::Fona::LocAtCgatt);
                    self.step = LocStep::TearDown;
                }
                Ok(None)
            },
            LocStep::BearerContype => {
                if str_eq(line, "OK") {
                    self.step = LocStep::BearerApn;
                } else {
                    self.pending = Some(error::Fona::LocAtSapbrContype);
                    self.step = LocStep::TearDown;
                }
                Ok(None)
            },
            LocStep::BearerApn => {
                if str_eq(line, "OK") {
                    self.step = LocStep::BearerOpen;
                } else {
                    self.pending = Some(error::Fona::LocAtSapbrApn);
                    self.step = LocStep::TearDown;
                }
                Ok(None)
            },
            LocStep::BearerOpen => {
                if str_eq(line, "OK") {
                    self.step = LocStep::Query;
                } else {
                    self.pending = Some(error::Fona::LocAtSapbr);
                    self.step = LocStep::TearDown;
                }
                Ok(None)
            },
            LocStep::Query => {
                match parse_location_response(line) {
                    Ok(loc) => {
                        self.location = Some(loc);
                        self.step = LocStep::FinalOk;
                        Ok(None)
                    },
                    Err(e) => {
                        self.step = LocStep::Failed;
                        Err(LocationError { cause: e, teardown_failed: false })
                    },
                }
            },
            LocStep::FinalOk => {
                if str_eq(line, "OK") {
                    self.step = LocStep::BearerClose;
                } else {
                    self.pending = Some(error::Fona::LocAtCipgsmloc);
                    self.step = LocStep::TearDown;
                }
                Ok(None)
            },
            LocStep::BearerClose => {
                if str_eq(line, "OK") {
                    self.step = LocStep::Done;
                    Ok(self.location)
                } else {
                    self.step = LocStep::Failed;
                    Err(LocationError { cause: error::Fona::LocAtGprsDown, teardown_failed: false })
                }
            },
            LocStep::TearDown => {
                let teardown_failed = !str_eq(line, "OK");
                self.step = LocStep::Failed;
                let cause = match self.pending.take() {
                    Some(c) => c,
                    None => {
                        proof {
                            assert(false);
                        }
                        error::Fona::Command
                    },
                };
                Err(LocationError { cause, teardown_failed })
            },
            _ => {
                proof {
                    assert(false);
                }
                Err(LocationError { cause: error::Fona::Command, teardown_failed: false })
            },
        }
    }
}

/// A step of the modem bring-up session.
#[derive(Debug, Clone, Copy, PartialEq, Eq, Structural)]
pub enum ModemInitStep {
    /// Read the status pin to learn whether the modem is already on.
    CheckPower,
    /// The modem was on: pulse the power pin to switch it off and let it
    /// settle, for stability.
    PowerCycleOff,
    /// Pulse the power pin to switch the modem on.
    PowerOnPulse,
    /// Read the status pin again; a modem still off is a power-on error.
    VerifyPower,
    /// Open the serial session at the configured path and baud rate.
    OpenSerial,
    /// Send the liveness check and read its response. The first two attempts
    /// only log a failure; the third decides.
    Liveness {
        /// Which liveness attempt this is.
        attempt: u8,
    },
    /// Send the echo-off command once; its response is ignored.
    EchoOffFirst,
    /// Send the echo-off command again; its response must be `"OK"`.
    EchoOffSecond,
    /// The modem is initialized.
    Done,
    /// Bring-up failed.
    Failed,
}

/// The liveness check is attempted this many times in all.
pub const LIVENESS_ATTEMPTS: u8 = 3;

/// Pause between modem commands during bring-up, in milliseconds.
pub const LIVENESS_DELAY_MS: u64 = 100;

/// How long the modem is left off when power-cycling, in seconds.
pub const MODEM_SETTLE_SECS: u64 = 3;

/// A power pulse holds the power pin low this long, in seconds.
pub const PULSE_LOW_SECS: u64 = 2;

/// A power pulse waits this long after raising the pin, in seconds.
pub const PULSE_WAIT_SECS: u64 = 3;

/// A bring-up step stays inside the session's bounds.
pub open spec fn modem_init_step_wf(s: ModemInitStep) -> bool {
    match s {
        ModemInitStep::Liveness { attempt } => attempt < LIVENESS_ATTEMPTS,
        _ => true,
    }
}

/// The modem bring-up session: power-cycles an already-on modem for
/// stability, verifies it powered on, opens the serial session, checks
/// liveness up to three times, and turns command echo off. A liveness check
/// that still fails on the last attempt is a hard initialization error,
/// distinct from the echo-disable failure.
#[derive(Debug, Clone, Copy)]
pub struct ModemInit {
    /// The step the session is at.
    pub step: ModemInitStep,
}

impl ModemInit {
    /// Starts a bring-up session.
    pub fn new() -> (r: ModemInit)
        ensures
            r.step == ModemInitStep::CheckPower,
    {
        ModemInit { step: ModemInitStep::CheckPower }
    }

    /// Feeds back the status pin reading for the power steps.
    pub fn on_power(&mut self, on: bool) -> (r: Result<(), error::Fona>)
        requires
            old(self).step == ModemInitStep::CheckPower || old(self).step
                == ModemInitStep::VerifyPower,
        ensures
            old(self).step == ModemInitStep::CheckPower ==> r == Ok::<(), error::Fona>(())
                && final(self).step == if on {
                ModemInitStep::PowerCycleOff
            } else {
                ModemInitStep::PowerOnPulse
            },
            old(self).step == ModemInitStep::VerifyPower ==> if on {
                r == Ok::<(), error::Fona>(()) && final(self).step == ModemInitStep::OpenSerial
            } else {
                r == Err::<(), error::Fona>(error::Fona::PowerOn) && final(self).step
                    == ModemInitStep::Failed
            },
    {
        match self.step {
            ModemInitStep::CheckPower => {
                if on {
                    self.step = ModemInitStep::PowerCycleOff;
                } else {
                    self.step = ModemInitStep::PowerOnPulse;
                }
                Ok(())
            },
            _ => {
                if on {
                    self.step = ModemInitStep::OpenSerial;
                    Ok(())
                } else {
                    self.step = ModemInitStep::Failed;
                    Err(error::Fona::PowerOn)
                }
            },
        }
    }

    /// Records that a power pulse, the settle wait, or the serial open
    /// completed.
    pub fn on_completed(&mut self)
        requires
            old(self).step == ModemInitStep::PowerCycleOff || old(self).step
                == ModemInitStep::PowerOnPulse || old(self).step == ModemInitStep::OpenSerial,
        ensures
            old(self).step == ModemInitStep::PowerCycleOff ==> final(self).step
                == ModemInitStep::PowerOnPulse,
            old(self).step == ModemInitStep::PowerOnPulse ==> final(self).step
                == ModemInitStep::VerifyPower,
            old(self).step == ModemInitStep::OpenSerial ==> final(self).step
                == (ModemInitStep::Liveness { attempt: 0 }),
    {
        match self.step {
            ModemInitStep::PowerCycleOff => {
                self.step = ModemInitStep::PowerOnPulse;
            },
            ModemInitStep::PowerOnPulse => {
                self.step = ModemInitStep::VerifyPower;
            },
            _ => {
                self.step = ModemInitStep::Liveness { attempt: 0 };
            },
        }
    }

    /// Feeds the response of a liveness or echo-off command. Only the last
    /// liveness attempt decides, with the initialization error; the first
    /// echo-off response is ignored; the second must be `"OK"` or the
    /// echo-disable error is reported, distinct from the liveness failure.
    pub fn on_response(&mut self, line: &str) -> (r: Result<(), error::Fona>)
        requires
            modem_init_step_wf(old(self).step),
            (old(self).step matches ModemInitStep::Liveness { .. }) || old(self).step
                == ModemInitStep::EchoOffFirst || old(self).step == ModemInitStep::EchoOffSecond,
        ensures
            modem_init_step_wf(final(self).step),
            match old(self).step {
                ModemInitStep::Liveness { attempt } => if attempt + 1 < LIVENESS_ATTEMPTS {
                    r == Ok::<(), error::Fona>(()) && final(self).step == (ModemInitStep::Liveness {
                        attempt: (attempt + 1) as u8,
                    })
                } else if line@ == "OK"@ {
                    r == Ok::<(), error::Fona>(()) && final(self).step
                        == ModemInitStep::EchoOffFirst
                } else {
                    r == Err::<(), error::Fona>(error::Fona::Init) && final(self).step
                        == ModemInitStep::Failed
                },
                ModemInitStep::EchoOffFirst => r == Ok::<(), error::Fona>(()) && final(self).step
                    == ModemInitStep::EchoOffSecond,
                ModemInitStep::EchoOffSecond => if line@ == "OK"@ {
                    r == Ok::<(), error::Fona>(()) && final(self).step == ModemInitStep::Done
                } else {
                    r == Err::<(), error::Fona>(error::Fona::EchoOff) && final(self).step
                        == ModemInitStep::Failed
                },
                _ => false,
            },
    {
        match self.step {
            ModemInitStep::Liveness { attempt } => {
                if attempt + 1 < LIVENESS_ATTEMPTS {
                    self.step = ModemInitStep::Liveness { attempt: attempt + 1 };
                    Ok(())
                } else if str_eq(line, "OK") {
                    self.step = ModemInitStep::EchoOffFirst;
                    Ok(())
                } else {
                    self.step = ModemInitStep::Failed;
                    Err(error::Fona::Init)
                }
            },
            ModemInitStep::EchoOffFirst => {
                self.step = ModemInitStep::EchoOffSecond;
                Ok(())
            },
            _ => {
                if str_eq(line, "OK") {
                    self.step = ModemInitStep::Done;
                    Ok(())
                } else {
                    self.step = ModemInitStep::Failed;
                    Err(error::Fona::EchoOff)
                }
            },
        }
    }

    /// Whether the modem is initialized.
    pub fn done(&self) -> (r: bool)
        ensures
            r == (self.step == ModemInitStep::Done),
    {
        self.step == ModemInitStep::Done
    }
}

} // verus!
