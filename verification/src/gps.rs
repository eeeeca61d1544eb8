//! Positioning-receiver module.
//!
//! The receiver driver: fix status and fix snapshots, the single
//! latest-valid-fix slot, the fixed configuration frames sent during
//! bring-up, and the bring-up session state machine. The surrounding
//! application owns the power pin, the serial port and the clock; it asks
//! the session what to do next, performs the action, and feeds back what
//! happened.

use vstd::prelude::*;

use crate::error;
use crate::frame::{build_frame, frame_spec};
use crate::strutil::str_eq;

verus! {

/// Fix status of a positioning frame.
#[derive(Debug, Clone, Copy, PartialEq, Eq, Structural)]
pub enum FixStatus {
    /// Fix active.
    Active,
    /// Fix not valid.
    Void,
}

/// The one-letter code of a fix status.
pub open spec fn fix_status_token_spec(s: FixStatus) -> Seq<char> {
    match s {
        FixStatus::Active => "A"@,
        FixStatus::Void => "V"@,
    }
}

/// What parsing a fix status code yields: the status with this exact code,
/// or nothing for any other string.
pub open spec fn fix_status_parse_spec(t: Seq<char>) -> Option<FixStatus> {
    if t == "A"@ {
        Some(FixStatus::Active)
    } else if t == "V"@ {
        Some(FixStatus::Void)
    } else {
        None
    }
}

impl FixStatus {
    /// Parses a fix status code: exactly `"A"` is active and exactly `"V"`
    /// is void; anything else is an invalid-status error.
    pub fn parse(s: &str) -> (r: Result<FixStatus, error::Gps>)
        ensures
            match fix_status_parse_spec(s@) {
                Some(st) => r == Ok::<FixStatus, error::Gps>(st),
                None => (r matches Err(error::Gps::InvalidStatus { status })
                    && status@ == s@),
            },
    {
        if str_eq(s, "A") {
            Ok(FixStatus::Active)
        } else if str_eq(s, "V") {
            Ok(FixStatus::Void)
        } else {
            Err(error::Gps::InvalidStatus { status: s.to_owned() })
        }
    }

    /// Gets the one-letter code of this fix status.
    pub fn as_str(&self) -> (s: &'static str)
        ensures
            s@ == fix_status_token_spec(*self),
    {
        match *self {
            FixStatus::Active => "A",
            FixStatus::Void => "V",
        }
    }
}

/// Fix-status round trip: each status parses back from its own code, and
/// the two codes are distinct.
pub proof fn lemma_fix_status_round_trip(s: FixStatus)
    ensures
        fix_status_parse_spec(fix_status_token_spec(s)) == Some(s),
{
    reveal_strlit("A");
    reveal_strlit("V");
    assert("A"@[0] == 'A');
    assert("V"@[0] == 'V');
}

/// A positioning fix snapshot. All quantities are plain integers: the fix
/// time in milliseconds since the epoch, angles in micro-degrees, the
/// altitude in millimeters, dilution figures in thousandths, the ground
/// speed in millimeters per second and the course in milli-degrees.
#[derive(Debug, Clone, Copy, PartialEq, Eq, Structural)]
pub struct Frame {
    /// Time of the current fix, in milliseconds since the epoch.
    pub fix_time: i64,
    /// Fix status.
    pub status: FixStatus,
    /// Number of satellites connected.
    pub satellites: u8,
    /// Latitude of the antenna, in micro-degrees.
    pub latitude: i64,
    /// Longitude of the antenna, in micro-degrees.
    pub longitude: i64,
    /// Altitude of the antenna from sea level, in millimeters.
    pub altitude: i64,
    /// Position dilution of precision (3D), in thousandths.
    pub pdop: u32,
    /// Horizontal dilution of precision (2D), in thousandths.
    pub hdop: u32,
    /// Vertical dilution of precision (1D), in thousandths.
    pub vdop: u32,
    /// Speed of the velocity vector, in millimeters per second.
    pub speed: u32,
    /// Course of the velocity vector, in milli-degrees.
    pub course: u32,
}

impl Frame {
    /// Gets the time of the current fix, in milliseconds since the epoch.
    pub fn fix_time(&self) -> (r: i64)
        ensures
            r == self.fix_time,
    {
        self.fix_time
    }

    /// Gets the fix status.
    pub fn status(&self) -> (r: FixStatus)
        ensures
            r == self.status,
    {
        self.status
    }

    /// Checks if the frame is from a valid fix.
    pub fn is_valid(&self) -> (r: bool)
        ensures
            r == (self.status == FixStatus::Active),
    {
        self.status == FixStatus::Active
    }

    /// Gets the number of satellites connected.
    pub fn satellites(&self) -> (r: u8)
        ensures
            r == self.satellites,
    {
        self.satellites
    }

    /// Gets the latitude of the antenna, in micro-degrees.
    pub fn latitude(&self) -> (r: i64)
        ensures
            r == self.latitude,
    {
        self.latitude
    }

    /// Gets the longitude of the antenna, in micro-degrees.
    pub fn longitude(&self) -> (r: i64)
        ensures
            r == self.longitude,
    {
        self.longitude
    }

    /// Gets the altitude of the antenna from sea level, in millimeters.
    pub fn altitude(&self) -> (r: i64)
        ensures
            r == self.altitude,
    {
        self.altitude
    }

    /// Gets the position dilution of precision (3D), in thousandths.
    pub fn pdop(&self) -> (r: u32)
        ensures
            r == self.pdop,
    {
        self.pdop
    }

    /// Gets the horizontal dilution of precision (2D), in thousandths.
    pub fn hdop(&self) -> (r: u32)
        ensures
            r == self.hdop,
    {
        self.hdop
    }

    /// Gets the vertical dilution of precision (1D), in thousandths.
    pub fn vdop(&self) -> (r: u32)
        ensures
            r == self.vdop,
    {
        self.vdop
    }

    /// Gets the speed of the velocity vector, in millimeters per second.
    pub fn speed(&self) -> (r: u32)
        ensures
            r == self.speed,
    {
        self.speed
    }

    /// Gets the course of the velocity vector, in milli-degrees.
    pub fn course(&self) -> (r: u32)
        ensures
            r == self.course,
    {
        self.course
    }
}

/// What the latest-fix slot holds after a sequence of ingested frames: the
/// last frame when its status is active, nothing otherwise. Last write wins;
/// no queuing.
pub open spec fn latest_after_spec(frames: Seq<Frame>) -> Option<Frame> {
    if frames.len() == 0 {
        None
    } else if frames.last().status == FixStatus::Active {
        Some(frames.last())
    } else {
        None
    }
}

/// Receiver information structure: holds the single latest-valid-fix slot.
#[derive(Debug)]
pub struct Gps {
    latest_data: Option<Frame>,
}

impl Gps {
    /// What the latest-fix slot holds.
    pub closed spec fn latest_spec(&self) -> Option<Frame> {
        self.latest_data
    }

    /// A driver that has not received any frame yet.
    pub fn new() -> (r: Gps)
        ensures
            r.latest_spec() == None::<Frame>,
    {
        Gps { latest_data: None }
    }

    /// Gets the latest valid fix, without blocking: either one active fix or
    /// nothing, and never a fix newer than what has actually been ingested.
    pub fn latest_data(&self) -> (r: Option<Frame>)
        ensures
            r == self.latest_spec(),
    {
        self.latest_data
    }

    /// Ingests one decoded frame: an active frame overwrites the slot, any
    /// other frame clears it, so a void fix is never retained as latest.
    pub fn handle_frame(&mut self, frame: Frame)
        ensures
            final(self).latest_spec() == if frame.status == FixStatus::Active {
                Some(frame)
            } else {
                None::<Frame>
            },
    {
        if frame.status == FixStatus::Active {
            self.latest_data = Some(frame);
        } else {
            self.latest_data = None;
        }
    }

    /// Ingests a sequence of decoded frames in order. Afterwards the slot
    /// holds the last frame exactly when that frame's status is active, no
    /// matter what came before.
    pub fn handle_frames(&mut self, frames: &Vec<Frame>)
        ensures
            final(self).latest_spec() == if frames@.len() == 0 {
                old(self).latest_spec()
            } else {
                latest_after_spec(frames@)
            },
    {
        let mut i: usize = 0;
        while i < frames.len()
            invariant
                i <= frames@.len(),
                self.latest_spec() == if i == 0 {
                    old(self).latest_spec()
                } else {
                    latest_after_spec(frames@.subrange(0, i as int))
                },
            decreases frames@.len() - i,
        {
            self.handle_frame(frames[i]);
            i = i + 1;
        }
        proof {
            if frames@.len() > 0 {
                assert(frames@.subrange(0, frames@.len() as int) =~= frames@);
            }
        }
    }
}

impl Default for Gps {
    /// A driver that has not received any frame yet.
    fn default() -> (r: Gps)
        ensures
            r.latest_spec() == None::<Frame>,
    {
        Gps::new()
    }
}

/// Payload of the update-rate configuration frame.
pub open spec fn refresh_payload_spec() -> Seq<u8> {
    seq![0x64u8, 0x00, 0x01, 0x00, 0x01, 0x00]
}

/// Payload of the airborne low-dynamics platform model frame.
pub open spec fn airborne_payload_spec() -> Seq<u8> {
    seq![
        0xFFu8, 0xFF, 0x06, 0x03, 0x00, 0x00, 0x00, 0x00, 0x10, 0x27, 0x00, 0x00, 0x05, 0x00,
        0xFA, 0x00, 0xFA, 0x00, 0x64, 0x00, 0x2C, 0x01, 0x00, 0x00, 0x00, 0x00, 0x00, 0x00,
        0x00, 0x00, 0x00, 0x00, 0x00, 0x00, 0x00, 0x00,
    ]
}

/// The fixed configuration frames sent during bring-up, in order: set the
/// update rate, then disable four sentence categories.
pub fn config_frames() -> (r: Vec<Vec<u8>>)
    ensures
        r@.len() == 5,
        r@[0]@ == frame_spec(0x06, 0x08, refresh_payload_spec()),
        r@[1]@ == frame_spec(0x05, 0x01, seq![0x06u8, 0x01]),
        r@[2]@ == frame_spec(0x06, 0x01, seq![0xF0u8, 0x01, 0x00]),
        r@[3]@ == frame_spec(0x06, 0x01, seq![0xF0u8, 0x03, 0x00]),
        r@[4]@ == frame_spec(0x06, 0x01, seq![0xF0u8, 0x05, 0x00]),
{
    let mut refresh: Vec<u8> = Vec::new();
    refresh.push(0x64);
    refresh.push(0x00);
    refresh.push(0x01);
    refresh.push(0x00);
    refresh.push(0x01);
    refresh.push(0x00);
    proof {
        assert(refresh@ =~= refresh_payload_spec());
    }

    let mut gsv: Vec<u8> = Vec::new();
    gsv.push(0x06);
    gsv.push(0x01);
    proof {
        assert(gsv@ =~= seq![0x06u8, 0x01]);
    }

    let mut vtg: Vec<u8> = Vec::new();
    vtg.push(0xF0);
    vtg.push(0x01);
    vtg.push(0x00);
    proof {
        assert(vtg@ =~= seq![0xF0u8, 0x01, 0x00]);
    }

    let mut gll: Vec<u8> = Vec::new();
    gll.push(0xF0);
    gll.push(0x03);
    gll.push(0x00);
    proof {
        assert(gll@ =~= seq![0xF0u8, 0x03, 0x00]);
    }

    let mut zda: Vec<u8> = Vec::new();
    zda.push(0xF0);
    zda.push(0x05);
    zda.push(0x00);
    proof {
        assert(zda@ =~= seq![0xF0u8, 0x05, 0x00]);
    }

    let mut frames: Vec<Vec<u8>> = Vec::new();
    frames.push(build_frame(0x06, 0x08, &refresh));
    frames.push(build_frame(0x05, 0x01, &gsv));
    frames.push(build_frame(0x06, 0x01, &vtg));
    frames.push(build_frame(0x06, 0x01, &gll));
    frames.push(build_frame(0x06, 0x01, &zda));
    frames
}

/// The airborne low-dynamics platform model configuration frame.
pub fn airborne_frame() -> (r: Vec<u8>)
    ensures
        r@ == frame_spec(0x06, 0x24, airborne_payload_spec()),
{
    let mut payload: Vec<u8> = Vec::new();
    payload.push(0xFF);
    payload.push(0xFF);
    payload.push(0x06);
    payload.push(0x03);
    payload.push(0x00);
    payload.push(0x00);
    payload.push(0x00);
    payload.push(0x00);
    payload.push(0x10);
    payload.push(0x27);
    payload.push(0x00);
    payload.push(0x00);
    payload.push(0x05);
    payload.push(0x00);
    payload.push(0xFA);
    payload.push(0x00);
    payload.push(0xFA);
    payload.push(0x00);
    payload.push(0x64);
    payload.push(0x00);
    payload.push(0x2C);
    payload.push(0x01);
    let mut i: usize = 0;
    while i < 14
        invariant
            i <= 14,
            payload@ == airborne_payload_spec().subrange(0, 22 + i as int),
        decreases 14 - i,
    {
        payload.push(0x00);
        i = i + 1;
    }
    proof {
        assert(payload@ =~= airborne_payload_spec());
    }
    build_frame(0x06, 0x24, &payload)
}

/// How many times each configuration frame is written during bring-up: the
/// power-up link is unreliable, so each frame is transmitted redundantly.
pub const CONFIG_FRAME_REPEATS: u32 = 100;

/// Pause between two writes of a configuration frame, in milliseconds.
pub const CONFIG_FRAME_DELAY_MS: u64 = 10;

/// How long the receiver is left off when power-cycling, in seconds.
pub const POWER_SETTLE_SECS: u64 = 2;

/// Total budget for the acknowledgment wait, in milliseconds.
pub const ACK_OUTER_MS: u64 = 6000;

/// Read window of one acknowledgment attempt, in milliseconds.
pub const ACK_INNER_MS: u64 = 3000;

/// Decision for a power switch: switching to the state the power pin
/// already has is a no-op that only warrants a warning.
#[derive(Debug, Clone, Copy, PartialEq, Eq, Structural)]
pub enum PowerAction {
    /// The pin already has the wanted value: only log a warning.
    WarnAlready,
    /// Set the power pin to this value.
    SetPin(bool),
}

/// Decides how to switch the receiver power: turning on when already on, or
/// off when already off, is a no-op that logs a warning rather than erroring.
pub fn power_action(is_on: bool, want_on: bool) -> (r: PowerAction)
    ensures
        r == if is_on == want_on {
            PowerAction::WarnAlready
        } else {
            PowerAction::SetPin(want_on)
        },
{
    if is_on == want_on {
        PowerAction::WarnAlready
    } else {
        PowerAction::SetPin(want_on)
    }
}

/// A step of the receiver bring-up session.
#[derive(Debug, Clone, Copy, PartialEq, Eq, Structural)]
pub enum GpsInitStep {
    /// Configure the power pin as an output.
    SetPinDirection,
    /// Read the power pin to learn whether the receiver is already on.
    CheckPower,
    /// The receiver was on: power it off and let it settle, to guarantee a
    /// known cold state.
    PowerOffSettle,
    /// Power the receiver on.
    PowerOn,
    /// Open the serial session at the configured path and baud rate.
    OpenSerial,
    /// Write configuration frame `msg` for the `repeat`-th time, then pause.
    SendConfig {
        /// Index into [`config_frames`].
        msg: usize,
        /// How many writes of this frame have completed.
        repeat: u32,
    },
    /// Run the acknowledgment wait for the airborne platform model frame.
    /// This step is best effort: its failure is logged and bring-up
    /// continues.
    EnterAirborne,
    /// Bring-up finished successfully.
    Done,
    /// Bring-up failed; the receiver is not initialized.
    Failed,
}

/// What happened while performing a bring-up action.
#[derive(Debug, Clone, Copy, PartialEq, Eq, Structural)]
pub enum GpsInitEvent {
    /// The action completed.
    Completed,
    /// The action failed.
    Errored,
    /// The power pin read this value.
    PowerIs(bool),
    /// The acknowledgment wait ended; `true` means the platform model was
    /// acknowledged.
    AirborneDone(bool),
}

/// The step that follows a step after an event. Any errored action is fatal
/// to the bring-up, except the best-effort airborne platform model step.
pub open spec fn gps_init_next_spec(step: GpsInitStep, ev: GpsInitEvent) -> GpsInitStep {
    match step {
        GpsInitStep::SetPinDirection => match ev {
            GpsInitEvent::Completed => GpsInitStep::CheckPower,
            _ => GpsInitStep::Failed,
        },
        GpsInitStep::CheckPower => match ev {
            GpsInitEvent::PowerIs(on) => if on {
                GpsInitStep::PowerOffSettle
            } else {
                GpsInitStep::PowerOn
            },
            _ => GpsInitStep::Failed,
        },
        GpsInitStep::PowerOffSettle => match ev {
            GpsInitEvent::Completed => GpsInitStep::PowerOn,
            _ => GpsInitStep::Failed,
        },
        GpsInitStep::PowerOn => match ev {
            GpsInitEvent::Completed => GpsInitStep::OpenSerial,
            _ => GpsInitStep::Failed,
        },
        GpsInitStep::OpenSerial => match ev {
            GpsInitEvent::Completed => GpsInitStep::SendConfig { msg: 0, repeat: 0 },
            _ => GpsInitStep::Failed,
        },
        GpsInitStep::SendConfig { msg, repeat } => match ev {
            GpsInitEvent::Completed => if repeat + 1 < CONFIG_FRAME_REPEATS {
                GpsInitStep::SendConfig { msg, repeat: (repeat + 1) as u32 }
            } else if msg + 1 < 5 {
                GpsInitStep::SendConfig { msg: (msg + 1) as usize, repeat: 0 }
            } else {
                GpsInitStep::EnterAirborne
            },
            _ => GpsInitStep::Failed,
        },
        GpsInitStep::EnterAirborne => match ev {
            GpsInitEvent::AirborneDone(_) => GpsInitStep::Done,
            _ => GpsInitStep::Failed,
        },
        GpsInitStep::Done => GpsInitStep::Done,
        GpsInitStep::Failed => GpsInitStep::Failed,
    }
}

/// A step stays inside the session's bounds: a configuration-frame step
/// always names one of the five frames and a repeat below the redundancy
/// count.
pub open spec fn gps_init_step_wf(step: GpsInitStep) -> bool {
    match step {
        GpsInitStep::SendConfig { msg, repeat } => msg < 5 && repeat < CONFIG_FRAME_REPEATS,
        _ => true,
    }
}

/// The receiver bring-up session: ensures the power pin is an output,
/// power-cycles an already-on receiver into a known cold state, opens the
/// serial session, writes each configuration frame redundantly, and then
/// attempts the airborne platform model, best effort.
#[derive(Debug, Clone, Copy)]
pub struct GpsInit {
    /// The step the session is at.
    pub step: GpsInitStep,
}

impl GpsInit {
    /// Starts a bring-up session.
    pub fn new() -> (r: GpsInit)
        ensures
            r.step == GpsInitStep::SetPinDirection,
    {
        GpsInit { step: GpsInitStep::SetPinDirection }
    }

    /// Feeds back what happened during the current step and moves to the
    /// next one.
    pub fn advance(&mut self, ev: GpsInitEvent)
        requires
            gps_init_step_wf(old(self).step),
        ensures
            final(self).step == gps_init_next_spec(old(self).step, ev),
            gps_init_step_wf(final(self).step),
    {
        let next = match self.step {
            GpsInitStep::SetPinDirection => match ev {
                GpsInitEvent::Completed => GpsInitStep::CheckPower,
                _ => GpsInitStep::Failed,
            },
            GpsInitStep::CheckPower => match ev {
                GpsInitEvent::PowerIs(on) => if on {
                    GpsInitStep::PowerOffSettle
                } else {
                    GpsInitStep::PowerOn
                },
                _ => GpsInitStep::Failed,
            },
            GpsInitStep::PowerOffSettle => match ev {
                GpsInitEvent::Completed => GpsInitStep::PowerOn,
                _ => GpsInitStep::Failed,
            },
            GpsInitStep::PowerOn => match ev {
                GpsInitEvent::Completed => GpsInitStep::OpenSerial,
                _ => GpsInitStep::Failed,
            },
            GpsInitStep::OpenSerial => match ev {
                GpsInitEvent::Completed => GpsInitStep::SendConfig { msg: 0, repeat: 0 },
                _ => GpsInitStep::Failed,
            },
            GpsInitStep::SendConfig { msg, repeat } => match ev {
                GpsInitEvent::Completed => if repeat + 1 < CONFIG_FRAME_REPEATS {
                    GpsInitStep::SendConfig { msg, repeat: repeat + 1 }
                } else if msg + 1 < 5 {
                    GpsInitStep::SendConfig { msg: msg + 1, repeat: 0 }
                } else {
                    GpsInitStep::EnterAirborne
                },
                _ => GpsInitStep::Failed,
            },
            GpsInitStep::EnterAirborne => match ev {
                GpsInitEvent::AirborneDone(_) => GpsInitStep::Done,
                _ => GpsInitStep::Failed,
            },
            GpsInitStep::Done => GpsInitStep::Done,
            GpsInitStep::Failed => GpsInitStep::Failed,
        };
        self.step = next;
    }

    /// Whether the session has ended, successfully or not.
    pub fn finished(&self) -> (r: bool)
        ensures
            r == (self.step == GpsInitStep::Done || self.step == GpsInitStep::Failed),
    {
        match self.step {
            GpsInitStep::Done => true,
            GpsInitStep::Failed => true,
            _ => false,
        }
    }

    /// The error a failed session reports.
    pub fn error(&self) -> (r: Option<error::Gps>)
        ensures
            r == if self.step == GpsInitStep::Failed {
                Some(error::Gps::Init)
            } else {
                None::<error::Gps>
            },
    {
        match self.step {
            GpsInitStep::Failed => Some(error::Gps::Init),
            _ => None,
        }
    }
}

} // verus!
