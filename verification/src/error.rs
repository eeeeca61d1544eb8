//! Error module.
//!
//! Every fallible operation of the library reports one of the enumerations
//! below, so a failure can be traced to the peripheral and the protocol step
//! where it happened without any logs from the hardware itself.

use vstd::prelude::*;

verus! {

/// Errors that happened in a certain part of the logic.
#[derive(Debug, Clone, Copy, PartialEq, Eq, Structural)]
pub enum Logic {
    /// Initialization error.
    Init,
}

/// Positioning-receiver errors.
#[derive(Debug, Clone, PartialEq, Eq)]
pub enum Gps {
    /// Receiver initialization error.
    Init,
    /// The receiver was already initialized when trying to initialize it.
    AlreadyInitialized,
    /// Invalid fix status code.
    InvalidStatus {
        /// The invalid fix status code that was received.
        status: String,
    },
}

/// Errors dealing with the file system.
#[derive(Debug, Clone, PartialEq, Eq)]
pub enum Fs {
    /// Error initializing the data file system.
    DataInit,
    /// Error creating a directory.
    DirectoryCreation {
        /// Path to the directory meant to be created.
        path: String,
    },
}

/// Errors handling loggers and logs.
#[derive(Debug, Clone, PartialEq, Eq)]
pub enum Log {
    /// Error creating a log appender.
    Appender {
        /// The name of the log appender.
        name: String,
    },
    /// Error building the logger.
    Build,
}

/// Errors related to reading and modifying the last known state.
#[derive(Debug, Clone, PartialEq, Eq)]
pub enum LastState {
    /// Error opening the last state file.
    FileOpen,
    /// Error reading the last state file.
    FileRead,
    /// Error writing the last state file.
    FileWrite,
    /// Error reading the last state.
    Read,
    /// Invalid last state found.
    Invalid {
        /// The invalid state found.
        state: String,
    },
}

/// Errors related to the use of the cellular modem.
#[derive(Debug, Clone, PartialEq, Eq)]
pub enum Fona {
    /// Error initializing the modem.
    Init,
    /// The modem did not turn on.
    PowerOn,
    /// Error turning the modem's command echo off.
    EchoOff,
    /// No open serial connection when trying to talk to the modem.
    NoSerial,
    /// End of stream found when reading the modem serial.
    SerialEnd,
    /// SMS was longer than the 160 character limit.
    LongSms,
    /// Error sending SMS on the text-mode configuration response.
    SmsAtCmgf,
    /// Error sending the send-to-number command when sending an SMS.
    SmsAtCmgs,
    /// Error reading the SMS-reference response after sending an SMS.
    SmsCmgs,
    /// No OK received after sending SMS.
    SmsOk,
    /// Error getting location on the text-mode configuration response.
    LocAtCmgf,
    /// Error getting location on the packet-data attach response.
    LocAtCgatt,
    /// Error getting location on the bearer-open response.
    LocAtSapbr,
    /// Error getting location on the bearer connection-type response.
    LocAtSapbrContype,
    /// Error getting location on the bearer access-point response.
    LocAtSapbrApn,
    /// Error getting location on the location-query response.
    LocAtCipgsmloc,
    /// Error turning the packet-data bearer down.
    LocAtGprsDown,
    /// Error getting longitude from the location response.
    LocLon,
    /// Error getting latitude from the location response.
    LocLat,
    /// Error reading the line terminator echoed after sending a command.
    SendCommandCrlf,
    /// The modem returned a partial response before the read timed out.
    PartialResponse {
        /// Contents of the partial response.
        response: String,
    },
    /// I/O error when trying to send a command to the modem.
    Command,
    /// Invalid response to the battery-charge query.
    CBCInvalidResponse,
    /// Invalid response to the analog-digital-converter query.
    CADCInvalidResponse,
}

/// Errors related to the camera.
#[derive(Debug, Clone, PartialEq, Eq)]
pub enum Raspicam {
    /// Camera was already recording.
    AlreadyRecording,
    /// Camera output file already exists.
    FileExists {
        /// File that was not supposed to exist.
        file: String,
    },
    /// Camera testing error.
    Test,
    /// Error removing the camera test file.
    TestRemove {
        /// Output file for the test.
        test_file: String,
    },
}

/// Errors related to logic initialization.
#[derive(Debug, Clone, Copy, PartialEq, Eq, Structural)]
pub enum Init {
    /// Error initializing the positioning receiver.
    Gps,
    /// Error initializing the modem.
    Fona,
    /// Error checking network connectivity.
    CheckGsmConnectivity,
    /// Error checking battery status.
    CheckBatteries,
    /// Not enough battery for the flight.
    NotEnoughBattery,
}

} // verus!
