//! Initialization checks.
//!
//! The decisions the initialization phase makes before committing to a
//! flight: whether the available disk space suffices, and whether the two
//! batteries hold enough charge for the planned flight length. Voltages are
//! in millivolts and percentages in per-mille, so every comparison here is
//! an exact integer comparison; a battery level never materializes as an
//! inexact quotient.

use vstd::prelude::*;

use crate::config::Battery;
use crate::error;
use crate::fona::{BAT_FONA_MAX_MV, BAT_FONA_MIN_MV};

verus! {

/// Disk space required without a camera, in bytes.
pub const DISK_SPACE_FLOOR: u64 = 2147483648;

/// The battery thresholds make sense and are small enough that every level
/// comparison fits comfortably in the arithmetic below: voltages within a
/// hundred volts, minimum levels within per-mille range.
pub open spec fn battery_wf(b: Battery) -> bool {
    &&& 0 <= b.main_min < b.main_max <= 100000
    &&& 0 <= b.fona_min < b.fona_max <= 100000
    &&& 0 <= b.main_min_percent <= 1000
    &&& 0 <= b.fona_min_percent <= 1000
}

/// The main battery level, read through the analog-digital converter, is
/// below its minimum: `(adc_mv - main_min) / (main_max - main_min) <
/// main_min_percent / 1000`, compared without dividing.
pub open spec fn main_battery_low_spec(b: Battery, adc_mv: i64) -> bool {
    (adc_mv - b.main_min) * 1000 < b.main_min_percent * (b.main_max - b.main_min)
}

/// The main battery reads as connected: its level is above minus one, the
/// reading of a disconnected converter.
pub open spec fn main_battery_connected_spec(b: Battery, adc_mv: i64) -> bool {
    adc_mv - b.main_min > -(b.main_max - b.main_min)
}

/// The modem battery level is below its minimum: `(fona_mv - fona_min) /
/// (fona_max - fona_min) < fona_min_percent / 1000`, compared without
/// dividing.
pub open spec fn fona_battery_low_spec(b: Battery, fona_mv: i64) -> bool {
    (fona_mv - b.fona_min) * 1000 < b.fona_min_percent * (b.fona_max - b.fona_min)
}

/// Checks the batteries of the probe: the launch needs the main battery at
/// its minimum level (unless it reads as disconnected) and the modem battery
/// at its own minimum. `fona_mv` is the modem battery voltage and `adc_mv`
/// the main battery voltage read through the converter, both in millivolts.
pub fn check_batteries(battery: &Battery, fona_mv: i64, adc_mv: i64) -> (r: Result<
    (),
    error::Init,
>)
    requires
        battery_wf(*battery),
        -1000000000 <= fona_mv <= 1000000000,
        -1000000000 <= adc_mv <= 1000000000,
    ensures
        r == if (main_battery_low_spec(*battery, adc_mv) && main_battery_connected_spec(
            *battery,
            adc_mv,
        )) || fona_battery_low_spec(*battery, fona_mv) {
            Err::<(), error::Init>(error::Init::NotEnoughBattery)
        } else {
            Ok::<(), error::Init>(())
        },
{
    let main_range = battery.main_max - battery.main_min;
    let fona_range = battery.fona_max - battery.fona_min;
    proof {
        assert(0 <= battery.main_min_percent * main_range <= 100000000) by (nonlinear_arith)
            requires
                0 <= battery.main_min_percent <= 1000,
                0 < main_range <= 100000,
        ;
        assert(0 <= battery.fona_min_percent * fona_range <= 100000000) by (nonlinear_arith)
            requires
                0 <= battery.fona_min_percent <= 1000,
                0 < fona_range <= 100000,
        ;
    }
    let main_low = (adc_mv - battery.main_min) * 1000 < battery.main_min_percent * main_range;
    let main_connected = adc_mv - battery.main_min > -main_range;
    let fona_low = (fona_mv - battery.fona_min) * 1000 < battery.fona_min_percent * fona_range;
    if (main_low && main_connected) || fona_low {
        Err(error::Init::NotEnoughBattery)
    } else {
        Ok(())
    }
}

/// The modem battery level in per-mille, from its voltage in millivolts:
/// the span from the empty voltage to the full one, scaled to a thousand.
/// Exact, since the span divides the scale.
pub fn fona_battery_level(fona_mv: i64) -> (r: i64)
    requires
        -1000000000 <= fona_mv <= 1000000000,
    ensures
        r == (fona_mv - BAT_FONA_MIN_MV) * 1000 / (BAT_FONA_MAX_MV - BAT_FONA_MIN_MV),
        r == (fona_mv - BAT_FONA_MIN_MV) * 2,
{
    proof {
        assert((fona_mv - BAT_FONA_MIN_MV) * 1000 / 500 == (fona_mv - BAT_FONA_MIN_MV) * 2)
            by (nonlinear_arith);
    }
    (fona_mv - BAT_FONA_MIN_MV) * 2
}

/// Whether the available disk space is enough: with a camera, 1.2 times the
/// flight length of video at the configured bitrate; without one, a fixed
/// floor.
pub fn enough_disk_space(
    has_camera: bool,
    available: u64,
    flight_length_min: u32,
    bitrate: u32,
) -> (r: bool)
    requires
        (flight_length_min as int) * 360 * (bitrate as int) <= u64::MAX,
    ensures
        r == if has_camera {
            (available as int) > (flight_length_min as int) * 6 * 60 * (bitrate as int) / (
            40int)
        } else {
            available > DISK_SPACE_FLOOR
        },
{
    if has_camera {
        let need = (flight_length_min as u64) * 6 * 60 * (bitrate as u64) / (8 * 5);
        available > need
    } else {
        available > DISK_SPACE_FLOOR
    }
}

} // verus!
