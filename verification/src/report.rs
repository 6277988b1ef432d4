//! The telemetry records a UPS answers with, one per query kind.
//!
//! Every record is a plain immutable value. Readings that the device
//! protocol reports as fractional numbers (voltages, frequencies,
//! currents, temperature) arrive here as their already-rendered decimal
//! text: the caller that decodes the wire response formats them before
//! handing the record in, and the templates embed the text as it is.

use vstd::prelude::*;

verus! {

/// The eight boolean status flags of the status inquiry.
#[derive(Clone, Copy, PartialEq, Eq, Structural, Debug)]
pub struct StatusFlags {
    pub utility_fail: bool,
    pub battery_low: bool,
    /// When `offline` is set this flag means "boost/buck converter
    /// active"; when the UPS is online it means "bypass mode".
    pub bypass_or_transformer_active: bool,
    pub battery_abnormal: bool,
    pub offline: bool,
    pub test_in_progress: bool,
    pub shutdown_active: bool,
    pub beeper_on: bool,
}

/// Status inquiry: line readings, battery capacity and the status flags.
#[derive(Debug)]
pub struct StatusReport {
    /// Input voltage reading, in volts.
    pub input_voltage: String,
    /// Input fault voltage reading, in volts.
    pub input_fault_voltage: String,
    /// Output voltage reading, in volts.
    pub output_voltage: String,
    /// Output load, in percent.
    pub output_load_percentage: u32,
    /// Input frequency reading, in hertz.
    pub input_frequency: String,
    /// Battery capacity, in percent.
    pub battery_capacity: u32,
    /// Temperature reading, in degrees Celsius.
    pub temperature: String,
    pub flags: StatusFlags,
}

/// Extra power info: output frequency, battery voltages, load figures
/// and the device's numeric error code (not symbolically decoded).
#[derive(Debug)]
pub struct ExtraInfoReport {
    /// Output frequency reading, in hertz.
    pub output_frequency: String,
    /// Battery voltage reading, in volts.
    pub battery_voltage: String,
    /// Battery cut-off voltage, in volts.
    pub battery_cut_voltage: String,
    /// Load on the UPS, in watts.
    pub wattage: u32,
    /// Undocumented numeric error code.
    pub error_code: u16,
    /// Load current reading, in amperes.
    pub load_current: String,
}

/// Autonomy: the remaining runtime on battery, in whole seconds.
#[derive(Clone, Copy, PartialEq, Eq, Structural, Debug)]
pub struct AutonomyReport {
    pub seconds: u64,
}

/// Alarm inquiry: inverter and alarm state.
#[derive(Clone, Copy, PartialEq, Eq, Structural, Debug)]
pub struct AlarmReport {
    pub inverter_on: bool,
    pub ups_alarm_on: bool,
}

/// Rating info: the rated output figures and battery voltage.
#[derive(Debug)]
pub struct RatingReport {
    /// Rated output voltage, in volts.
    pub output_rating_voltage: String,
    /// Rated output current, in amperes.
    pub output_rating_current: u32,
    /// Rated battery voltage, in volts.
    pub battery_voltage: String,
    /// Rated output frequency, in hertz.
    pub output_rating_frequency: String,
}

/// Device identity: manufacturer, model and firmware version.
#[derive(Debug)]
pub struct InfoReport {
    pub manufacturer_name: String,
    pub model: String,
    pub version: String,
}

/// The closed set of query responses: one variant per query kind, so
/// that rendering is a single exhaustive match.
#[derive(Debug)]
pub enum QueryResponse {
    Status(StatusReport),
    ExtraInfo(ExtraInfoReport),
    Autonomy(AutonomyReport),
    Alarm(AlarmReport),
    Rating(RatingReport),
    Info(InfoReport),
}

} // verus!
