//! Rendering of each telemetry record to its fixed text template.
//!
//! One render function per record, plus one exhaustive dispatch over
//! the closed set of responses. Every function's output is pinned,
//! character for character, by a spec template; a template either
//! renders whole or not at all, since it is built from a complete
//! record only.

use crate::numfmt::{bool_str, bool_to_str, dec_str, u32_to_string};
use crate::report::{
    AlarmReport, AutonomyReport, ExtraInfoReport, InfoReport, QueryResponse, RatingReport,
    StatusReport,
};
use vstd::prelude::*;
use vstd::string::*;

verus! {

/// The label of the "bypass or transformer active" flag: the offline
/// flag alone decides which of the two meanings the flag carries.
pub open spec fn spec_status_flag_label(offline: bool) -> Seq<char> {
    if offline {
        "Boost/buck converter active"@
    } else {
        "Bypass mode"@
    }
}

/// Law: the boolean-flag label of the status template depends on the
/// offline flag alone — "Boost/buck converter active" when the UPS is
/// offline, "Bypass mode" when it is online — whatever every other
/// field of the record holds.
pub proof fn lemma_status_flag_label(offline: bool)
    ensures
        offline ==> spec_status_flag_label(offline) == "Boost/buck converter active"@,
        !offline ==> spec_status_flag_label(offline) == "Bypass mode"@,
{
}

/// The status template.
pub open spec fn spec_render_status(r: StatusReport) -> Seq<char> {
    "Input voltage: "@ + r.input_voltage@ + " V\nInput fault voltage: "@ + r.input_fault_voltage@
        + " V\nInput frequency: "@ + r.input_frequency@ + " Hz\n\nOutput voltage: "@
        + r.output_voltage@ + " V\nOutput load percentage: "@ + dec_str(
        r.output_load_percentage as nat,
    ) + " %\n\nBattery capacity: "@ + dec_str(r.battery_capacity as nat)
        + " %\n\nTemperature: "@ + r.temperature@ + " °C\n\nUtility fail: "@ + bool_str(
        r.flags.utility_fail,
    ) + "\nBattery low: "@ + bool_str(r.flags.battery_low) + "\n"@ + spec_status_flag_label(
        r.flags.offline,
    ) + ": "@ + bool_str(r.flags.bypass_or_transformer_active) + "\nBattery abnormal: "@
        + bool_str(r.flags.battery_abnormal) + "\nOffline: "@ + bool_str(r.flags.offline)
        + "\nTest in progress: "@ + bool_str(r.flags.test_in_progress) + "\nShutdown active: "@
        + bool_str(r.flags.shutdown_active) + "\nBeeper on: "@ + bool_str(r.flags.beeper_on)
        + "\n"@
}

/// The extra-power-info template.
pub open spec fn spec_render_extra_info(r: ExtraInfoReport) -> Seq<char> {
    "Output frequency: "@ + r.output_frequency@ + " Hz\nUPS load: "@ + dec_str(r.wattage as nat)
        + " W\nLoad current: "@ + r.load_current@ + " A\n\nBattery voltage: "@
        + r.battery_voltage@ + " V\nBattery cut voltage: "@ + r.battery_cut_voltage@
        + " V\n\nError code: "@ + dec_str(r.error_code as nat) + "\n"@
}

/// What the duration-humanizing library renders for a duration of the
/// given whole number of seconds, truncated at second granularity.
pub uninterp spec fn human_secs_of(secs: int) -> Seq<char>;

/// Relies on humanize_duration's `DurationExt::human` for
/// `core::time::Duration` with `Truncate::Second`: the rendered phrase
/// is computed from the duration value alone.
#[verifier::external_body]
fn humanize_seconds(secs: u64) -> (r: String)
    ensures
        r@ == human_secs_of(secs as int),
{
    let d = core::time::Duration::from_secs(secs);
    let f = humanize_duration::prelude::DurationExt::human(&d, humanize_duration::Truncate::Second);
    format!("{}", f)
}

/// The autonomy template: a single line, no trailing newline.
pub open spec fn spec_render_autonomy(r: AutonomyReport) -> Seq<char> {
    "Time left: "@ + human_secs_of(r.seconds as int)
}

/// The alarm template.
pub open spec fn spec_render_alarm(r: AlarmReport) -> Seq<char> {
    "Inverter on: "@ + bool_str(r.inverter_on) + "\nUPS alarm on: "@ + bool_str(r.ups_alarm_on)
        + "\n"@
}

/// The rating template.
pub open spec fn spec_render_rating(r: RatingReport) -> Seq<char> {
    "Output rating voltage: "@ + r.output_rating_voltage@ + " V\nOutput rating current: "@
        + dec_str(r.output_rating_current as nat) + " A\nOutput rating frequency: "@
        + r.output_rating_frequency@ + " Hz\n\nBattery voltage: "@ + r.battery_voltage@ + " V\n"@
}

/// The device-identity template: exactly three labelled lines.
pub open spec fn spec_render_info(r: InfoReport) -> Seq<char> {
    "Manufacturer: "@ + r.manufacturer_name@ + "\nModel: "@ + r.model@ + "\nVersion: "@
        + r.version@ + "\n"@
}

/// Renders a status record.
pub fn render_status(r: &StatusReport) -> (out: String)
    ensures
        out@ == spec_render_status(*r),
{
    let mut out = String::from_str("Input voltage: ");
    out.append(r.input_voltage.as_str());
    out.append(" V\nInput fault voltage: ");
    out.append(r.input_fault_voltage.as_str());
    out.append(" V\nInput frequency: ");
    out.append(r.input_frequency.as_str());
    out.append(" Hz\n\nOutput voltage: ");
    out.append(r.output_voltage.as_str());
    out.append(" V\nOutput load percentage: ");
    let load = u32_to_string(r.output_load_percentage);
    out.append(load.as_str());
    out.append(" %\n\nBattery capacity: ");
    let capacity = u32_to_string(r.battery_capacity);
    out.append(capacity.as_str());
    out.append(" %\n\nTemperature: ");
    out.append(r.temperature.as_str());
    out.append(" °C\n\nUtility fail: ");
    out.append(bool_to_str(r.flags.utility_fail));
    out.append("\nBattery low: ");
    out.append(bool_to_str(r.flags.battery_low));
    out.append("\n");
    if r.flags.offline {
        out.append("Boost/buck converter active");
    } else {
        out.append("Bypass mode");
    }
    out.append(": ");
    out.append(bool_to_str(r.flags.bypass_or_transformer_active));
    out.append("\nBattery abnormal: ");
    out.append(bool_to_str(r.flags.battery_abnormal));
    out.append("\nOffline: ");
    out.append(bool_to_str(r.flags.offline));
    out.append("\nTest in progress: ");
    out.append(bool_to_str(r.flags.test_in_progress));
    out.append("\nShutdown active: ");
    out.append(bool_to_str(r.flags.shutdown_active));
    out.append("\nBeeper on: ");
    out.append(bool_to_str(r.flags.beeper_on));
    out.append("\n");
    out
}

/// Renders an extra-power-info record.
pub fn render_extra_info(r: &ExtraInfoReport) -> (out: String)
    ensures
        out@ == spec_render_extra_info(*r),
{
    let mut out = String::from_str("Output frequency: ");
    out.append(r.output_frequency.as_str());
    out.append(" Hz\nUPS load: ");
    let watts = u32_to_string(r.wattage);
    out.append(watts.as_str());
    out.append(" W\nLoad current: ");
    out.append(r.load_current.as_str());
    out.append(" A\n\nBattery voltage: ");
    out.append(r.battery_voltage.as_str());
    out.append(" V\nBattery cut voltage: ");
    out.append(r.battery_cut_voltage.as_str());
    out.append(" V\n\nError code: ");
    let code = u32_to_string(r.error_code as u32);
    out.append(code.as_str());
    out.append("\n");
    out
}

/// Renders an autonomy record as a human-friendly duration phrase,
/// truncated to whole seconds.
pub fn render_autonomy(r: &AutonomyReport) -> (out: String)
    ensures
        out@ == spec_render_autonomy(*r),
{
    let mut out = String::from_str("Time left: ");
    let phrase = humanize_seconds(r.seconds);
    out.append(phrase.as_str());
    out
}

/// Renders an alarm record.
pub fn render_alarm(r: &AlarmReport) -> (out: String)
    ensures
        out@ == spec_render_alarm(*r),
{
    let mut out = String::from_str("Inverter on: ");
    out.append(bool_to_str(r.inverter_on));
    out.append("\nUPS alarm on: ");
    out.append(bool_to_str(r.ups_alarm_on));
    out.append("\n");
    out
}

/// Renders a rating record.
pub fn render_rating(r: &RatingReport) -> (out: String)
    ensures
        out@ == spec_render_rating(*r),
{
    let mut out = String::from_str("Output rating voltage: ");
    out.append(r.output_rating_voltage.as_str());
    out.append(" V\nOutput rating current: ");
    let current = u32_to_string(r.output_rating_current);
    out.append(current.as_str());
    out.append(" A\nOutput rating frequency: ");
    out.append(r.output_rating_frequency.as_str());
    out.append(" Hz\n\nBattery voltage: ");
    out.append(r.battery_voltage.as_str());
    out.append(" V\n");
    out
}

/// Renders a device-identity record.
pub fn render_info(r: &InfoReport) -> (out: String)
    ensures
        out@ == spec_render_info(*r),
{
    let mut out = String::from_str("Manufacturer: ");
    out.append(r.manufacturer_name.as_str());
    out.append("\nModel: ");
    out.append(r.model.as_str());
    out.append("\nVersion: ");
    out.append(r.version.as_str());
    out.append("\n");
    out
}

/// The template of any response: one case per query kind.
pub open spec fn spec_render_response(resp: QueryResponse) -> Seq<char> {
    match resp {
        QueryResponse::Status(r) => spec_render_status(r),
        QueryResponse::ExtraInfo(r) => spec_render_extra_info(r),
        QueryResponse::Autonomy(r) => spec_render_autonomy(r),
        QueryResponse::Alarm(r) => spec_render_alarm(r),
        QueryResponse::Rating(r) => spec_render_rating(r),
        QueryResponse::Info(r) => spec_render_info(r),
    }
}

/// Renders any query response: the single exhaustive dispatch over the
/// closed set of response kinds.
pub fn render_response(resp: &QueryResponse) -> (out: String)
    ensures
        out@ == spec_render_response(*resp),
{
    match resp {
        QueryResponse::Status(r) => render_status(r),
        QueryResponse::ExtraInfo(r) => render_extra_info(r),
        QueryResponse::Autonomy(r) => render_autonomy(r),
        QueryResponse::Alarm(r) => render_alarm(r),
        QueryResponse::Rating(r) => render_rating(r),
        QueryResponse::Info(r) => render_info(r),
    }
}

} // verus!
