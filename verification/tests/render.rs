use alphamon_cli::numfmt::{bool_to_str, u32_to_string};
use alphamon_cli::render::{
    render_alarm, render_autonomy, render_extra_info, render_info, render_rating, render_response,
    render_status,
};
use alphamon_cli::report::{
    AlarmReport, AutonomyReport, ExtraInfoReport, InfoReport, QueryResponse, RatingReport,
    StatusFlags, StatusReport,
};

fn sample_status(offline: bool) -> StatusReport {
    StatusReport {
        input_voltage: String::from("230"),
        input_fault_voltage: String::from("228.5"),
        output_voltage: String::from("229.8"),
        output_load_percentage: 42,
        input_frequency: String::from("50"),
        battery_capacity: 88,
        temperature: String::from("31.5"),
        flags: StatusFlags {
            utility_fail: false,
            battery_low: false,
            bypass_or_transformer_active: true,
            battery_abnormal: false,
            offline,
            test_in_progress: false,
            shutdown_active: false,
            beeper_on: true,
        },
    }
}

#[test]
fn status_template_offline_label() {
    let out = render_status(&sample_status(true));
    let expected = "Input voltage: 230 V\n\
                    Input fault voltage: 228.5 V\n\
                    Input frequency: 50 Hz\n\
                    \n\
                    Output voltage: 229.8 V\n\
                    Output load percentage: 42 %\n\
                    \n\
                    Battery capacity: 88 %\n\
                    \n\
                    Temperature: 31.5 °C\n\
                    \n\
                    Utility fail: false\n\
                    Battery low: false\n\
                    Boost/buck converter active: true\n\
                    Battery abnormal: false\n\
                    Offline: true\n\
                    Test in progress: false\n\
                    Shutdown active: false\n\
                    Beeper on: true\n";
    assert_eq!(out, expected);
}

#[test]
fn status_template_online_label() {
    let out = render_status(&sample_status(false));
    assert!(out.contains("Bypass mode: true\n"));
    assert!(!out.contains("Boost/buck converter active"));
    assert!(out.contains("Offline: false\n"));
}

#[test]
fn extra_info_template_exact() {
    let rec = ExtraInfoReport {
        output_frequency: String::from("50.1"),
        battery_voltage: String::from("13.52"),
        battery_cut_voltage: String::from("9.6"),
        wattage: 150,
        error_code: 3,
        load_current: String::from("0.7"),
    };
    let out = render_extra_info(&rec);
    let expected = "Output frequency: 50.1 Hz\n\
                    UPS load: 150 W\n\
                    Load current: 0.7 A\n\
                    \n\
                    Battery voltage: 13.52 V\n\
                    Battery cut voltage: 9.6 V\n\
                    \n\
                    Error code: 3\n";
    assert_eq!(out, expected);
}

#[test]
fn autonomy_3661_renders_hours_and_minutes_no_subseconds() {
    let out = render_autonomy(&AutonomyReport { seconds: 3661 });
    assert_eq!(out, "Time left: 1h 1m 1s");
    assert!(out.contains("1h"));
    assert!(out.contains("1m"));
    assert!(!out.contains("ms"));
    assert!(!out.contains('.'));
}

#[test]
fn autonomy_zero_seconds() {
    let out = render_autonomy(&AutonomyReport { seconds: 0 });
    assert_eq!(out, "Time left: 0s");
}

#[test]
fn alarm_template_exact() {
    let rec = AlarmReport {
        inverter_on: true,
        ups_alarm_on: false,
    };
    let out = render_alarm(&rec);
    assert_eq!(out, "Inverter on: true\nUPS alarm on: false\n");
}

#[test]
fn rating_template_exact() {
    let rec = RatingReport {
        output_rating_voltage: String::from("230"),
        output_rating_current: 4,
        battery_voltage: String::from("12"),
        output_rating_frequency: String::from("50"),
    };
    let out = render_rating(&rec);
    let expected = "Output rating voltage: 230 V\n\
                    Output rating current: 4 A\n\
                    Output rating frequency: 50 Hz\n\
                    \n\
                    Battery voltage: 12 V\n";
    assert_eq!(out, expected);
}

#[test]
fn info_template_exactly_three_lines() {
    let rec = InfoReport {
        manufacturer_name: String::from("AlphaOutback"),
        model: String::from("X1000"),
        version: String::from("1.2"),
    };
    let out = render_info(&rec);
    assert_eq!(out, "Manufacturer: AlphaOutback\nModel: X1000\nVersion: 1.2\n");
    let lines: Vec<&str> = out.lines().collect();
    assert_eq!(
        lines,
        vec!["Manufacturer: AlphaOutback", "Model: X1000", "Version: 1.2"]
    );
}

#[test]
fn response_dispatch_matches_each_renderer() {
    let alarm = AlarmReport {
        inverter_on: false,
        ups_alarm_on: true,
    };
    assert_eq!(
        render_response(&QueryResponse::Alarm(alarm)),
        render_alarm(&alarm)
    );
    let autonomy = AutonomyReport { seconds: 90 };
    assert_eq!(
        render_response(&QueryResponse::Autonomy(autonomy)),
        "Time left: 1m 30s"
    );
    let info = InfoReport {
        manufacturer_name: String::from("A"),
        model: String::from("B"),
        version: String::from("C"),
    };
    assert_eq!(
        render_response(&QueryResponse::Info(info)),
        "Manufacturer: A\nModel: B\nVersion: C\n"
    );
}

#[test]
fn decimal_rendering_exact() {
    assert_eq!(u32_to_string(0), "0");
    assert_eq!(u32_to_string(7), "7");
    assert_eq!(u32_to_string(42), "42");
    assert_eq!(u32_to_string(1000), "1000");
    assert_eq!(u32_to_string(u32::MAX), "4294967295");
}

#[test]
fn boolean_rendering_exact() {
    assert_eq!(bool_to_str(true), "true");
    assert_eq!(bool_to_str(false), "false");
}
