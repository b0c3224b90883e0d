use sysfetch::battery_report::BatteryReading;
use sysfetch::battery_report::BatteryState;
use sysfetch::battery_report::BatteryStatus;
use sysfetch::battery_report::get_battery_info;
use sysfetch::memory::get_total_memory_gb;
use sysfetch::report::CpuFacts;
use sysfetch::report::get_cpu_info;
use sysfetch::uptime::format_uptime;

#[test]
fn uptime_zero_seconds() {
    assert_eq!(format_uptime(0), "0m");
}

#[test]
fn uptime_under_a_minute() {
    assert_eq!(format_uptime(59), "0m");
}

#[test]
fn uptime_one_minute() {
    assert_eq!(format_uptime(60), "1m");
}

#[test]
fn uptime_hour_and_minute() {
    assert_eq!(format_uptime(3661), "1h 1m");
}

#[test]
fn uptime_day_hour_zero_minutes() {
    assert_eq!(format_uptime(90000), "1d 1h 0m");
}

#[test]
fn uptime_days_with_zero_hours() {
    // 2 days and 15 minutes: the hours segment stays because days was shown.
    assert_eq!(format_uptime(2 * 86400 + 15 * 60), "2d 0h 15m");
}

#[test]
fn memory_just_under_a_gigabyte_truncates_to_zero() {
    assert_eq!(get_total_memory_gb(1024 * 1024 * 1024 - 1), 0);
}

#[test]
fn memory_exactly_one_gigabyte() {
    assert_eq!(get_total_memory_gb(1024 * 1024 * 1024), 1);
}

#[test]
fn memory_sixteen_gigabytes() {
    assert_eq!(get_total_memory_gb(16 * 1024 * 1024 * 1024), 16);
}

#[test]
fn memory_monotonic_samples() {
    let mut previous = 0;
    for bytes in [0u64, 1 << 20, 1 << 30, (1 << 30) + 1, 1 << 34, 1 << 40] {
        let gb = get_total_memory_gb(bytes);
        assert!(gb >= previous);
        previous = gb;
    }
}

#[test]
fn percentage_of_fraction_stays_in_range() {
    for p in [0.0f32, 0.004, 0.5, 0.876, 0.999, 1.0] {
        let percent = (p * 100.0) as u8;
        assert!(percent <= 100);
        assert_eq!(percent as f32, (p * 100.0).floor());
    }
}

#[test]
fn battery_not_detected() {
    assert_eq!(get_battery_info(&BatteryStatus::NotDetected), "Battery: Not detected");
}

#[test]
fn battery_charging_with_estimate() {
    let reading = BatteryReading {
        percent: 87,
        state: BatteryState::Charging,
        estimate_seconds: Some(3720),
    };
    assert_eq!(
        get_battery_info(&BatteryStatus::Present(reading)),
        "Battery: 87% (Charging) (1h2m until full)"
    );
}

#[test]
fn battery_discharging_with_estimate() {
    let reading = BatteryReading {
        percent: 42,
        state: BatteryState::Discharging,
        estimate_seconds: Some(605),
    };
    assert_eq!(
        get_battery_info(&BatteryStatus::Present(reading)),
        "Battery: 42% (Discharging) (0h10m remaining)"
    );
}

#[test]
fn battery_charging_without_estimate_has_no_suffix() {
    let reading = BatteryReading {
        percent: 50,
        state: BatteryState::Charging,
        estimate_seconds: None,
    };
    assert_eq!(get_battery_info(&BatteryStatus::Present(reading)), "Battery: 50% (Charging)");
}

#[test]
fn battery_discharging_without_estimate_has_no_suffix() {
    let reading = BatteryReading {
        percent: 63,
        state: BatteryState::Discharging,
        estimate_seconds: None,
    };
    assert_eq!(get_battery_info(&BatteryStatus::Present(reading)), "Battery: 63% (Discharging)");
}

#[test]
fn battery_full_ignores_estimate() {
    let reading = BatteryReading {
        percent: 100,
        state: BatteryState::Full,
        estimate_seconds: Some(1200),
    };
    assert_eq!(get_battery_info(&BatteryStatus::Present(reading)), "Battery: 100% (Full)");
}

#[test]
fn battery_unknown_state() {
    let reading = BatteryReading {
        percent: 5,
        state: BatteryState::Unknown,
        estimate_seconds: None,
    };
    assert_eq!(get_battery_info(&BatteryStatus::Present(reading)), "Battery: 5% (Unknown)");
}

#[test]
fn cpu_line_rounds_to_two_decimals() {
    let cpu = CpuFacts { brand: String::from("Example CPU"), frequency_mhz: 2499 };
    assert_eq!(get_cpu_info(Some(cpu)), Some(String::from("CPU Model: Example CPU @ 2.50 GHz")));
}

#[test]
fn cpu_line_pads_the_fraction() {
    let cpu = CpuFacts { brand: String::from("Example CPU"), frequency_mhz: 3002 };
    assert_eq!(get_cpu_info(Some(cpu)), Some(String::from("CPU Model: Example CPU @ 3.00 GHz")));
}

#[test]
fn cpu_absent_yields_no_line() {
    assert_eq!(get_cpu_info(None), None);
}
