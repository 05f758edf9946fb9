//! Formatter behaviour: per-kind formatting rules, unit conversions,
//! duration bucket selection, and the decimal text helpers.

use ffetch::format::{format_value, FormatStyle};
use ffetch::numtext::{nat_text, pad_text, repeat_text};
use ffetch::probe::ProbeValue;

#[test]
fn duration_boundaries_neofetch() {
    let f = |secs: usize| format_value(FormatStyle::Neofetch, &ProbeValue::Uptime(secs));
    // Smallest unit: zero falls through every bucket down to seconds.
    assert_eq!(f(0), "0 seconds");
    // 59 seconds: the minutes bucket is 0, so seconds are shown.
    assert_eq!(f(59), "59 seconds");
    assert_eq!(f(60), "1 mins");
    assert_eq!(f(3599), "59 mins");
    // 3661 seconds: days is 0, so the hours+minutes branch is taken.
    assert_eq!(f(3661), "1 hours, 1 mins");
    // One day, one hour, one minute, one second.
    assert_eq!(f(90061), "1 days, 1 hours, 1 mins");
}

#[test]
fn duration_boundaries_macchina() {
    let f = |secs: usize| format_value(FormatStyle::Macchina, &ProbeValue::Uptime(secs));
    assert_eq!(f(0), "0s");
    assert_eq!(f(59), "59s");
    assert_eq!(f(60), "1m");
    assert_eq!(f(3661), "1h 1m");
    assert_eq!(f(90061), "1d 1h 1m");
}

#[test]
fn memory_exact_mib_passthrough() {
    // Stored in KiB; the macchina style shows MiB, so values that are whole
    // MiB pass through exactly.
    let v = ProbeValue::Memory(46863 * 1024, 64290 * 1024);
    assert_eq!(format_value(FormatStyle::Macchina, &v), "46863 MiB / 64290 MiB");
}

#[test]
fn memory_rounded_gib() {
    // 46863 MiB is 45.76 GiB, 64290 MiB is 62.78 GiB.
    let v = ProbeValue::Memory(46863 * 1024, 64290 * 1024);
    assert_eq!(format_value(FormatStyle::Neofetch, &v), "46 GiB / 63 GiB");
}

#[test]
fn disk_gib_and_percentage() {
    let v = ProbeValue::Disk(500_000_000_000, 1_000_000_000_000);
    assert_eq!(format_value(FormatStyle::Neofetch, &v), "466 G / 931 G (50%)");
    assert_eq!(format_value(FormatStyle::Macchina, &v), "466 G / 931 G (50%)");
    // A zero total renders as zero percent rather than failing.
    let empty = ProbeValue::Disk(0, 0);
    assert_eq!(format_value(FormatStyle::Neofetch, &empty), "0 G / 0 G (0%)");
}

#[test]
fn percentage_scalars() {
    assert_eq!(
        format_value(FormatStyle::Neofetch, &ProbeValue::CPUUsage(12)),
        "12%"
    );
    assert_eq!(
        format_value(FormatStyle::Neofetch, &ProbeValue::Battery(86)),
        "86%"
    );
    assert_eq!(
        format_value(FormatStyle::Macchina, &ProbeValue::Battery(86)),
        "86%"
    );
    // The macchina style renders a full battery as text.
    assert_eq!(
        format_value(FormatStyle::Macchina, &ProbeValue::Battery(100)),
        "Full"
    );
    assert_eq!(
        format_value(FormatStyle::Neofetch, &ProbeValue::Battery(100)),
        "100%"
    );
}

#[test]
fn paired_values_join() {
    let host = ProbeValue::Host("alice".to_string(), "box".to_string());
    assert_eq!(format_value(FormatStyle::Neofetch, &host), "alice@box");
    let model = ProbeValue::Model("Dell Inc.".to_string(), "XPS 15 9510".to_string());
    assert_eq!(
        format_value(FormatStyle::Neofetch, &model),
        "Dell Inc. XPS 15 9510"
    );
}

#[test]
fn package_list_in_one_value_joins() {
    let v = ProbeValue::Packages(vec![
        ("dpkg".to_string(), 120),
        ("flatpak".to_string(), 5),
    ]);
    assert_eq!(
        format_value(FormatStyle::Neofetch, &v),
        "120 (dpkg), 5 (flatpak)"
    );
    let empty = ProbeValue::Packages(vec![]);
    assert_eq!(format_value(FormatStyle::Neofetch, &empty), "");
}

#[test]
fn local_addresses_join_into_one_line() {
    let v = ProbeValue::LocalIP(vec!["192.168.1.2".to_string(), "10.0.0.7".to_string()]);
    assert_eq!(
        format_value(FormatStyle::Macchina, &v),
        "192.168.1.2, 10.0.0.7"
    );
    let one = ProbeValue::LocalIP(vec!["192.168.1.2".to_string()]);
    assert_eq!(format_value(FormatStyle::Macchina, &one), "192.168.1.2");
}

#[test]
fn placeholder_metrics_render_empty() {
    assert_eq!(
        format_value(FormatStyle::Neofetch, &ProbeValue::WMTheme(String::new())),
        ""
    );
    assert_eq!(
        format_value(FormatStyle::Neofetch, &ProbeValue::Users(0)),
        "0"
    );
}

#[test]
fn plain_text_values_pass_through() {
    assert_eq!(
        format_value(FormatStyle::Neofetch, &ProbeValue::OS("Ubuntu 22.04".to_string())),
        "Ubuntu 22.04"
    );
    assert_eq!(
        format_value(FormatStyle::Macchina, &ProbeValue::Kernel("6.8.4".to_string())),
        "6.8.4"
    );
    assert_eq!(
        format_value(FormatStyle::Macchina, &ProbeValue::PowerAdapter("Charging".to_string())),
        "Charging"
    );
}

#[test]
fn decimal_text() {
    assert_eq!(nat_text(0), "0");
    assert_eq!(nat_text(7), "7");
    assert_eq!(nat_text(10), "10");
    assert_eq!(nat_text(90061), "90061");
    assert_eq!(nat_text(18446744073709551615), "18446744073709551615");
    assert_eq!(nat_text(123456789012345678901234567890), "123456789012345678901234567890");
}

#[test]
fn padding_and_repetition() {
    assert_eq!(repeat_text("-", 4), "----");
    assert_eq!(repeat_text("-", 0), "");
    assert_eq!(pad_text("CPU", 6), "CPU   ");
    assert_eq!(pad_text("CPU", 3), "CPU");
    // Text longer than the column is kept whole.
    assert_eq!(pad_text("Terminal Font", 4), "Terminal Font");
}
