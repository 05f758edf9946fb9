//! The formatter: one probe value becomes exactly one line of text.
//!
//! Both display strategies share this component; a small style parameter
//! carries the differences (unit system, unit labels, rounding). Formatting
//! is a pure, total function of the style and the value: it performs no
//! readout, and a value that reached the formatter always renders, possibly
//! as empty text for a metric whose probe is a placeholder.

use vstd::prelude::*;
use vstd::string::*;
use crate::numtext::{nat_chars, nat_text};
use crate::probe::{MetricView, ProbeValue};

verus! {

/// Which display strategy's formatting conventions to follow.
#[derive(Clone, Copy, Debug, PartialEq, Eq, Structural)]
pub enum FormatStyle {
    Neofetch,
    Macchina,
}

/// `n / d` rounded to the nearest integer (for positive `d`).
pub open spec fn round_div(n: int, d: int) -> int {
    (n + d / 2) / d
}

/// Duration text: the largest two nonzero units among days, hours, minutes,
/// collapsing to seconds only below one minute.
pub open spec fn uptime_chars(style: FormatStyle, secs: int) -> Seq<char> {
    let d = secs / 86400;
    let h = (secs / 3600) % 24;
    let m = (secs / 60) % 60;
    let s = secs % 60;
    match style {
        FormatStyle::Neofetch => if d > 0 {
            nat_chars(d) + " days, "@ + nat_chars(h) + " hours, "@ + nat_chars(m) + " mins"@
        } else if h > 0 {
            nat_chars(h) + " hours, "@ + nat_chars(m) + " mins"@
        } else if m > 0 {
            nat_chars(m) + " mins"@
        } else {
            nat_chars(s) + " seconds"@
        },
        FormatStyle::Macchina => if d > 0 {
            nat_chars(d) + "d "@ + nat_chars(h) + "h "@ + nat_chars(m) + "m"@
        } else if h > 0 {
            nat_chars(h) + "h "@ + nat_chars(m) + "m"@
        } else if m > 0 {
            nat_chars(m) + "m"@
        } else {
            nat_chars(s) + "s"@
        },
    }
}

/// Memory text from `(used, total)` in KiB: GiB rounded to the nearest
/// integer in the neofetch style, exact MiB in the macchina style.
pub open spec fn memory_chars(style: FormatStyle, used: int, total: int) -> Seq<char> {
    match style {
        FormatStyle::Neofetch => nat_chars(round_div(used, 1048576)) + " GiB / "@ + nat_chars(
            round_div(total, 1048576),
        ) + " GiB"@,
        FormatStyle::Macchina => nat_chars(used / 1024) + " MiB / "@ + nat_chars(total / 1024)
            + " MiB"@,
    }
}

/// Used disk space as a rounded percentage of the total; 0 when the total
/// is zero (so that formatting stays total).
pub open spec fn disk_pct(used: int, total: int) -> int {
    if total <= 0 {
        0
    } else {
        (used * 100 + total / 2) / total
    }
}

/// Disk text from `(used, total)` in bytes: GiB rounded to the nearest
/// integer, plus the rounded percentage used.
pub open spec fn disk_chars(used: int, total: int) -> Seq<char> {
    nat_chars(round_div(used, 1073741824)) + " G / "@ + nat_chars(round_div(total, 1073741824))
        + " G ("@ + nat_chars(disk_pct(used, total)) + "%)"@
}

/// Battery text: an integer percentage; the macchina style shows `Full` at
/// or above 100.
pub open spec fn battery_chars(style: FormatStyle, b: int) -> Seq<char> {
    match style {
        FormatStyle::Neofetch => nat_chars(b) + "%"@,
        FormatStyle::Macchina => if b >= 100 {
            "Full"@
        } else {
            nat_chars(b) + "%"@
        },
    }
}

/// `parts` joined by `sep`.
pub open spec fn join_chars(parts: Seq<Seq<char>>, sep: Seq<char>) -> Seq<char>
    decreases parts.len(),
{
    if parts.len() == 0 {
        Seq::empty()
    } else if parts.len() == 1 {
        parts[0]
    } else {
        join_chars(parts.drop_last(), sep) + sep + parts.last()
    }
}

/// One package tally as text: `count (manager)`.
pub open spec fn package_entry_chars(e: (Seq<char>, int)) -> Seq<char> {
    nat_chars(e.1) + " ("@ + e.0 + ")"@
}

/// The text of one metric value under the given style.
pub open spec fn spec_format(style: FormatStyle, m: MetricView) -> Seq<char> {
    match m {
        MetricView::Host(u, h) => u + "@"@ + h,
        MetricView::OS(s) => s,
        MetricView::Distro(s) => s,
        MetricView::Model(v, p) => v + " "@ + p,
        MetricView::Kernel(s) => s,
        MetricView::Uptime(n) => uptime_chars(style, n),
        MetricView::Packages(l) => join_chars(l.map_values(|e| package_entry_chars(e)), ", "@),
        MetricView::Shell(s) => s,
        MetricView::Editor(s) => s,
        MetricView::Resolution(s) => s,
        MetricView::DE(s) => s,
        MetricView::WM(s) => s,
        MetricView::WMTheme(s) => s,
        MetricView::Theme(s) => s,
        MetricView::Icons(s) => s,
        MetricView::Cursor(s) => s,
        MetricView::Terminal(s) => s,
        MetricView::TerminalFont(s) => s,
        MetricView::CPU(s) => s,
        MetricView::GPU(s) => s,
        MetricView::Memory(u, t) => memory_chars(style, u, t),
        MetricView::Network(s) => s,
        MetricView::Bluetooth(s) => s,
        MetricView::BIOS(s) => s,
        MetricView::GPUDriver(s) => s,
        MetricView::CPUUsage(n) => nat_chars(n) + "%"@,
        MetricView::Disk(u, t) => disk_chars(u, t),
        MetricView::Battery(b) => battery_chars(style, b),
        MetricView::PowerAdapter(s) => s,
        MetricView::Font(s) => s,
        MetricView::Song(s) => s,
        MetricView::LocalIP(a) => join_chars(a, ", "@),
        MetricView::PublicIP(s) => s,
        MetricView::Users(n) => nat_chars(n),
        MetricView::Locale(s) => s,
        MetricView::Java(s) => s,
        MetricView::Python(s) => s,
        MetricView::Node(s) => s,
        MetricView::Rust(s) => s,
    }
}

/// Formatting is a pure function of the style and the value: any two texts
/// formatted for the same style and the same value are identical.
pub proof fn lemma_format_pure(style: FormatStyle, v: ProbeValue, a: Seq<char>, b: Seq<char>)
    requires
        a == spec_format(style, v@),
        b == spec_format(style, v@),
    ensures
        a == b,
{
}

/// Joins owned texts by `sep`.
fn join_texts(parts: &Vec<String>, sep: &str) -> (r: String)
    ensures
        r@ == join_chars(parts@.map_values(|s: String| s@), sep@),
{
    let ghost js = parts@.map_values(|s: String| s@);
    let mut r = String::new();
    let mut i: usize = 0;
    while i < parts.len()
        invariant
            i <= parts@.len(),
            js == parts@.map_values(|s: String| s@),
            r@ == join_chars(js.subrange(0, i as int), sep@),
        decreases parts@.len() - i,
    {
        proof {
            assert(js.subrange(0, i + 1 as int).drop_last() =~= js.subrange(0, i as int));
            assert(js.subrange(0, i + 1 as int).last() == js[i as int]);
        }
        if i > 0 {
            r.append(sep);
        }
        r.append(parts[i].as_str());
        i = i + 1;
    }
    proof {
        assert(js.subrange(0, parts@.len() as int) =~= js);
    }
    r
}

/// Formats the package tallies: `count (manager)`, joined by `, `.
fn format_packages(list: &Vec<(String, usize)>) -> (r: String)
    ensures
        r@ == join_chars(
            list@.map_values(|e: (String, usize)| (e.0@, e.1 as int)).map_values(
                |e| package_entry_chars(e),
            ),
            ", "@,
        ),
{
    let ghost js = list@.map_values(|e: (String, usize)| (e.0@, e.1 as int)).map_values(
        |e| package_entry_chars(e),
    );
    let mut r = String::new();
    let mut i: usize = 0;
    while i < list.len()
        invariant
            i <= list@.len(),
            js == list@.map_values(|e: (String, usize)| (e.0@, e.1 as int)).map_values(
                |e| package_entry_chars(e),
            ),
            r@ == join_chars(js.subrange(0, i as int), ", "@),
        decreases list@.len() - i,
    {
        proof {
            assert(js.subrange(0, i + 1 as int).drop_last() =~= js.subrange(0, i as int));
            assert(js.subrange(0, i + 1 as int).last() == js[i as int]);
        }
        if i > 0 {
            r.append(", ");
        }
        let entry = &list[i];
        let count_text = nat_text(entry.1 as u128);
        r.append(count_text.as_str());
        r.append(" (");
        r.append(entry.0.as_str());
        r.append(")");
        i = i + 1;
    }
    proof {
        assert(js.subrange(0, list@.len() as int) =~= js);
    }
    r
}

/// Formats an uptime of `secs` seconds under the given style.
fn format_uptime(style: FormatStyle, secs: usize) -> (r: String)
    ensures
        r@ == uptime_chars(style, secs as int),
{
    let d: usize = secs / 86400;
    let h: usize = (secs / 3600) % 24;
    let m: usize = (secs / 60) % 60;
    let s: usize = secs % 60;
    match style {
        FormatStyle::Neofetch => {
            if d > 0 {
                let mut r = nat_text(d as u128);
                r.append(" days, ");
                let ht = nat_text(h as u128);
                r.append(ht.as_str());
                r.append(" hours, ");
                let mt = nat_text(m as u128);
                r.append(mt.as_str());
                r.append(" mins");
                r
            } else if h > 0 {
                let mut r = nat_text(h as u128);
                r.append(" hours, ");
                let mt = nat_text(m as u128);
                r.append(mt.as_str());
                r.append(" mins");
                r
            } else if m > 0 {
                let mut r = nat_text(m as u128);
                r.append(" mins");
                r
            } else {
                let mut r = nat_text(s as u128);
                r.append(" seconds");
                r
            }
        },
        FormatStyle::Macchina => {
            if d > 0 {
                let mut r = nat_text(d as u128);
                r.append("d ");
                let ht = nat_text(h as u128);
                r.append(ht.as_str());
                r.append("h ");
                let mt = nat_text(m as u128);
                r.append(mt.as_str());
                r.append("m");
                r
            } else if h > 0 {
                let mut r = nat_text(h as u128);
                r.append("h ");
                let mt = nat_text(m as u128);
                r.append(mt.as_str());
                r.append("m");
                r
            } else if m > 0 {
                let mut r = nat_text(m as u128);
                r.append("m");
                r
            } else {
                let mut r = nat_text(s as u128);
                r.append("s");
                r
            }
        },
    }
}

/// `n / d` rounded to the nearest integer, for positive `d`.
fn round_div_u64(n: u64, d: u64) -> (r: u128)
    requires
        d > 0,
    ensures
        r as int == round_div(n as int, d as int),
{
    ((n as u128) + ((d / 2) as u128)) / (d as u128)
}

/// Formats memory `(used, total)` in KiB under the given style.
fn format_memory(style: FormatStyle, used: u64, total: u64) -> (r: String)
    ensures
        r@ == memory_chars(style, used as int, total as int),
{
    match style {
        FormatStyle::Neofetch => {
            let mut r = nat_text(round_div_u64(used, 1048576));
            r.append(" GiB / ");
            let tt = nat_text(round_div_u64(total, 1048576));
            r.append(tt.as_str());
            r.append(" GiB");
            r
        },
        FormatStyle::Macchina => {
            let mut r = nat_text((used / 1024) as u128);
            r.append(" MiB / ");
            let tt = nat_text((total / 1024) as u128);
            r.append(tt.as_str());
            r.append(" MiB");
            r
        },
    }
}

/// Formats disk usage `(used, total)` in bytes.
fn format_disk(used: u64, total: u64) -> (r: String)
    ensures
        r@ == disk_chars(used as int, total as int),
{
    let pct: u128 = if total == 0 {
        0
    } else {
        ((used as u128) * 100 + (total as u128) / 2) / (total as u128)
    };
    let mut r = nat_text(round_div_u64(used, 1073741824));
    r.append(" G / ");
    let tt = nat_text(round_div_u64(total, 1073741824));
    r.append(tt.as_str());
    r.append(" G (");
    let pt = nat_text(pct);
    r.append(pt.as_str());
    r.append("%)");
    r
}

/// Renders one probe value as exactly one line of display text under the
/// given style. Pure: the result depends on the style and the value alone,
/// and formatting never fails.
pub fn format_value(style: FormatStyle, v: &ProbeValue) -> (r: String)
    ensures
        r@ == spec_format(style, v@),
{
    match v {
        ProbeValue::Host(u, h) => {
            let mut r = u.clone();
            r.append("@");
            r.append(h.as_str());
            r
        },
        ProbeValue::OS(s) => s.clone(),
        ProbeValue::Distro(s) => s.clone(),
        ProbeValue::Model(vendor, product) => {
            let mut r = vendor.clone();
            r.append(" ");
            r.append(product.as_str());
            r
        },
        ProbeValue::Kernel(s) => s.clone(),
        ProbeValue::Uptime(n) => format_uptime(style, *n),
        ProbeValue::Packages(l) => format_packages(l),
        ProbeValue::Shell(s) => s.clone(),
        ProbeValue::Editor(s) => s.clone(),
        ProbeValue::Resolution(s) => s.clone(),
        ProbeValue::DE(s) => s.clone(),
        ProbeValue::WM(s) => s.clone(),
        ProbeValue::WMTheme(s) => s.clone(),
        ProbeValue::Theme(s) => s.clone(),
        ProbeValue::Icons(s) => s.clone(),
        ProbeValue::Cursor(s) => s.clone(),
        ProbeValue::Terminal(s) => s.clone(),
        ProbeValue::TerminalFont(s) => s.clone(),
        ProbeValue::CPU(s) => s.clone(),
        ProbeValue::GPU(s) => s.clone(),
        ProbeValue::Memory(u, t) => format_memory(style, *u, *t),
        ProbeValue::Network(s) => s.clone(),
        ProbeValue::Bluetooth(s) => s.clone(),
        ProbeValue::BIOS(s) => s.clone(),
        ProbeValue::GPUDriver(s) => s.clone(),
        ProbeValue::CPUUsage(n) => {
            let mut r = nat_text(*n as u128);
            r.append("%");
            r
        },
        ProbeValue::Disk(u, t) => format_disk(*u, *t),
        ProbeValue::Battery(b) => {
            match style {
                FormatStyle::Neofetch => {
                    let mut r = nat_text(*b as u128);
                    r.append("%");
                    r
                },
                FormatStyle::Macchina => {
                    if *b >= 100 {
                        String::from_str("Full")
                    } else {
                        let mut r = nat_text(*b as u128);
                        r.append("%");
                        r
                    }
                },
            }
        },
        ProbeValue::PowerAdapter(s) => s.clone(),
        ProbeValue::Font(s) => s.clone(),
        ProbeValue::Song(s) => s.clone(),
        ProbeValue::LocalIP(a) => join_texts(a, ", "),
        ProbeValue::PublicIP(s) => s.clone(),
        ProbeValue::Users(n) => nat_text(*n as u128),
        ProbeValue::Locale(s) => s.clone(),
        ProbeValue::Java(s) => s.clone(),
        ProbeValue::Python(s) => s.clone(),
        ProbeValue::Node(s) => s.clone(),
        ProbeValue::Rust(s) => s.clone(),
    }
}

} // verus!
