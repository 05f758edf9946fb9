//! End-to-end pipeline behaviour: registry totality, order preservation,
//! failure isolation, multiplicity, and the documented scenarios.

use ffetch::config::{NeofetchRendererConfig, ProbeConfig};
use ffetch::format::{format_value, FormatStyle};
use ffetch::platform::Platform;
use ffetch::probe::{run, run_probe, ProbeResultValue, ProbeType, ProbeValue};
use ffetch::renderer::NeofetchRenderer;
use ffetch::probe::ProbeError;

fn all_kinds() -> Vec<ProbeType> {
    vec![
        ProbeType::Host,
        ProbeType::OS,
        ProbeType::Model,
        ProbeType::Kernel,
        ProbeType::Distro,
        ProbeType::Uptime,
        ProbeType::Packages,
        ProbeType::Shell,
        ProbeType::Editor,
        ProbeType::Resolution,
        ProbeType::DE,
        ProbeType::WM,
        ProbeType::WMTheme,
        ProbeType::Theme,
        ProbeType::Icons,
        ProbeType::Cursor,
        ProbeType::Terminal,
        ProbeType::TerminalFont,
        ProbeType::CPU,
        ProbeType::GPU,
        ProbeType::Memory,
        ProbeType::Network,
        ProbeType::Bluetooth,
        ProbeType::BIOS,
        ProbeType::GPUDriver,
        ProbeType::CPUUsage,
        ProbeType::Disk,
        ProbeType::Battery,
        ProbeType::PowerAdapter,
        ProbeType::Font,
        ProbeType::Song,
        ProbeType::LocalIP,
        ProbeType::PublicIP,
        ProbeType::Users,
        ProbeType::Locale,
        ProbeType::Java,
        ProbeType::Python,
        ProbeType::Node,
        ProbeType::Rust,
    ]
}

#[test]
fn registry_is_total_over_every_kind() {
    // Every metric kind resolves to a binding that yields an outcome on any
    // snapshot, even one where every readout failed: no kind is absent and
    // none panics.
    let empty = Platform::unavailable();
    let kinds = all_kinds();
    assert_eq!(kinds.len(), 39);
    for kind in kinds {
        let _outcome = run_probe(kind, &empty);
    }
}

#[test]
fn executor_preserves_order_and_labels() {
    let mut p = Platform::unavailable();
    p.uptime_seconds = Ok(61);
    p.shell = Ok("zsh 5.9".to_string());
    let entries = vec![
        ("First".to_string(), ProbeType::Uptime),
        ("Second".to_string(), ProbeType::Shell),
        ("Third".to_string(), ProbeType::CPU),
        ("Fourth".to_string(), ProbeType::Uptime),
    ];
    let out = run(&entries, &p);
    assert_eq!(out.len(), 4);
    for (i, (label, _)) in out.iter().enumerate() {
        assert_eq!(label, &entries[i].0);
    }
    // The same kind may appear twice, under different labels.
    assert!(out[0].1.is_ok());
    assert!(out[3].1.is_ok());
    // A failing entry (CPU readout unavailable) still occupies its slot.
    assert!(out[2].1.is_err());
}

#[test]
fn formatting_is_idempotent() {
    let values = vec![
        ProbeValue::Uptime(90061),
        ProbeValue::Memory(47987712, 65832960),
        ProbeValue::Host("alice".to_string(), "box".to_string()),
        ProbeValue::Packages(vec![("dpkg".to_string(), 120)]),
        ProbeValue::Battery(100),
    ];
    for v in &values {
        for style in [FormatStyle::Neofetch, FormatStyle::Macchina] {
            let first = format_value(style, v);
            let second = format_value(style, v);
            assert_eq!(first, second);
        }
    }
}

#[test]
fn packages_render_one_line_per_manager() {
    // A Packages probe returning two managers yields two output lines, both
    // under the "Packages" label, never merged.
    let mut p = Platform::unavailable();
    p.package_counts = Ok(vec![("dpkg".to_string(), 120), ("flatpak".to_string(), 5)]);
    let outcome = run_probe(ProbeType::Packages, &p).unwrap();
    match outcome {
        ProbeResultValue::Multiple(vs) => assert_eq!(vs.len(), 2),
        ProbeResultValue::Single(_) => panic!("packages outcome must stay multiple"),
    }
    let config = NeofetchRendererConfig {
        title: false,
        underline: false,
        col: false,
        probes: vec![ProbeConfig::Packages("Packages".to_string())],
    };
    let lines = NeofetchRenderer::new(config).render(&p).unwrap();
    assert_eq!(
        lines,
        vec![
            "Packages   : 120 (dpkg)".to_string(),
            "Packages   : 5 (flatpak)".to_string(),
        ]
    );
}

#[test]
fn failure_is_isolated_to_its_entry() {
    // The GPU probe fails operationally; the CPU line still renders and the
    // GPU line is skipped (the documented policy).
    let mut p = Platform::unavailable();
    p.gpus = Err(ProbeError::Other("driver not found".to_string()));
    p.cpu_model = Ok("Intel Core i7-11800H".to_string());
    let config = NeofetchRendererConfig {
        title: false,
        underline: false,
        col: false,
        probes: vec![
            ProbeConfig::GPU("GPU".to_string()),
            ProbeConfig::CPU("CPU".to_string()),
        ],
    };
    let lines = NeofetchRenderer::new(config).render(&p).unwrap();
    assert_eq!(lines, vec!["CPU   : Intel Core i7-11800H".to_string()]);
}

#[test]
fn uptime_and_shell_end_to_end() {
    let mut p = Platform::unavailable();
    p.uptime_seconds = Ok(90061);
    p.shell = Ok("zsh 5.9".to_string());
    let config = NeofetchRendererConfig {
        title: false,
        underline: false,
        col: false,
        probes: vec![
            ProbeConfig::Uptime("Uptime".to_string()),
            ProbeConfig::Shell("Shell".to_string()),
        ],
    };
    let lines = NeofetchRenderer::new(config).render(&p).unwrap();
    assert_eq!(
        lines,
        vec![
            "Uptime   : 1 days, 1 hours, 1 mins".to_string(),
            "Shell    : zsh 5.9".to_string(),
        ]
    );
}

#[test]
fn every_error_variant_reaches_the_caller() {
    let mut p = Platform::unavailable();
    p.gpus = Err(ProbeError::Other("driver not found".to_string()));
    p.shell = Err(ProbeError::Warning("guessed from parent".to_string()));
    // Unavailable platform field.
    assert_eq!(
        run_probe(ProbeType::OS, &p),
        Err(ProbeError::MetricsUnavailable)
    );
    // A probe that is not built yet.
    assert_eq!(run_probe(ProbeType::Editor, &p), Err(ProbeError::Unimplemented));
    // Operational failure.
    assert_eq!(
        run_probe(ProbeType::GPU, &p),
        Err(ProbeError::Other("driver not found".to_string()))
    );
    // Unreliable result.
    assert_eq!(
        run_probe(ProbeType::Shell, &p),
        Err(ProbeError::Warning("guessed from parent".to_string()))
    );
}

#[test]
fn power_adapter_states() {
    let mut p = Platform::unavailable();
    p.battery_charging = Ok(true);
    match run_probe(ProbeType::PowerAdapter, &p).unwrap() {
        ProbeResultValue::Single(v) => {
            assert_eq!(format_value(FormatStyle::Neofetch, &v), "Charging");
        }
        _ => panic!("power adapter outcome shape"),
    }
    p.battery_charging = Ok(false);
    match run_probe(ProbeType::PowerAdapter, &p).unwrap() {
        ProbeResultValue::Single(v) => {
            assert_eq!(format_value(FormatStyle::Neofetch, &v), "Discharging");
        }
        _ => panic!("power adapter outcome shape"),
    }
}

#[test]
fn local_addresses_stay_one_line() {
    let mut p = Platform::unavailable();
    p.local_addresses = Ok(vec!["192.168.1.2".to_string(), "10.0.0.7".to_string()]);
    match run_probe(ProbeType::LocalIP, &p).unwrap() {
        ProbeResultValue::Single(v) => {
            assert_eq!(
                format_value(FormatStyle::Macchina, &v),
                "192.168.1.2, 10.0.0.7"
            );
        }
        _ => panic!("local address outcome must stay single"),
    }
}

#[test]
fn error_description_text() {
    assert_eq!(
        ProbeError::MetricsUnavailable.describe(),
        "Metrics unavailable"
    );
    assert_eq!(ProbeError::Unimplemented.describe(), "Unimplemented");
    assert_eq!(ProbeError::Other("oops".to_string()).describe(), "oops");
    assert_eq!(ProbeError::Warning("careful".to_string()).describe(), "careful");
}

#[test]
fn host_error_order_prefers_username() {
    let mut p = Platform::unavailable();
    p.username = Err(ProbeError::Other("no user".to_string()));
    p.hostname = Err(ProbeError::Other("no host".to_string()));
    assert_eq!(
        run_probe(ProbeType::Host, &p),
        Err(ProbeError::Other("no user".to_string()))
    );
    p.username = Ok("alice".to_string());
    assert_eq!(
        run_probe(ProbeType::Host, &p),
        Err(ProbeError::Other("no host".to_string()))
    );
    p.hostname = Ok("box".to_string());
    match run_probe(ProbeType::Host, &p).unwrap() {
        ProbeResultValue::Single(ProbeValue::Host(u, h)) => {
            assert_eq!(u, "alice");
            assert_eq!(h, "box");
        }
        _ => panic!("host outcome shape"),
    }
}
