//! The metric catalog: preset contents, binding resolution, and the default
//! configurations.

use ffetch::config::{
    Config, MacchinaRendererConfig, NeofetchRendererConfig, ProbeConfig,
};
use ffetch::probe::ProbeType;

#[test]
fn preset_all_contents() {
    let all = ProbeConfig::default_all();
    assert_eq!(all.len(), 37);
    let (label, kind) = all[0].get_funcs();
    assert_eq!(label, "OS");
    assert_eq!(kind, ProbeType::OS);
    let (label, kind) = all[1].get_funcs();
    assert_eq!(label, "Host");
    assert_eq!(kind, ProbeType::Model);
    let (label, kind) = all[36].get_funcs();
    assert_eq!(label, "Rust");
    assert_eq!(kind, ProbeType::Rust);
}

#[test]
fn preset_neofetch_contents() {
    let probes = ProbeConfig::default_neofetch();
    assert_eq!(probes.len(), 22);
    let (label, kind) = probes[10].get_funcs();
    assert_eq!(label, "WM Theme");
    assert_eq!(kind, ProbeType::WMTheme);
    let (label, kind) = probes[21].get_funcs();
    assert_eq!(label, "BIOS");
    assert_eq!(kind, ProbeType::BIOS);
}

#[test]
fn preset_macchina_contents() {
    let probes = ProbeConfig::default_macchina();
    assert_eq!(probes.len(), 14);
    let (label, kind) = probes[0].get_funcs();
    assert_eq!(label, "Host");
    assert_eq!(kind, ProbeType::Host);
    let (label, kind) = probes[1].get_funcs();
    assert_eq!(label, "Machine");
    assert_eq!(kind, ProbeType::Model);
    let (label, kind) = probes[3].get_funcs();
    assert_eq!(label, "Distro");
    assert_eq!(kind, ProbeType::Distro);
    let (label, kind) = probes[11].get_funcs();
    assert_eq!(label, "CPU Load");
    assert_eq!(kind, ProbeType::CPUUsage);
}

#[test]
fn binding_resolution_is_total() {
    // Every configured entry resolves to a binding carrying its own label.
    let entries = vec![
        ProbeConfig::Host("a".to_string()),
        ProbeConfig::Editor("b".to_string()),
        ProbeConfig::PowerAdapter("c".to_string()),
        ProbeConfig::Rust("d".to_string()),
    ];
    let expected = [
        ("a", ProbeType::Host),
        ("b", ProbeType::Editor),
        ("c", ProbeType::PowerAdapter),
        ("d", ProbeType::Rust),
    ];
    for (entry, (label, kind)) in entries.iter().zip(expected.iter()) {
        let (l, k) = entry.get_funcs();
        assert_eq!(&l, label);
        assert_eq!(&k, kind);
    }
}

#[test]
fn default_configs() {
    let c = NeofetchRendererConfig::default();
    assert!(c.title && c.underline && c.col);
    assert_eq!(c.probes.len(), 22);
    let c = NeofetchRendererConfig::default_all();
    assert_eq!(c.probes.len(), 37);

    let m = MacchinaRendererConfig::default();
    assert!(m.interface.is_none());
    assert!(m.long_uptime);
    assert_eq!(m.probes.len(), 14);
    let m = MacchinaRendererConfig::default_all();
    assert_eq!(m.probes.len(), 37);
}

#[test]
fn default_config_selection() {
    match Config::default() {
        Config::Neofetch(c) => assert_eq!(c.probes.len(), 22),
        Config::Macchina(_) => panic!("default must be the neofetch style"),
    }
    match Config::default_all() {
        Config::Neofetch(c) => assert_eq!(c.probes.len(), 37),
        Config::Macchina(_) => panic!("default_all must be the neofetch style"),
    }
    match Config::default_neofetch_all() {
        Config::Neofetch(c) => assert_eq!(c.probes.len(), 37),
        Config::Macchina(_) => panic!("wrong renderer"),
    }
    match Config::default_macchina() {
        Config::Macchina(c) => assert_eq!(c.probes.len(), 14),
        Config::Neofetch(_) => panic!("wrong renderer"),
    }
    match Config::default_macchina_all() {
        Config::Macchina(c) => assert_eq!(c.probes.len(), 37),
        Config::Neofetch(_) => panic!("wrong renderer"),
    }
}

#[test]
fn config_dir_is_project_specific() {
    // The location depends on the host environment; when one is reported it
    // carries the project path fragment.
    if let Some(dir) = Config::get_config_dir() {
        let text = dir.to_string_lossy().to_string();
        assert!(text.contains("ffetch"));
    }
}
