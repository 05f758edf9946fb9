//! Display-strategy layout: column widths, title and underline, the
//! macchina art pairing, and the error-skip policy.

use ffetch::config::{MacchinaRendererConfig, NeofetchRendererConfig, ProbeConfig};
use ffetch::platform::Platform;
use ffetch::probe::ProbeError;
use ffetch::renderer::{MacchinaRenderer, NeofetchRenderer};

fn simple_platform() -> Platform {
    let mut p = Platform::unavailable();
    p.username = Ok("alice".to_string());
    p.hostname = Ok("box".to_string());
    p.shell = Ok("zsh 5.9".to_string());
    p.kernel_release = Ok("6.8.4".to_string());
    p
}

#[test]
fn neofetch_title_and_underline() {
    let config = NeofetchRendererConfig {
        title: true,
        underline: true,
        col: false,
        probes: vec![ProbeConfig::Shell("Shell".to_string())],
    };
    let lines = NeofetchRenderer::new(config).render(&simple_platform()).unwrap();
    assert_eq!(
        lines,
        vec![
            "alice@box".to_string(),
            "---------".to_string(),
            "Shell   : zsh 5.9".to_string(),
        ]
    );
}

#[test]
fn neofetch_title_without_underline() {
    let config = NeofetchRendererConfig {
        title: true,
        underline: false,
        col: false,
        probes: vec![],
    };
    let lines = NeofetchRenderer::new(config).render(&simple_platform()).unwrap();
    assert_eq!(lines, vec!["alice@box".to_string()]);
}

#[test]
fn neofetch_underline_without_title_is_empty_line() {
    let config = NeofetchRendererConfig {
        title: false,
        underline: true,
        col: false,
        probes: vec![],
    };
    let lines = NeofetchRenderer::new(config).render(&simple_platform()).unwrap();
    assert_eq!(lines, vec!["".to_string()]);
}

#[test]
fn neofetch_title_failure_aborts_the_pass() {
    let mut p = simple_platform();
    p.username = Err(ProbeError::Other("no user database".to_string()));
    let config = NeofetchRendererConfig {
        title: true,
        underline: false,
        col: false,
        probes: vec![ProbeConfig::Shell("Shell".to_string())],
    };
    let err = NeofetchRenderer::new(config).render(&p).unwrap_err();
    assert_eq!(err, ProbeError::Other("no user database".to_string()));
}

#[test]
fn macchina_minimum_column_width() {
    // The macchina column is at least twelve characters even for short
    // labels: "Kernel" plus two spaces is below the floor.
    let config = MacchinaRendererConfig {
        interface: None,
        long_uptime: false,
        probes: vec![ProbeConfig::Kernel("Kernel".to_string())],
    };
    let art: Vec<String> = vec![];
    let lines = MacchinaRenderer::new(config).render(&simple_platform(), &art);
    assert_eq!(
        lines,
        vec![
            "".to_string(),
            "Kernel      -  6.8.4".to_string(),
            "".to_string(),
        ]
    );
}

#[test]
fn macchina_wide_labels_widen_the_column() {
    let config = MacchinaRendererConfig {
        interface: None,
        long_uptime: false,
        probes: vec![
            ProbeConfig::Kernel("A rather long label".to_string()),
            ProbeConfig::Shell("Shell".to_string()),
        ],
    };
    let art: Vec<String> = vec![];
    let lines = MacchinaRenderer::new(config).render(&simple_platform(), &art);
    assert_eq!(
        lines,
        vec![
            "".to_string(),
            "A rather long label  -  6.8.4".to_string(),
            "Shell                -  zsh 5.9".to_string(),
            "".to_string(),
        ]
    );
}

#[test]
fn macchina_art_pairs_rows_and_prints_leftover() {
    // Three art rows, two body lines: the first two rows pair with the
    // lines, the third prints alone after them.
    let config = MacchinaRendererConfig {
        interface: None,
        long_uptime: false,
        probes: vec![
            ProbeConfig::Kernel("Kernel".to_string()),
            ProbeConfig::Shell("Shell".to_string()),
        ],
    };
    let art = vec!["##1##".to_string(), "##2##".to_string(), "##3##".to_string()];
    let lines = MacchinaRenderer::new(config).render(&simple_platform(), &art);
    assert_eq!(
        lines,
        vec![
            "".to_string(),
            "##1##    Kernel      -  6.8.4".to_string(),
            "##2##    Shell       -  zsh 5.9".to_string(),
            "##3##".to_string(),
            "".to_string(),
        ]
    );
}

#[test]
fn macchina_filler_keeps_alignment_after_art_runs_out() {
    // One art row, two body lines: the second line gets a blank filler of
    // the first row's width so later lines still align.
    let config = MacchinaRendererConfig {
        interface: None,
        long_uptime: false,
        probes: vec![
            ProbeConfig::Kernel("Kernel".to_string()),
            ProbeConfig::Shell("Shell".to_string()),
        ],
    };
    let art = vec!["#####".to_string()];
    let lines = MacchinaRenderer::new(config).render(&simple_platform(), &art);
    assert_eq!(
        lines,
        vec![
            "".to_string(),
            "#####    Kernel      -  6.8.4".to_string(),
            "         Shell       -  zsh 5.9".to_string(),
            "".to_string(),
        ]
    );
}

#[test]
fn macchina_memory_line_through_the_pipeline() {
    let mut p = Platform::unavailable();
    p.memory_used_kib = Ok(46863 * 1024);
    p.memory_total_kib = Ok(64290 * 1024);
    let config = MacchinaRendererConfig {
        interface: None,
        long_uptime: false,
        probes: vec![ProbeConfig::Memory("Memory".to_string())],
    };
    let art: Vec<String> = vec![];
    let lines = MacchinaRenderer::new(config).render(&p, &art);
    assert_eq!(
        lines,
        vec![
            "".to_string(),
            "Memory      -  46863 MiB / 64290 MiB".to_string(),
            "".to_string(),
        ]
    );
}

#[test]
fn macchina_errors_skip_but_art_still_prints() {
    // Every probe fails: no body lines, yet the art block renders whole.
    let config = MacchinaRendererConfig {
        interface: None,
        long_uptime: false,
        probes: vec![ProbeConfig::CPU("CPU".to_string())],
    };
    let art = vec!["@@".to_string(), "@@".to_string()];
    let lines = MacchinaRenderer::new(config).render(&Platform::unavailable(), &art);
    assert_eq!(
        lines,
        vec![
            "".to_string(),
            "@@".to_string(),
            "@@".to_string(),
            "".to_string(),
        ]
    );
}
