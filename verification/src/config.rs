//! The metric catalog and the render configuration.
//!
//! A `ProbeConfig` pairs one metric kind with its user-chosen display label;
//! an ordered list of them, owned by a renderer configuration, decides what
//! is probed and in which order the lines appear. The named presets below
//! replicate the reference tools' default field sets.

use vstd::prelude::*;
use vstd::string::*;
use crate::probe::ProbeType;

verus! {

/// One configured metric: the kind to probe, carrying the display label to
/// show it under. The same kind may be configured more than once, under
/// different labels.
#[derive(Debug, Clone, PartialEq)]
pub enum ProbeConfig {
    Host(String),
    OS(String),
    Model(String),
    Kernel(String),
    Distro(String),
    Uptime(String),
    Packages(String),
    Shell(String),
    Editor(String),
    Resolution(String),
    DE(String),
    WM(String),
    WMTheme(String),
    Theme(String),
    Icons(String),
    Cursor(String),
    Terminal(String),
    TerminalFont(String),
    CPU(String),
    GPU(String),
    Memory(String),
    Network(String),
    Bluetooth(String),
    BIOS(String),
    GPUDriver(String),
    CPUUsage(String),
    Disk(String),
    Battery(String),
    PowerAdapter(String),
    Font(String),
    Song(String),
    LocalIP(String),
    PublicIP(String),
    Users(String),
    Locale(String),
    Java(String),
    Python(String),
    Node(String),
    Rust(String),
}

impl View for ProbeConfig {
    type V = (ProbeType, Seq<char>);

    open spec fn view(&self) -> (ProbeType, Seq<char>) {
        match self {
            ProbeConfig::Host(l) => (ProbeType::Host, l@),
            ProbeConfig::OS(l) => (ProbeType::OS, l@),
            ProbeConfig::Model(l) => (ProbeType::Model, l@),
            ProbeConfig::Kernel(l) => (ProbeType::Kernel, l@),
            ProbeConfig::Distro(l) => (ProbeType::Distro, l@),
            ProbeConfig::Uptime(l) => (ProbeType::Uptime, l@),
            ProbeConfig::Packages(l) => (ProbeType::Packages, l@),
            ProbeConfig::Shell(l) => (ProbeType::Shell, l@),
            ProbeConfig::Editor(l) => (ProbeType::Editor, l@),
            ProbeConfig::Resolution(l) => (ProbeType::Resolution, l@),
            ProbeConfig::DE(l) => (ProbeType::DE, l@),
            ProbeConfig::WM(l) => (ProbeType::WM, l@),
            ProbeConfig::WMTheme(l) => (ProbeType::WMTheme, l@),
            ProbeConfig::Theme(l) => (ProbeType::Theme, l@),
            ProbeConfig::Icons(l) => (ProbeType::Icons, l@),
            ProbeConfig::Cursor(l) => (ProbeType::Cursor, l@),
            ProbeConfig::Terminal(l) => (ProbeType::Terminal, l@),
            ProbeConfig::TerminalFont(l) => (ProbeType::TerminalFont, l@),
            ProbeConfig::CPU(l) => (ProbeType::CPU, l@),
            ProbeConfig::GPU(l) => (ProbeType::GPU, l@),
            ProbeConfig::Memory(l) => (ProbeType::Memory, l@),
            ProbeConfig::Network(l) => (ProbeType::Network, l@),
            ProbeConfig::Bluetooth(l) => (ProbeType::Bluetooth, l@),
            ProbeConfig::BIOS(l) => (ProbeType::BIOS, l@),
            ProbeConfig::GPUDriver(l) => (ProbeType::GPUDriver, l@),
            ProbeConfig::CPUUsage(l) => (ProbeType::CPUUsage, l@),
            ProbeConfig::Disk(l) => (ProbeType::Disk, l@),
            ProbeConfig::Battery(l) => (ProbeType::Battery, l@),
            ProbeConfig::PowerAdapter(l) => (ProbeType::PowerAdapter, l@),
            ProbeConfig::Font(l) => (ProbeType::Font, l@),
            ProbeConfig::Song(l) => (ProbeType::Song, l@),
            ProbeConfig::LocalIP(l) => (ProbeType::LocalIP, l@),
            ProbeConfig::PublicIP(l) => (ProbeType::PublicIP, l@),
            ProbeConfig::Users(l) => (ProbeType::Users, l@),
            ProbeConfig::Locale(l) => (ProbeType::Locale, l@),
            ProbeConfig::Java(l) => (ProbeType::Java, l@),
            ProbeConfig::Python(l) => (ProbeType::Python, l@),
            ProbeConfig::Node(l) => (ProbeType::Node, l@),
            ProbeConfig::Rust(l) => (ProbeType::Rust, l@),
        }
    }
}

/// A configured probe list reduced to its model: kinds and label texts, in
/// order.
pub open spec fn probes_view(v: Seq<ProbeConfig>) -> Seq<(ProbeType, Seq<char>)> {
    v.map_values(|p: ProbeConfig| p@)
}

impl ProbeConfig {
    /// Resolves this entry to its binding: the display label and the metric
    /// kind whose probe the executor will run. Total over every variant.
    pub fn get_funcs(&self) -> (r: (String, ProbeType))
        ensures
            r.0@ == self@.1,
            r.1 == self@.0,
    {
        match self {
            ProbeConfig::Host(l) => (l.clone(), ProbeType::Host),
            ProbeConfig::OS(l) => (l.clone(), ProbeType::OS),
            ProbeConfig::Model(l) => (l.clone(), ProbeType::Model),
            ProbeConfig::Kernel(l) => (l.clone(), ProbeType::Kernel),
            ProbeConfig::Distro(l) => (l.clone(), ProbeType::Distro),
            ProbeConfig::Uptime(l) => (l.clone(), ProbeType::Uptime),
            ProbeConfig::Packages(l) => (l.clone(), ProbeType::Packages),
            ProbeConfig::Shell(l) => (l.clone(), ProbeType::Shell),
            ProbeConfig::Editor(l) => (l.clone(), ProbeType::Editor),
            ProbeConfig::Resolution(l) => (l.clone(), ProbeType::Resolution),
            ProbeConfig::DE(l) => (l.clone(), ProbeType::DE),
            ProbeConfig::WM(l) => (l.clone(), ProbeType::WM),
            ProbeConfig::WMTheme(l) => (l.clone(), ProbeType::WMTheme),
            ProbeConfig::Theme(l) => (l.clone(), ProbeType::Theme),
            ProbeConfig::Icons(l) => (l.clone(), ProbeType::Icons),
            ProbeConfig::Cursor(l) => (l.clone(), ProbeType::Cursor),
            ProbeConfig::Terminal(l) => (l.clone(), ProbeType::Terminal),
            ProbeConfig::TerminalFont(l) => (l.clone(), ProbeType::TerminalFont),
            ProbeConfig::CPU(l) => (l.clone(), ProbeType::CPU),
            ProbeConfig::GPU(l) => (l.clone(), ProbeType::GPU),
            ProbeConfig::Memory(l) => (l.clone(), ProbeType::Memory),
            ProbeConfig::Network(l) => (l.clone(), ProbeType::Network),
            ProbeConfig::Bluetooth(l) => (l.clone(), ProbeType::Bluetooth),
            ProbeConfig::BIOS(l) => (l.clone(), ProbeType::BIOS),
            ProbeConfig::GPUDriver(l) => (l.clone(), ProbeType::GPUDriver),
            ProbeConfig::CPUUsage(l) => (l.clone(), ProbeType::CPUUsage),
            ProbeConfig::Disk(l) => (l.clone(), ProbeType::Disk),
            ProbeConfig::Battery(l) => (l.clone(), ProbeType::Battery),
            ProbeConfig::PowerAdapter(l) => (l.clone(), ProbeType::PowerAdapter),
            ProbeConfig::Font(l) => (l.clone(), ProbeType::Font),
            ProbeConfig::Song(l) => (l.clone(), ProbeType::Song),
            ProbeConfig::LocalIP(l) => (l.clone(), ProbeType::LocalIP),
            ProbeConfig::PublicIP(l) => (l.clone(), ProbeType::PublicIP),
            ProbeConfig::Users(l) => (l.clone(), ProbeType::Users),
            ProbeConfig::Locale(l) => (l.clone(), ProbeType::Locale),
            ProbeConfig::Java(l) => (l.clone(), ProbeType::Java),
            ProbeConfig::Python(l) => (l.clone(), ProbeType::Python),
            ProbeConfig::Node(l) => (l.clone(), ProbeType::Node),
            ProbeConfig::Rust(l) => (l.clone(), ProbeType::Rust),
        }
    }

    /// The model of the preset that enables every field the catalog offers.
    pub open spec fn spec_default_all() -> Seq<(ProbeType, Seq<char>)> {
        seq![
            (ProbeType::OS, "OS"@),
            (ProbeType::Model, "Host"@),
            (ProbeType::Kernel, "Kernel"@),
            (ProbeType::Uptime, "Uptime"@),
            (ProbeType::Packages, "Packages"@),
            (ProbeType::Shell, "Shell"@),
            (ProbeType::Editor, "Editor"@),
            (ProbeType::Resolution, "Resolution"@),
            (ProbeType::DE, "DE"@),
            (ProbeType::WM, "WM"@),
            (ProbeType::WMTheme, "WM Theme"@),
            (ProbeType::Theme, "Theme"@),
            (ProbeType::Icons, "Icons"@),
            (ProbeType::Cursor, "Cursor"@),
            (ProbeType::Terminal, "Terminal"@),
            (ProbeType::TerminalFont, "Terminal Font"@),
            (ProbeType::CPU, "CPU"@),
            (ProbeType::GPU, "GPU"@),
            (ProbeType::Memory, "Memory"@),
            (ProbeType::Network, "Network"@),
            (ProbeType::Bluetooth, "Bluetooth"@),
            (ProbeType::BIOS, "BIOS"@),
            (ProbeType::GPUDriver, "GPU Driver"@),
            (ProbeType::CPUUsage, "CPU Usage"@),
            (ProbeType::Disk, "Disk"@),
            (ProbeType::Battery, "Battery"@),
            (ProbeType::PowerAdapter, "Power Adapter"@),
            (ProbeType::Font, "Font"@),
            (ProbeType::Song, "Song"@),
            (ProbeType::LocalIP, "Local IP"@),
            (ProbeType::PublicIP, "Public IP"@),
            (ProbeType::Users, "Users"@),
            (ProbeType::Locale, "Locale"@),
            (ProbeType::Java, "Java"@),
            (ProbeType::Python, "Python"@),
            (ProbeType::Node, "Node"@),
            (ProbeType::Rust, "Rust"@),
        ]
    }

    /// The model of the preset that replicates the neofetch field set.
    pub open spec fn spec_default_neofetch() -> Seq<(ProbeType, Seq<char>)> {
        seq![
            (ProbeType::OS, "OS"@),
            (ProbeType::Model, "Host"@),
            (ProbeType::Kernel, "Kernel"@),
            (ProbeType::Uptime, "Uptime"@),
            (ProbeType::Packages, "Packages"@),
            (ProbeType::Shell, "Shell"@),
            (ProbeType::Editor, "Editor"@),
            (ProbeType::Resolution, "Resolution"@),
            (ProbeType::DE, "DE"@),
            (ProbeType::WM, "WM"@),
            (ProbeType::WMTheme, "WM Theme"@),
            (ProbeType::Theme, "Theme"@),
            (ProbeType::Icons, "Icons"@),
            (ProbeType::Cursor, "Cursor"@),
            (ProbeType::Terminal, "Terminal"@),
            (ProbeType::TerminalFont, "Terminal Font"@),
            (ProbeType::CPU, "CPU"@),
            (ProbeType::GPU, "GPU"@),
            (ProbeType::Memory, "Memory"@),
            (ProbeType::Network, "Network"@),
            (ProbeType::Bluetooth, "Bluetooth"@),
            (ProbeType::BIOS, "BIOS"@),
        ]
    }

    /// The model of the preset that replicates the macchina field set. The
    /// distribution entry is always present; a host that does not
    /// distinguish a distribution reports that metric as unavailable at
    /// probe time instead.
    pub open spec fn spec_default_macchina() -> Seq<(ProbeType, Seq<char>)> {
        seq![
            (ProbeType::Host, "Host"@),
            (ProbeType::Model, "Machine"@),
            (ProbeType::Kernel, "Kernel"@),
            (ProbeType::Distro, "Distro"@),
            (ProbeType::Packages, "Packages"@),
            (ProbeType::Terminal, "Terminal"@),
            (ProbeType::LocalIP, "Local IP"@),
            (ProbeType::Shell, "Shell"@),
            (ProbeType::Uptime, "Uptime"@),
            (ProbeType::CPU, "CPU"@),
            (ProbeType::Resolution, "Resolution"@),
            (ProbeType::CPUUsage, "CPU Load"@),
            (ProbeType::Memory, "Memory"@),
            (ProbeType::Battery, "Battery"@),
        ]
    }

    /// The preset enabling every catalog field, in catalog order.
    pub fn default_all() -> (r: Vec<Self>)
        ensures
            probes_view(r@) == Self::spec_default_all(),
    {
        let mut r: Vec<ProbeConfig> = Vec::new();
        r.push(ProbeConfig::OS(String::from_str("OS")));
        r.push(ProbeConfig::Model(String::from_str("Host")));
        r.push(ProbeConfig::Kernel(String::from_str("Kernel")));
        r.push(ProbeConfig::Uptime(String::from_str("Uptime")));
        r.push(ProbeConfig::Packages(String::from_str("Packages")));
        r.push(ProbeConfig::Shell(String::from_str("Shell")));
        r.push(ProbeConfig::Editor(String::from_str("Editor")));
        r.push(ProbeConfig::Resolution(String::from_str("Resolution")));
        r.push(ProbeConfig::DE(String::from_str("DE")));
        r.push(ProbeConfig::WM(String::from_str("WM")));
        r.push(ProbeConfig::WMTheme(String::from_str("WM Theme")));
        r.push(ProbeConfig::Theme(String::from_str("Theme")));
        r.push(ProbeConfig::Icons(String::from_str("Icons")));
        r.push(ProbeConfig::Cursor(String::from_str("Cursor")));
        r.push(ProbeConfig::Terminal(String::from_str("Terminal")));
        r.push(ProbeConfig::TerminalFont(String::from_str("Terminal Font")));
        r.push(ProbeConfig::CPU(String::from_str("CPU")));
        r.push(ProbeConfig::GPU(String::from_str("GPU")));
        r.push(ProbeConfig::Memory(String::from_str("Memory")));
        r.push(ProbeConfig::Network(String::from_str("Network")));
        r.push(ProbeConfig::Bluetooth(String::from_str("Bluetooth")));
        r.push(ProbeConfig::BIOS(String::from_str("BIOS")));
        r.push(ProbeConfig::GPUDriver(String::from_str("GPU Driver")));
        r.push(ProbeConfig::CPUUsage(String::from_str("CPU Usage")));
        r.push(ProbeConfig::Disk(String::from_str("Disk")));
        r.push(ProbeConfig::Battery(String::from_str("Battery")));
        r.push(ProbeConfig::PowerAdapter(String::from_str("Power Adapter")));
        r.push(ProbeConfig::Font(String::from_str("Font")));
        r.push(ProbeConfig::Song(String::from_str("Song")));
        r.push(ProbeConfig::LocalIP(String::from_str("Local IP")));
        r.push(ProbeConfig::PublicIP(String::from_str("Public IP")));
        r.push(ProbeConfig::Users(String::from_str("Users")));
        r.push(ProbeConfig::Locale(String::from_str("Locale")));
        r.push(ProbeConfig::Java(String::from_str("Java")));
        r.push(ProbeConfig::Python(String::from_str("Python")));
        r.push(ProbeConfig::Node(String::from_str("Node")));
        r.push(ProbeConfig::Rust(String::from_str("Rust")));
        proof {
            assert(probes_view(r@) =~= Self::spec_default_all());
        }
        r
    }

    /// The preset replicating neofetch's field set.
    pub fn default_neofetch() -> (r: Vec<Self>)
        ensures
            probes_view(r@) == Self::spec_default_neofetch(),
    {
        let mut r: Vec<ProbeConfig> = Vec::new();
        r.push(ProbeConfig::OS(String::from_str("OS")));
        r.push(ProbeConfig::Model(String::from_str("Host")));
        r.push(ProbeConfig::Kernel(String::from_str("Kernel")));
        r.push(ProbeConfig::Uptime(String::from_str("Uptime")));
        r.push(ProbeConfig::Packages(String::from_str("Packages")));
        r.push(ProbeConfig::Shell(String::from_str("Shell")));
        r.push(ProbeConfig::Editor(String::from_str("Editor")));
        r.push(ProbeConfig::Resolution(String::from_str("Resolution")));
        r.push(ProbeConfig::DE(String::from_str("DE")));
        r.push(ProbeConfig::WM(String::from_str("WM")));
        r.push(ProbeConfig::WMTheme(String::from_str("WM Theme")));
        r.push(ProbeConfig::Theme(String::from_str("Theme")));
        r.push(ProbeConfig::Icons(String::from_str("Icons")));
        r.push(ProbeConfig::Cursor(String::from_str("Cursor")));
        r.push(ProbeConfig::Terminal(String::from_str("Terminal")));
        r.push(ProbeConfig::TerminalFont(String::from_str("Terminal Font")));
        r.push(ProbeConfig::CPU(String::from_str("CPU")));
        r.push(ProbeConfig::GPU(String::from_str("GPU")));
        r.push(ProbeConfig::Memory(String::from_str("Memory")));
        r.push(ProbeConfig::Network(String::from_str("Network")));
        r.push(ProbeConfig::Bluetooth(String::from_str("Bluetooth")));
        r.push(ProbeConfig::BIOS(String::from_str("BIOS")));
        proof {
            assert(probes_view(r@) =~= Self::spec_default_neofetch());
        }
        r
    }

    /// The preset replicating the macchina CLI's field set.
    pub fn default_macchina() -> (r: Vec<Self>)
        ensures
            probes_view(r@) == Self::spec_default_macchina(),
    {
        let mut r: Vec<ProbeConfig> = Vec::new();
        r.push(ProbeConfig::Host(String::from_str("Host")));
        r.push(ProbeConfig::Model(String::from_str("Machine")));
        r.push(ProbeConfig::Kernel(String::from_str("Kernel")));
        r.push(ProbeConfig::Distro(String::from_str("Distro")));
        r.push(ProbeConfig::Packages(String::from_str("Packages")));
        r.push(ProbeConfig::Terminal(String::from_str("Terminal")));
        r.push(ProbeConfig::LocalIP(String::from_str("Local IP")));
        r.push(ProbeConfig::Shell(String::from_str("Shell")));
        r.push(ProbeConfig::Uptime(String::from_str("Uptime")));
        r.push(ProbeConfig::CPU(String::from_str("CPU")));
        r.push(ProbeConfig::Resolution(String::from_str("Resolution")));
        r.push(ProbeConfig::CPUUsage(String::from_str("CPU Load")));
        r.push(ProbeConfig::Memory(String::from_str("Memory")));
        r.push(ProbeConfig::Battery(String::from_str("Battery")));
        proof {
            assert(probes_view(r@) =~= Self::spec_default_macchina());
        }
        r
    }
}

/// Configuration of the neofetch-style renderer.
#[derive(Debug, Clone, PartialEq)]
pub struct NeofetchRendererConfig {
    /// Whether to print the `username@hostname` title line.
    pub title: bool,
    /// Whether to underline the title with dashes of matching length.
    pub underline: bool,
    /// Whether to print the colour block (kept for configuration
    /// compatibility; the renderer does not draw it).
    pub col: bool,
    /// The ordered metric set.
    pub probes: Vec<ProbeConfig>,
}

impl NeofetchRendererConfig {
    /// The neofetch-style configuration with every catalog field enabled.
    pub fn default_all() -> (c: Self)
        ensures
            c.title,
            c.underline,
            c.col,
            probes_view(c.probes@) == ProbeConfig::spec_default_all(),
    {
        NeofetchRendererConfig {
            title: true,
            underline: true,
            col: true,
            probes: ProbeConfig::default_all(),
        }
    }
}

impl Default for NeofetchRendererConfig {
    /// The neofetch-style configuration with neofetch's own field set.
    fn default() -> (c: Self)
        ensures
            c.title,
            c.underline,
            c.col,
            probes_view(c.probes@) == ProbeConfig::spec_default_neofetch(),
    {
        NeofetchRendererConfig {
            title: true,
            underline: true,
            col: true,
            probes: ProbeConfig::default_neofetch(),
        }
    }
}

/// Configuration of the macchina-style renderer.
#[derive(Debug, Clone, PartialEq)]
pub struct MacchinaRendererConfig {
    /// The network interface to prefer for the local-address readout, if
    /// any (consumed by whoever fills the platform snapshot).
    pub interface: Option<String>,
    /// Whether to lengthen the uptime output (kept for configuration
    /// compatibility).
    pub long_uptime: bool,
    /// The ordered metric set.
    pub probes: Vec<ProbeConfig>,
}

impl MacchinaRendererConfig {
    /// The macchina-style configuration with every catalog field enabled.
    pub fn default_all() -> (c: Self)
        ensures
            c.interface is None,
            c.long_uptime,
            probes_view(c.probes@) == ProbeConfig::spec_default_all(),
    {
        MacchinaRendererConfig {
            interface: None,
            long_uptime: true,
            probes: ProbeConfig::default_all(),
        }
    }
}

impl Default for MacchinaRendererConfig {
    /// The macchina-style configuration with macchina's own field set.
    fn default() -> (c: Self)
        ensures
            c.interface is None,
            c.long_uptime,
            probes_view(c.probes@) == ProbeConfig::spec_default_macchina(),
    {
        MacchinaRendererConfig {
            interface: None,
            long_uptime: true,
            probes: ProbeConfig::default_macchina(),
        }
    }
}

/// The whole render configuration: which display strategy to use, with its
/// per-strategy settings.
#[derive(Debug, Clone, PartialEq)]
pub enum Config {
    Neofetch(NeofetchRendererConfig),
    Macchina(MacchinaRendererConfig),
}

/// A renderer choice forced from outside the configuration file.
#[derive(Debug, Clone, Copy, PartialEq, Eq, Structural)]
pub enum RendererOverride {
    Neofetch,
    Macchina,
}

impl Config {
    /// Default configuration with all features enabled.
    pub fn default_all() -> (c: Self)
        ensures
            c matches Config::Neofetch(n) && n.title && n.underline && n.col && probes_view(
                n.probes@,
            ) == ProbeConfig::spec_default_all(),
    {
        Self::default_neofetch_all()
    }

    /// Default configuration replicating neofetch.
    pub fn default_neofetch() -> (c: Self)
        ensures
            c matches Config::Neofetch(n) && n.title && n.underline && n.col && probes_view(
                n.probes@,
            ) == ProbeConfig::spec_default_neofetch(),
    {
        Config::Neofetch(NeofetchRendererConfig::default())
    }

    /// Default configuration replicating neofetch, with all features
    /// enabled.
    pub fn default_neofetch_all() -> (c: Self)
        ensures
            c matches Config::Neofetch(n) && n.title && n.underline && n.col && probes_view(
                n.probes@,
            ) == ProbeConfig::spec_default_all(),
    {
        Config::Neofetch(NeofetchRendererConfig::default_all())
    }

    /// Default configuration replicating the macchina CLI.
    pub fn default_macchina() -> (c: Self)
        ensures
            c matches Config::Macchina(m) && m.interface is None && m.long_uptime && probes_view(
                m.probes@,
            ) == ProbeConfig::spec_default_macchina(),
    {
        Config::Macchina(MacchinaRendererConfig::default())
    }

    /// Default configuration replicating macchina, with all features
    /// enabled.
    pub fn default_macchina_all() -> (c: Self)
        ensures
            c matches Config::Macchina(m) && m.interface is None && m.long_uptime && probes_view(
                m.probes@,
            ) == ProbeConfig::spec_default_all(),
    {
        Config::Macchina(MacchinaRendererConfig::default_all())
    }
}

#[verifier::external_type_specification]
#[verifier::external_body]
pub struct ExPathBuf(std::path::PathBuf);

/// Relies on `directories::ProjectDirs::from` and `ProjectDirs::config_dir`:
/// the per-user configuration directory for the given qualifier,
/// organization and application, following the platform's conventions, or
/// `None` when the system yields no valid home directory. The result
/// depends on the host environment, so nothing more is promised of it.
#[verifier::external_body]
fn project_config_dir(
    qualifier: &str,
    organization: &str,
    application: &str,
) -> Option<std::path::PathBuf> {
    match directories::ProjectDirs::from(qualifier, organization, application) {
        Some(dirs) => Some(dirs.config_dir().to_path_buf()),
        None => None,
    }
}

impl Config {
    /// The directory this tool's configuration file lives in, following the
    /// platform's conventions; `None` when the environment provides no home
    /// directory. The path depends on the host environment.
    pub fn get_config_dir() -> Option<std::path::PathBuf> {
        project_config_dir("net", "justin13888", "ffetch")
    }
}

impl Default for Config {
    /// The configuration used when no file and no flags choose another.
    fn default() -> (c: Self)
        ensures
            c matches Config::Neofetch(n) && n.title && n.underline && n.col && probes_view(
                n.probes@,
            ) == ProbeConfig::spec_default_neofetch(),
    {
        Self::default_neofetch()
    }
}

} // verus!
