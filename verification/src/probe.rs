//! The result model and the probe registry.
//!
//! `ProbeType` enumerates every metric the tool knows; `ProbeValue` is the
//! typed payload a successful probe yields; `ProbeError` is the four-way
//! failure taxonomy. `run_probe` binds each metric kind to its readout
//! operations on a [`Platform`](crate::platform::Platform) snapshot — the
//! registry is a closed, total dispatch — and `run` executes an ordered
//! probe list, isolating each entry's failure.

use vstd::prelude::*;
use vstd::string::*;
use crate::platform::Platform;

verus! {

/// Closed enumeration of every metric the tool can probe.
#[derive(Clone, Copy, Debug, PartialEq, Eq, Structural)]
pub enum ProbeType {
    Host,
    OS,
    Model,
    Kernel,
    Distro,
    Uptime,
    Packages,
    Shell,
    Editor,
    Resolution,
    DE,
    WM,
    WMTheme,
    Theme,
    Icons,
    Cursor,
    Terminal,
    TerminalFont,
    CPU,
    GPU,
    Memory,
    Network,
    Bluetooth,
    BIOS,
    GPUDriver,
    CPUUsage,
    Disk,
    Battery,
    PowerAdapter,
    Font,
    Song,
    LocalIP,
    PublicIP,
    Users,
    Locale,
    Java,
    Python,
    Node,
    Rust,
}

/// The typed value a successful probe yields. The payload shape of each
/// variant is fixed: formatting switches exhaustively over all of them.
#[derive(Debug, Clone, PartialEq)]
pub enum ProbeValue {
    /// Username and hostname, rendered as `username@hostname`.
    Host(String, String),
    /// Operating-system name, e.g. `Ubuntu 22.04.4 LTS`.
    OS(String),
    /// Distribution name (where the platform distinguishes one).
    Distro(String),
    /// Hardware vendor and product, rendered joined by one space.
    Model(String, String),
    /// Kernel release text, e.g. `6.8.4-generic`.
    Kernel(String),
    /// Uptime in seconds.
    Uptime(usize),
    /// Installed-package tallies: `(package manager, count)` pairs. The
    /// probe reports each manager as its own single-entry value inside a
    /// `Multiple` outcome, so each earns its own display line; a
    /// multi-entry list formats as one line, joined by `, `.
    Packages(Vec<(String, usize)>),
    /// Shell name and version, e.g. `zsh 5.9`.
    Shell(String),
    Editor(String),
    /// Display resolution, e.g. `1920x1080`.
    Resolution(String),
    /// Desktop environment name.
    DE(String),
    /// Window manager name.
    WM(String),
    WMTheme(String),
    Theme(String),
    Icons(String),
    Cursor(String),
    Terminal(String),
    TerminalFont(String),
    /// CPU model name.
    CPU(String),
    /// One GPU's name.
    GPU(String),
    /// Memory as `(used, total)` in KiB.
    Memory(u64, u64),
    Network(String),
    Bluetooth(String),
    BIOS(String),
    GPUDriver(String),
    /// CPU usage as an integer percentage.
    CPUUsage(usize),
    /// Disk usage as `(used, total)` in bytes.
    Disk(u64, u64),
    /// Battery charge as an integer percentage.
    Battery(u8),
    /// Power adapter state, e.g. `Charging`.
    PowerAdapter(String),
    Font(String),
    Song(String),
    /// Local network addresses, joined by `, ` into one line.
    LocalIP(Vec<String>),
    PublicIP(String),
    /// Number of logged-in users.
    Users(usize),
    /// Locale name, e.g. `en_US.UTF-8`.
    Locale(String),
    Java(String),
    Python(String),
    Node(String),
    Rust(String),
}

/// The mathematical model of a `ProbeValue`: the same tagged union over
/// character sequences and unbounded integers.
pub enum MetricView {
    Host(Seq<char>, Seq<char>),
    OS(Seq<char>),
    Distro(Seq<char>),
    Model(Seq<char>, Seq<char>),
    Kernel(Seq<char>),
    Uptime(int),
    Packages(Seq<(Seq<char>, int)>),
    Shell(Seq<char>),
    Editor(Seq<char>),
    Resolution(Seq<char>),
    DE(Seq<char>),
    WM(Seq<char>),
    WMTheme(Seq<char>),
    Theme(Seq<char>),
    Icons(Seq<char>),
    Cursor(Seq<char>),
    Terminal(Seq<char>),
    TerminalFont(Seq<char>),
    CPU(Seq<char>),
    GPU(Seq<char>),
    Memory(int, int),
    Network(Seq<char>),
    Bluetooth(Seq<char>),
    BIOS(Seq<char>),
    GPUDriver(Seq<char>),
    CPUUsage(int),
    Disk(int, int),
    Battery(int),
    PowerAdapter(Seq<char>),
    Font(Seq<char>),
    Song(Seq<char>),
    LocalIP(Seq<Seq<char>>),
    PublicIP(Seq<char>),
    Users(int),
    Locale(Seq<char>),
    Java(Seq<char>),
    Python(Seq<char>),
    Node(Seq<char>),
    Rust(Seq<char>),
}

impl View for ProbeValue {
    type V = MetricView;

    open spec fn view(&self) -> MetricView {
        match self {
            ProbeValue::Host(u, h) => MetricView::Host(u@, h@),
            ProbeValue::OS(s) => MetricView::OS(s@),
            ProbeValue::Distro(s) => MetricView::Distro(s@),
            ProbeValue::Model(v, p) => MetricView::Model(v@, p@),
            ProbeValue::Kernel(s) => MetricView::Kernel(s@),
            ProbeValue::Uptime(n) => MetricView::Uptime(*n as int),
            ProbeValue::Packages(l) => MetricView::Packages(
                l@.map_values(|e: (String, usize)| (e.0@, e.1 as int)),
            ),
            ProbeValue::Shell(s) => MetricView::Shell(s@),
            ProbeValue::Editor(s) => MetricView::Editor(s@),
            ProbeValue::Resolution(s) => MetricView::Resolution(s@),
            ProbeValue::DE(s) => MetricView::DE(s@),
            ProbeValue::WM(s) => MetricView::WM(s@),
            ProbeValue::WMTheme(s) => MetricView::WMTheme(s@),
            ProbeValue::Theme(s) => MetricView::Theme(s@),
            ProbeValue::Icons(s) => MetricView::Icons(s@),
            ProbeValue::Cursor(s) => MetricView::Cursor(s@),
            ProbeValue::Terminal(s) => MetricView::Terminal(s@),
            ProbeValue::TerminalFont(s) => MetricView::TerminalFont(s@),
            ProbeValue::CPU(s) => MetricView::CPU(s@),
            ProbeValue::GPU(s) => MetricView::GPU(s@),
            ProbeValue::Memory(u, t) => MetricView::Memory(*u as int, *t as int),
            ProbeValue::Network(s) => MetricView::Network(s@),
            ProbeValue::Bluetooth(s) => MetricView::Bluetooth(s@),
            ProbeValue::BIOS(s) => MetricView::BIOS(s@),
            ProbeValue::GPUDriver(s) => MetricView::GPUDriver(s@),
            ProbeValue::CPUUsage(n) => MetricView::CPUUsage(*n as int),
            ProbeValue::Disk(u, t) => MetricView::Disk(*u as int, *t as int),
            ProbeValue::Battery(b) => MetricView::Battery(*b as int),
            ProbeValue::PowerAdapter(s) => MetricView::PowerAdapter(s@),
            ProbeValue::Font(s) => MetricView::Font(s@),
            ProbeValue::Song(s) => MetricView::Song(s@),
            ProbeValue::LocalIP(v) => MetricView::LocalIP(v@.map_values(|s: String| s@)),
            ProbeValue::PublicIP(s) => MetricView::PublicIP(s@),
            ProbeValue::Users(n) => MetricView::Users(*n as int),
            ProbeValue::Locale(s) => MetricView::Locale(s@),
            ProbeValue::Java(s) => MetricView::Java(s@),
            ProbeValue::Python(s) => MetricView::Python(s@),
            ProbeValue::Node(s) => MetricView::Node(s@),
            ProbeValue::Rust(s) => MetricView::Rust(s@),
        }
    }
}

/// Why a probe failed. Created at execution time, consumed by the renderer,
/// never persisted.
#[derive(Debug, PartialEq)]
pub enum ProbeError {
    /// The metric is not available on this platform.
    MetricsUnavailable,
    /// The metric's probe is not built yet.
    Unimplemented,
    /// Collection failed for an operational reason.
    Other(String),
    /// Collection succeeded but the result may be unreliable.
    Warning(String),
}

impl Clone for ProbeError {
    fn clone(&self) -> (r: Self)
        ensures
            r == *self,
    {
        match self {
            ProbeError::MetricsUnavailable => ProbeError::MetricsUnavailable,
            ProbeError::Unimplemented => ProbeError::Unimplemented,
            ProbeError::Other(s) => ProbeError::Other(s.clone()),
            ProbeError::Warning(s) => ProbeError::Warning(s.clone()),
        }
    }
}

impl ProbeError {
    /// One line of text naming the error, for logs and diagnostics.
    pub fn describe(&self) -> (r: String)
        ensures
            r@ == self.spec_describe(),
    {
        match self {
            ProbeError::MetricsUnavailable => String::from_str("Metrics unavailable"),
            ProbeError::Unimplemented => String::from_str("Unimplemented"),
            ProbeError::Other(s) => s.clone(),
            ProbeError::Warning(s) => s.clone(),
        }
    }

    pub open spec fn spec_describe(&self) -> Seq<char> {
        match self {
            ProbeError::MetricsUnavailable => "Metrics unavailable"@,
            ProbeError::Unimplemented => "Unimplemented"@,
            ProbeError::Other(s) => s@,
            ProbeError::Warning(s) => s@,
        }
    }
}

/// The outcome of one successful probe: one value, or a list of values that
/// each earn their own display line under the shared label.
#[derive(Debug, Clone, PartialEq)]
pub enum ProbeResultValue {
    Single(ProbeValue),
    Multiple(Vec<ProbeValue>),
}

/// What one probe execution returns.
pub type ProbeResult = Result<ProbeResultValue, ProbeError>;

/// An ordered list of display labels, each bound to the metric it probes.
pub type ProbeList = Vec<(String, ProbeType)>;

/// The display lines a probe outcome owes: a `Single` value owes one, a
/// `Multiple` owes one per element, in order, never merged.
pub open spec fn value_views(r: ProbeResultValue) -> Seq<MetricView> {
    match r {
        ProbeResultValue::Single(v) => seq![v@],
        ProbeResultValue::Multiple(vs) => vs@.map_values(|v: ProbeValue| v@),
    }
}

/// A probe result reduced to its model: the value views on success, the
/// error unchanged on failure.
pub open spec fn result_views(r: ProbeResult) -> Result<Seq<MetricView>, ProbeError> {
    match r {
        Ok(v) => Ok(value_views(v)),
        Err(e) => Err(e),
    }
}

/// Which metric kinds yield a `Multiple` outcome: those whose multiplicity
/// is intrinsic (one line per GPU, one per package manager).
pub open spec fn is_multi(kind: ProbeType) -> bool {
    kind == ProbeType::GPU || kind == ProbeType::Packages
}

/// The registry's binding, as a function: what outcome the probe for `kind`
/// yields on the snapshot `p`. Total over every kind.
pub open spec fn spec_outcome(kind: ProbeType, p: Platform) -> Result<Seq<MetricView>, ProbeError> {
    match kind {
        ProbeType::Host => match (p.username, p.hostname) {
            (Ok(u), Ok(h)) => Ok(seq![MetricView::Host(u@, h@)]),
            (Err(e), _) => Err(e),
            (_, Err(e)) => Err(e),
        },
        ProbeType::OS => match p.os_name {
            Ok(s) => Ok(seq![MetricView::OS(s@)]),
            Err(e) => Err(e),
        },
        ProbeType::Distro => match p.distribution {
            Ok(s) => Ok(seq![MetricView::Distro(s@)]),
            Err(e) => Err(e),
        },
        ProbeType::Model => match (p.vendor, p.product) {
            (Ok(v), Ok(pr)) => Ok(seq![MetricView::Model(v@, pr@)]),
            (Err(e), _) => Err(e),
            (_, Err(e)) => Err(e),
        },
        ProbeType::Kernel => match p.kernel_release {
            Ok(s) => Ok(seq![MetricView::Kernel(s@)]),
            Err(e) => Err(e),
        },
        ProbeType::Uptime => match p.uptime_seconds {
            Ok(n) => Ok(seq![MetricView::Uptime(n as int)]),
            Err(e) => Err(e),
        },
        ProbeType::Packages => match p.package_counts {
            Ok(cs) => Ok(
                Seq::new(
                    cs@.len(),
                    |i: int| MetricView::Packages(seq![(cs@[i].0@, cs@[i].1 as int)]),
                ),
            ),
            Err(e) => Err(e),
        },
        ProbeType::Shell => match p.shell {
            Ok(s) => Ok(seq![MetricView::Shell(s@)]),
            Err(e) => Err(e),
        },
        ProbeType::Editor => Err(ProbeError::Unimplemented),
        ProbeType::Resolution => match p.resolution {
            Ok(s) => Ok(seq![MetricView::Resolution(s@)]),
            Err(e) => Err(e),
        },
        ProbeType::DE => match p.desktop_environment {
            Ok(s) => Ok(seq![MetricView::DE(s@)]),
            Err(e) => Err(e),
        },
        ProbeType::WM => match p.window_manager {
            Ok(s) => Ok(seq![MetricView::WM(s@)]),
            Err(e) => Err(e),
        },
        ProbeType::WMTheme => Ok(seq![MetricView::WMTheme(Seq::empty())]),
        ProbeType::Theme => Ok(seq![MetricView::Theme(Seq::empty())]),
        ProbeType::Icons => Ok(seq![MetricView::Icons(Seq::empty())]),
        ProbeType::Cursor => Ok(seq![MetricView::Cursor(Seq::empty())]),
        ProbeType::Terminal => match p.terminal {
            Ok(s) => Ok(seq![MetricView::Terminal(s@)]),
            Err(e) => Err(e),
        },
        ProbeType::TerminalFont => Ok(seq![MetricView::TerminalFont(Seq::empty())]),
        ProbeType::CPU => match p.cpu_model {
            Ok(s) => Ok(seq![MetricView::CPU(s@)]),
            Err(e) => Err(e),
        },
        ProbeType::GPU => match p.gpus {
            Ok(names) => Ok(names@.map_values(|s: String| MetricView::GPU(s@))),
            Err(e) => Err(e),
        },
        ProbeType::Memory => match (p.memory_used_kib, p.memory_total_kib) {
            (Ok(u), Ok(t)) => Ok(seq![MetricView::Memory(u as int, t as int)]),
            (Err(e), _) => Err(e),
            (_, Err(e)) => Err(e),
        },
        ProbeType::Network => Ok(seq![MetricView::Network(Seq::empty())]),
        ProbeType::Bluetooth => Ok(seq![MetricView::Bluetooth(Seq::empty())]),
        ProbeType::BIOS => Ok(seq![MetricView::BIOS(Seq::empty())]),
        ProbeType::GPUDriver => Ok(seq![MetricView::GPUDriver(Seq::empty())]),
        ProbeType::CPUUsage => match p.cpu_usage {
            Ok(n) => Ok(seq![MetricView::CPUUsage(n as int)]),
            Err(e) => Err(e),
        },
        ProbeType::Disk => match p.disk_space {
            Ok(d) => Ok(seq![MetricView::Disk(d.0 as int, d.1 as int)]),
            Err(e) => Err(e),
        },
        ProbeType::Battery => match p.battery_percentage {
            Ok(b) => Ok(seq![MetricView::Battery(b as int)]),
            Err(e) => Err(e),
        },
        ProbeType::PowerAdapter => match p.battery_charging {
            Ok(true) => Ok(seq![MetricView::PowerAdapter("Charging"@)]),
            Ok(false) => Ok(seq![MetricView::PowerAdapter("Discharging"@)]),
            Err(e) => Err(e),
        },
        ProbeType::Font => Ok(seq![MetricView::Font(Seq::empty())]),
        ProbeType::Song => Ok(seq![MetricView::Song(Seq::empty())]),
        ProbeType::LocalIP => match p.local_addresses {
            Ok(a) => Ok(seq![MetricView::LocalIP(a@.map_values(|s: String| s@))]),
            Err(e) => Err(e),
        },
        ProbeType::PublicIP => Ok(seq![MetricView::PublicIP(Seq::empty())]),
        ProbeType::Users => Ok(seq![MetricView::Users(0)]),
        ProbeType::Locale => Ok(seq![MetricView::Locale(Seq::empty())]),
        ProbeType::Java => Ok(seq![MetricView::Java("N/A"@)]),
        ProbeType::Python => Ok(seq![MetricView::Python("N/A"@)]),
        ProbeType::Node => Ok(seq![MetricView::Node("N/A"@)]),
        ProbeType::Rust => Ok(seq![MetricView::Rust("N/A"@)]),
    }
}

/// An owned copy of a list of texts, character for character.
fn clone_strings(v: &Vec<String>) -> (r: Vec<String>)
    ensures
        r@ == v@,
{
    let mut r: Vec<String> = Vec::new();
    let mut i: usize = 0;
    while i < v.len()
        invariant
            i <= v@.len(),
            r@ == v@.subrange(0, i as int),
        decreases v@.len() - i,
    {
        r.push(v[i].clone());
        assert(r@ =~= v@.subrange(0, i + 1 as int));
        i = i + 1;
    }
    assert(r@ =~= v@);
    r
}

/// Resolves `kind` to its readout operations on the snapshot `p` and
/// executes them: the probe registry as one total dispatch. Every kind has
/// exactly one binding; a kind the platform cannot serve yields its error,
/// never a panic.
pub fn run_probe(kind: ProbeType, p: &Platform) -> (r: ProbeResult)
    ensures
        result_views(r) == spec_outcome(kind, *p),
        r matches Ok(ProbeResultValue::Multiple(_)) <==> is_multi(kind) && spec_outcome(
            kind,
            *p,
        ) is Ok,
{
    match kind {
        ProbeType::Host => match (&p.username, &p.hostname) {
            (Ok(u), Ok(h)) => Ok(
                ProbeResultValue::Single(ProbeValue::Host(u.clone(), h.clone())),
            ),
            (Err(e), _) => Err(e.clone()),
            (_, Err(e)) => Err(e.clone()),
        },
        ProbeType::OS => match &p.os_name {
            Ok(s) => Ok(ProbeResultValue::Single(ProbeValue::OS(s.clone()))),
            Err(e) => Err(e.clone()),
        },
        ProbeType::Distro => match &p.distribution {
            Ok(s) => Ok(ProbeResultValue::Single(ProbeValue::Distro(s.clone()))),
            Err(e) => Err(e.clone()),
        },
        ProbeType::Model => match (&p.vendor, &p.product) {
            (Ok(v), Ok(pr)) => Ok(
                ProbeResultValue::Single(ProbeValue::Model(v.clone(), pr.clone())),
            ),
            (Err(e), _) => Err(e.clone()),
            (_, Err(e)) => Err(e.clone()),
        },
        ProbeType::Kernel => match &p.kernel_release {
            Ok(s) => Ok(ProbeResultValue::Single(ProbeValue::Kernel(s.clone()))),
            Err(e) => Err(e.clone()),
        },
        ProbeType::Uptime => match &p.uptime_seconds {
            Ok(n) => Ok(ProbeResultValue::Single(ProbeValue::Uptime(*n))),
            Err(e) => Err(e.clone()),
        },
        ProbeType::Packages => match &p.package_counts {
            Ok(cs) => {
                let mut values: Vec<ProbeValue> = Vec::new();
                let mut i: usize = 0;
                while i < cs.len()
                    invariant
                        i <= cs@.len(),
                        values@.len() == i,
                        forall|j: int|
                            0 <= j < i ==> (#[trigger] values@[j])@ == MetricView::Packages(
                                seq![(cs@[j].0@, cs@[j].1 as int)],
                            ),
                    decreases cs@.len() - i,
                {
                    let entry = &cs[i];
                    let mut one: Vec<(String, usize)> = Vec::new();
                    one.push((entry.0.clone(), entry.1));
                    assert(one@.map_values(|e: (String, usize)| (e.0@, e.1 as int)) =~= seq![
                        (cs@[i as int].0@, cs@[i as int].1 as int),
                    ]);
                    values.push(ProbeValue::Packages(one));
                    i = i + 1;
                }
                assert(values@.map_values(|v: ProbeValue| v@) =~= Seq::new(
                    cs@.len(),
                    |i: int| MetricView::Packages(seq![(cs@[i].0@, cs@[i].1 as int)]),
                ));
                Ok(ProbeResultValue::Multiple(values))
            },
            Err(e) => Err(e.clone()),
        },
        ProbeType::Shell => match &p.shell {
            Ok(s) => Ok(ProbeResultValue::Single(ProbeValue::Shell(s.clone()))),
            Err(e) => Err(e.clone()),
        },
        ProbeType::Editor => Err(ProbeError::Unimplemented),
        ProbeType::Resolution => match &p.resolution {
            Ok(s) => Ok(ProbeResultValue::Single(ProbeValue::Resolution(s.clone()))),
            Err(e) => Err(e.clone()),
        },
        ProbeType::DE => match &p.desktop_environment {
            Ok(s) => Ok(ProbeResultValue::Single(ProbeValue::DE(s.clone()))),
            Err(e) => Err(e.clone()),
        },
        ProbeType::WM => match &p.window_manager {
            Ok(s) => Ok(ProbeResultValue::Single(ProbeValue::WM(s.clone()))),
            Err(e) => Err(e.clone()),
        },
        ProbeType::WMTheme => Ok(ProbeResultValue::Single(ProbeValue::WMTheme(String::new()))),
        ProbeType::Theme => Ok(ProbeResultValue::Single(ProbeValue::Theme(String::new()))),
        ProbeType::Icons => Ok(ProbeResultValue::Single(ProbeValue::Icons(String::new()))),
        ProbeType::Cursor => Ok(ProbeResultValue::Single(ProbeValue::Cursor(String::new()))),
        ProbeType::Terminal => match &p.terminal {
            Ok(s) => Ok(ProbeResultValue::Single(ProbeValue::Terminal(s.clone()))),
            Err(e) => Err(e.clone()),
        },
        ProbeType::TerminalFont => Ok(
            ProbeResultValue::Single(ProbeValue::TerminalFont(String::new())),
        ),
        ProbeType::CPU => match &p.cpu_model {
            Ok(s) => Ok(ProbeResultValue::Single(ProbeValue::CPU(s.clone()))),
            Err(e) => Err(e.clone()),
        },
        ProbeType::GPU => match &p.gpus {
            Ok(names) => {
                let mut values: Vec<ProbeValue> = Vec::new();
                let mut i: usize = 0;
                while i < names.len()
                    invariant
                        i <= names@.len(),
                        values@.len() == i,
                        forall|j: int|
                            0 <= j < i ==> (#[trigger] values@[j])@ == MetricView::GPU(
                                names@[j]@,
                            ),
                    decreases names@.len() - i,
                {
                    values.push(ProbeValue::GPU(names[i].clone()));
                    i = i + 1;
                }
                assert(values@.map_values(|v: ProbeValue| v@) =~= names@.map_values(
                    |s: String| MetricView::GPU(s@),
                ));
                Ok(ProbeResultValue::Multiple(values))
            },
            Err(e) => Err(e.clone()),
        },
        ProbeType::Memory => match (&p.memory_used_kib, &p.memory_total_kib) {
            (Ok(u), Ok(t)) => Ok(ProbeResultValue::Single(ProbeValue::Memory(*u, *t))),
            (Err(e), _) => Err(e.clone()),
            (_, Err(e)) => Err(e.clone()),
        },
        ProbeType::Network => Ok(ProbeResultValue::Single(ProbeValue::Network(String::new()))),
        ProbeType::Bluetooth => Ok(
            ProbeResultValue::Single(ProbeValue::Bluetooth(String::new())),
        ),
        ProbeType::BIOS => Ok(ProbeResultValue::Single(ProbeValue::BIOS(String::new()))),
        ProbeType::GPUDriver => Ok(
            ProbeResultValue::Single(ProbeValue::GPUDriver(String::new())),
        ),
        ProbeType::CPUUsage => match &p.cpu_usage {
            Ok(n) => Ok(ProbeResultValue::Single(ProbeValue::CPUUsage(*n))),
            Err(e) => Err(e.clone()),
        },
        ProbeType::Disk => match &p.disk_space {
            Ok(d) => Ok(ProbeResultValue::Single(ProbeValue::Disk(d.0, d.1))),
            Err(e) => Err(e.clone()),
        },
        ProbeType::Battery => match &p.battery_percentage {
            Ok(b) => Ok(ProbeResultValue::Single(ProbeValue::Battery(*b))),
            Err(e) => Err(e.clone()),
        },
        ProbeType::PowerAdapter => match &p.battery_charging {
            Ok(true) => Ok(
                ProbeResultValue::Single(
                    ProbeValue::PowerAdapter(String::from_str("Charging")),
                ),
            ),
            Ok(false) => Ok(
                ProbeResultValue::Single(
                    ProbeValue::PowerAdapter(String::from_str("Discharging")),
                ),
            ),
            Err(e) => Err(e.clone()),
        },
        ProbeType::Font => Ok(ProbeResultValue::Single(ProbeValue::Font(String::new()))),
        ProbeType::Song => Ok(ProbeResultValue::Single(ProbeValue::Song(String::new()))),
        ProbeType::LocalIP => match &p.local_addresses {
            Ok(a) => Ok(ProbeResultValue::Single(ProbeValue::LocalIP(clone_strings(a)))),
            Err(e) => Err(e.clone()),
        },
        ProbeType::PublicIP => Ok(ProbeResultValue::Single(ProbeValue::PublicIP(String::new()))),
        ProbeType::Users => Ok(ProbeResultValue::Single(ProbeValue::Users(0))),
        ProbeType::Locale => Ok(ProbeResultValue::Single(ProbeValue::Locale(String::new()))),
        ProbeType::Java => Ok(
            ProbeResultValue::Single(ProbeValue::Java(String::from_str("N/A"))),
        ),
        ProbeType::Python => Ok(
            ProbeResultValue::Single(ProbeValue::Python(String::from_str("N/A"))),
        ),
        ProbeType::Node => Ok(
            ProbeResultValue::Single(ProbeValue::Node(String::from_str("N/A"))),
        ),
        ProbeType::Rust => Ok(
            ProbeResultValue::Single(ProbeValue::Rust(String::from_str("N/A"))),
        ),
    }
}

/// Executes the configured, ordered probe list against one snapshot.
///
/// Execution order equals configuration order, every entry keeps its label,
/// and one entry's failure has no effect on its siblings: each position of
/// the output is exactly the registry's outcome for that position's kind.
pub fn run(entries: &ProbeList, platform: &Platform) -> (out: Vec<(String, ProbeResult)>)
    ensures
        out@.len() == entries@.len(),
        forall|i: int|
            0 <= i < entries@.len() ==> (#[trigger] out@[i]).0@ == entries@[i].0@
                && result_views(out@[i].1) == spec_outcome(entries@[i].1, *platform) && (
            out@[i].1 matches Ok(ProbeResultValue::Multiple(_)) <==> is_multi(entries@[i].1)
                && spec_outcome(entries@[i].1, *platform) is Ok),
{
    let mut out: Vec<(String, ProbeResult)> = Vec::new();
    let mut i: usize = 0;
    while i < entries.len()
        invariant
            i <= entries@.len(),
            out@.len() == i,
            forall|j: int|
                0 <= j < i ==> (#[trigger] out@[j]).0@ == entries@[j].0@ && result_views(
                    out@[j].1,
                ) == spec_outcome(entries@[j].1, *platform) && (out@[j].1 matches Ok(
                    ProbeResultValue::Multiple(_),
                ) <==> is_multi(entries@[j].1) && spec_outcome(entries@[j].1, *platform) is Ok),
        decreases entries@.len() - i,
    {
        let entry = &entries[i];
        out.push((entry.0.clone(), run_probe(entry.1, platform)));
        i = i + 1;
    }
    out
}

} // verus!
