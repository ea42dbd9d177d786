//! Log sources: the kind of a source read from its name and configuration,
//! the sources that each operating system may offer and what probing them
//! reveals, the permission report of a path, and the demonstration sources.
use vstd::prelude::*;
use crate::models::{LogSource, PermissionStatus, SourceType, SourceTypeModel, Timestamp};
use crate::text::{
    chars_eq, concat2, copy_opt, lowercase_of, opt_view, owned, replace_char, replace_char_chars,
    str_eq, to_chars, to_lower, views,
};

verus! {

// ───────────────────────────── source kinds ─────────────────────────────

/// The configuration fields that the source kinds read, as found in a source's
/// JSON configuration: a field is present when its key holds a value of the
/// expected JSON type (a string, an unsigned integer, or an array, whose
/// entries are given as strings where they are strings).
pub struct SourceConfig {
    pub path: Option<String>,
    pub pattern: Option<String>,
    pub unit_filter: Option<String>,
    pub predicate: Option<String>,
    pub channel: Option<String>,
    pub query: Option<String>,
    pub port: Option<u64>,
    pub protocol: Option<String>,
    pub topic: Option<String>,
    pub brokers: Option<Vec<Option<String>>>,
}

/// The name of a source kind with case and underscores ignored.
pub open spec fn kind_key(t: Seq<char>) -> Seq<char> {
    replace_char(lowercase_of(t), '_', Seq::<char>::empty())
}

/// A value, or a default where there is none.
pub open spec fn or_default(o: Option<Seq<char>>, d: Seq<char>) -> Seq<char> {
    match o {
        Some(v) => v,
        None => d,
    }
}

/// The string entries of an array, in order.
pub open spec fn kept_strings(v: Seq<Option<String>>) -> Seq<Seq<char>>
    decreases v.len(),
{
    if v.len() == 0 {
        Seq::<Seq<char>>::empty()
    } else {
        let rest = kept_strings(v.drop_last());
        match v.last() {
            Some(s) => rest.push(s@),
            None => rest,
        }
    }
}

/// The port of a syslog source: the configured number truncated to 16 bits,
/// 1514 by default.
pub open spec fn syslog_port(p: Option<u64>) -> u16 {
    (match p {
        Some(v) => v,
        None => 1514u64,
    } % 65536) as u16
}

/// The source kind named `t` with its configuration; an unknown name is a
/// file watcher.
pub open spec fn source_type_of(t: Seq<char>, c: SourceConfig) -> SourceTypeModel {
    let k = kind_key(t);
    if k == "journald"@ {
        SourceTypeModel::Journald { unit_filter: opt_view(c.unit_filter) }
    } else if k == "macosunifiedlog"@ {
        SourceTypeModel::MacOsUnifiedLog { predicate: opt_view(c.predicate) }
    } else if k == "windowseventlog"@ {
        SourceTypeModel::WindowsEventLog {
            channel: or_default(opt_view(c.channel), "Security"@),
            query: opt_view(c.query),
        }
    } else if k == "networksyslog"@ {
        SourceTypeModel::NetworkSyslog {
            port: syslog_port(c.port),
            protocol: or_default(opt_view(c.protocol), "udp/tcp"@),
        }
    } else if k == "kafka"@ {
        SourceTypeModel::Kafka {
            topic: or_default(opt_view(c.topic), "logs"@),
            brokers: match c.brokers {
                Some(b) => kept_strings(b@),
                None => Seq::<Seq<char>>::empty(),
            },
        }
    } else {
        SourceTypeModel::FileWatcher {
            path: or_default(opt_view(c.path), ""@),
            pattern: opt_view(c.pattern),
        }
    }
}

fn or_default_string(o: &Option<String>, d: &str) -> (r: String)
    ensures
        r@ == or_default(opt_view(*o), d@),
{
    match o {
        Some(v) => v.clone(),
        None => owned(d),
    }
}

fn kept_strings_exec(v: &Vec<Option<String>>) -> (r: Vec<String>)
    ensures
        views(r@) == kept_strings(v@),
{
    let mut out: Vec<String> = Vec::new();
    let mut i: usize = 0;
    while i < v.len()
        invariant
            i <= v@.len(),
            views(out@) == kept_strings(v@.take(i as int)),
        decreases v@.len() - i,
    {
        assert(v@.take(i + 1).drop_last() =~= v@.take(i as int));
        let ghost before = views(out@);
        match &v[i] {
            Some(s) => {
                out.push(s.clone());
                assert(views(out@) =~= before.push(s@));
            },
            None => {},
        }
        i = i + 1;
    }
    assert(v@.take(v@.len() as int) =~= v@);
    out
}

fn is_kind(key: &[char], name: &str) -> (r: bool)
    ensures
        r == (key@ == name@),
{
    let n = to_chars(name);
    chars_eq(key, n.as_slice())
}

/// The source kind named `t` (case and underscores ignored) with its
/// configuration; an unknown name is a file watcher.
pub fn parse_source_type(t: &str, config: &SourceConfig) -> (r: SourceType)
    ensures
        r@ == source_type_of(t@, *config),
{
    let lower = to_lower(t);
    let lc = to_chars(lower.as_str());
    let empty: Vec<char> = Vec::new();
    let key = replace_char_chars(lc.as_slice(), '_', empty.as_slice());
    assert(empty@ =~= Seq::<char>::empty());
    let k = key.as_slice();
    if is_kind(k, "journald") {
        SourceType::Journald { unit_filter: copy_opt(&config.unit_filter) }
    } else if is_kind(k, "macosunifiedlog") {
        SourceType::MacOsUnifiedLog { predicate: copy_opt(&config.predicate) }
    } else if is_kind(k, "windowseventlog") {
        SourceType::WindowsEventLog {
            channel: or_default_string(&config.channel, "Security"),
            query: copy_opt(&config.query),
        }
    } else if is_kind(k, "networksyslog") {
        let p: u64 = match config.port {
            Some(v) => v,
            None => 1514,
        };
        SourceType::NetworkSyslog {
            port: (p % 65536) as u16,
            protocol: or_default_string(&config.protocol, "udp/tcp"),
        }
    } else if is_kind(k, "kafka") {
        let brokers = match &config.brokers {
            Some(b) => kept_strings_exec(b),
            None => Vec::new(),
        };
        let r = SourceType::Kafka { topic: or_default_string(&config.topic, "logs"), brokers };
        assert(r@ == source_type_of(t@, *config)) by {
            if config.brokers is None {
                assert(views(brokers@) =~= Seq::<Seq<char>>::empty());
            }
        }
        r
    } else {
        SourceType::FileWatcher {
            path: or_default_string(&config.path, ""),
            pattern: copy_opt(&config.pattern),
        }
    }
}

/// A new, enabled source of normal priority, created at `now`.
pub fn new_log_source(
    id: String,
    name: String,
    source_type: SourceType,
    hostname: String,
    os: String,
    config: String,
    now: Timestamp,
) -> (r: LogSource)
    ensures
        r.id@ == id@,
        r.name@ == name@,
        r.source_type@ == source_type@,
        r.hostname@ == hostname@,
        r.os@ == os@,
        r.enabled,
        r.priority@ == "normal"@,
        r.config@ == config@,
        r.created_at == now,
        r.updated_at == now,
{
    LogSource {
        id,
        name,
        source_type,
        hostname,
        os,
        enabled: true,
        priority: owned("normal"),
        config,
        created_at: now,
        updated_at: now,
    }
}

// ─────────────────────────────── discovery ───────────────────────────────

/// What probing a path revealed.
pub enum Probe {
    /// It does not exist.
    Missing,
    /// It opens for reading.
    Readable,
    /// Opening it was refused for want of permission.
    PermissionDenied,
    /// Opening it failed otherwise; the error as the system words it.
    Unreadable { error: String },
}

/// How a candidate source is checked.
#[derive(Clone, Copy, PartialEq, Eq, Structural)]
pub enum Check {
    /// Always offered, with a status known in advance.
    Fixed,
    /// Offered when the system journal exists.
    Journal,
    /// Offered when its file exists, with a status from opening it.
    File,
}

/// A source that the system may offer, before it is probed.
pub struct Candidate {
    pub name: String,
    pub category: String,
    pub source_type: SourceType,
    pub target_path: String,
    pub os: String,
    pub is_critical_security: bool,
    pub check: Check,
    /// The status of a `Fixed` candidate.
    pub status: PermissionStatus,
    /// The help of a `Fixed` candidate.
    pub help: Option<String>,
    /// What a refused file's help says before the file's path.
    pub denied_help: String,
    pub config: Vec<(String, String)>,
}

/// The views of key-value pairs.
pub open spec fn pairs_view(v: Seq<(String, String)>) -> Seq<(Seq<char>, Seq<char>)> {
    v.map_values(|p: (String, String)| (p.0@, p.1@))
}

/// A candidate source as plain values.
pub struct CandidateModel {
    pub name: Seq<char>,
    pub category: Seq<char>,
    pub source_type: SourceTypeModel,
    pub target_path: Seq<char>,
    pub os: Seq<char>,
    pub is_critical_security: bool,
    pub check: Check,
    pub status: PermissionStatus,
    pub help: Option<Seq<char>>,
    pub denied_help: Seq<char>,
    pub config: Seq<(Seq<char>, Seq<char>)>,
}

impl View for Candidate {
    type V = CandidateModel;

    open spec fn view(&self) -> CandidateModel {
        CandidateModel {
            name: self.name@,
            category: self.category@,
            source_type: self.source_type@,
            target_path: self.target_path@,
            os: self.os@,
            is_critical_security: self.is_critical_security,
            check: self.check,
            status: self.status,
            help: opt_view(self.help),
            denied_help: self.denied_help@,
            config: pairs_view(self.config@),
        }
    }
}

/// The family of an operating system name: 0 for macOS, 1 for Linux, 2 for
/// Windows, 3 for any other.
pub open spec fn os_family(os: Seq<char>) -> int {
    if os == "macos"@ || os == "darwin"@ {
        0
    } else if os == "linux"@ {
        1
    } else if os == "windows"@ {
        2
    } else {
        3
    }
}

fn os_family_exec(os: &str) -> (r: usize)
    ensures
        r == os_family(os@),
{
    if str_eq(os, "macos") || str_eq(os, "darwin") {
        0
    } else if str_eq(os, "linux") {
        1
    } else if str_eq(os, "windows") {
        2
    } else {
        3
    }
}

/// The number of log files looked for on a system.
pub open spec fn file_target_count(family: int) -> int {
    if family == 0 {
        6
    } else if family == 1 {
        11
    } else {
        0
    }
}

/// The log files looked for on a system: path, name, category, and whether it
/// matters to security.
pub open spec fn file_target(family: int, k: int) -> (Seq<char>, Seq<char>, Seq<char>, bool) {
    if family == 0 {
        if k == 0 {
            ("/var/log/system.log"@, "macOS System Log"@, "Système & Daemon"@, true)
        } else if k == 1 {
            ("/var/log/wifi.log"@, "macOS Wi-Fi & Network Log"@, "Réseau"@, false)
        } else if k == 2 {
            ("/var/log/install.log"@, "macOS Package Installer Log"@, "Installation & Root"@, true)
        } else if k == 3 {
            ("/private/var/log/asl"@, "Apple System Log Archive (ASL)"@, "Système"@, false)
        } else if k == 4 {
            ("/private/var/audit"@, "OpenBSM Security Audit Trail"@, "Audit Sécurité"@, true)
        } else {
            (
                "/Library/Logs/DiagnosticReports"@,
                "macOS System Panic & Crash Reports"@,
                "Anomalie Système"@,
                true,
            )
        }
    } else {
        if k == 0 {
            (
                "/var/log/auth.log"@,
                "Linux Authentication Log (Debian/Ubuntu)"@,
                "Authentification & PAM"@,
                true,
            )
        } else if k == 1 {
            (
                "/var/log/secure"@,
                "Linux Security & Auth Log (RHEL/CentOS)"@,
                "Authentification & PAM"@,
                true,
            )
        } else if k == 2 {
            (
                "/var/log/audit/audit.log"@,
                "Linux Audit Daemon (auditd)"@,
                "Audit Sécurité Kernel"@,
                true,
            )
        } else if k == 3 {
            ("/var/log/syslog"@, "Linux System Log (Syslog)"@, "Système Général"@, false)
        } else if k == 4 {
            ("/var/log/messages"@, "Linux Messages Log (RHEL/CentOS)"@, "Système Général"@, false)
        } else if k == 5 {
            ("/var/log/kern.log"@, "Linux Kernel Messages"@, "Noyau & Matériel"@, true)
        } else if k == 6 {
            ("/var/log/ufw.log"@, "UFW Firewall Log"@, "Pare-feu & Réseau"@, false)
        } else if k == 7 {
            ("/var/log/nginx/access.log"@, "Nginx Web Server Access"@, "Serveur Web"@, false)
        } else if k == 8 {
            ("/var/log/nginx/error.log"@, "Nginx Web Server Error"@, "Serveur Web"@, true)
        } else if k == 9 {
            ("/var/log/apache2/access.log"@, "Apache Web Server Access"@, "Serveur Web"@, false)
        } else {
            ("/var/log/apache2/error.log"@, "Apache Web Server Error"@, "Serveur Web"@, true)
        }
    }
}

fn file_target_exec(family: usize, k: usize) -> (r: (&'static str, &'static str, &'static str, bool))
    requires
        family <= 1,
        k < file_target_count(family as int),
    ensures
        (r.0@, r.1@, r.2@, r.3) == file_target(family as int, k as int),
{
    if family == 0 {
        if k == 0 {
            ("/var/log/system.log", "macOS System Log", "Système & Daemon", true)
        } else if k == 1 {
            ("/var/log/wifi.log", "macOS Wi-Fi & Network Log", "Réseau", false)
        } else if k == 2 {
            ("/var/log/install.log", "macOS Package Installer Log", "Installation & Root", true)
        } else if k == 3 {
            ("/private/var/log/asl", "Apple System Log Archive (ASL)", "Système", false)
        } else if k == 4 {
            ("/private/var/audit", "OpenBSM Security Audit Trail", "Audit Sécurité", true)
        } else {
            (
                "/Library/Logs/DiagnosticReports",
                "macOS System Panic & Crash Reports",
                "Anomalie Système",
                true,
            )
        }
    } else {
        if k == 0 {
            (
                "/var/log/auth.log",
                "Linux Authentication Log (Debian/Ubuntu)",
                "Authentification & PAM",
                true,
            )
        } else if k == 1 {
            (
                "/var/log/secure",
                "Linux Security & Auth Log (RHEL/CentOS)",
                "Authentification & PAM",
                true,
            )
        } else if k == 2 {
            ("/var/log/audit/audit.log", "Linux Audit Daemon (auditd)", "Audit Sécurité Kernel", true)
        } else if k == 3 {
            ("/var/log/syslog", "Linux System Log (Syslog)", "Système Général", false)
        } else if k == 4 {
            ("/var/log/messages", "Linux Messages Log (RHEL/CentOS)", "Système Général", false)
        } else if k == 5 {
            ("/var/log/kern.log", "Linux Kernel Messages", "Noyau & Matériel", true)
        } else if k == 6 {
            ("/var/log/ufw.log", "UFW Firewall Log", "Pare-feu & Réseau", false)
        } else if k == 7 {
            ("/var/log/nginx/access.log", "Nginx Web Server Access", "Serveur Web", false)
        } else if k == 8 {
            ("/var/log/nginx/error.log", "Nginx Web Server Error", "Serveur Web", true)
        } else if k == 9 {
            ("/var/log/apache2/access.log", "Apache Web Server Access", "Serveur Web", false)
        } else {
            ("/var/log/apache2/error.log", "Apache Web Server Error", "Serveur Web", true)
        }
    }
}

/// The Windows event channels looked for: channel, name, category, whether it
/// matters to security, and whether reading it takes administrator rights.
pub open spec fn channel_target(k: int) -> (Seq<char>, Seq<char>, Seq<char>, bool, bool) {
    if k == 0 {
        (
            "Security"@,
            "Windows Security Event Log (Logons, Privileges)"@,
            "Authentification & Sécurité"@,
            true,
            true,
        )
    } else if k == 1 {
        ("System"@, "Windows System Event Log"@, "Système & Services"@, false, false)
    } else if k == 2 {
        ("Application"@, "Windows Application Event Log"@, "Applications"@, false, false)
    } else if k == 3 {
        (
            "Microsoft-Windows-PowerShell/Operational"@,
            "PowerShell Script Execution Log"@,
            "Exécution de Scripts"@,
            true,
            false,
        )
    } else {
        (
            "Microsoft-Windows-Sysmon/Operational"@,
            "Sysmon Deep Telemetry Log"@,
            "Télémétrie Avancée"@,
            true,
            true,
        )
    }
}

fn channel_target_exec(k: usize) -> (r: (&'static str, &'static str, &'static str, bool, bool))
    requires
        k < 5,
    ensures
        (r.0@, r.1@, r.2@, r.3, r.4) == channel_target(k as int),
{
    if k == 0 {
        (
            "Security",
            "Windows Security Event Log (Logons, Privileges)",
            "Authentification & Sécurité",
            true,
            true,
        )
    } else if k == 1 {
        ("System", "Windows System Event Log", "Système & Services", false, false)
    } else if k == 2 {
        ("Application", "Windows Application Event Log", "Applications", false, false)
    } else if k == 3 {
        (
            "Microsoft-Windows-PowerShell/Operational",
            "PowerShell Script Execution Log",
            "Exécution de Scripts",
            true,
            false,
        )
    } else {
        (
            "Microsoft-Windows-Sysmon/Operational",
            "Sysmon Deep Telemetry Log",
            "Télémétrie Avancée",
            true,
            true,
        )
    }
}

/// The predicate that selects authentication and session events in the
/// macOS unified log.
pub const MACOS_AUTH_PREDICATE: &'static str = "process == \"loginwindow\" OR process == \"sudo\" OR subsystem == \"com.apple.LocalAuthentication\"";

/// What a refused macOS log file's help says before its path.
pub const MACOS_DENIED_HELP: &'static str = "Accès restreint par macOS. Accordez l'Accès complet au disque dans 'Réglages Système > Confidentialité et sécurité > Accès complet au disque' ou exécutez dans le Terminal : sudo chmod +r ";

/// What a refused Linux log file's help says before its path.
pub const LINUX_DENIED_HELP: &'static str = "Droits d'accès insuffisants sous Linux. Ajoutez votre utilisateur aux groupes d'administration : 'sudo usermod -aG adm,systemd-journal $USER' puis redémarrez votre session, ou lancez : sudo chmod +r ";

/// The help of a Windows channel that takes administrator rights.
pub const WINDOWS_ADMIN_HELP: &'static str = "Le journal Windows Security requiert des privilèges Administrateur. Lancez DefuDelog en faisant 'Clic droit > Exécuter en tant qu'administrateur'.";

/// The number of candidate sources of a system.
pub open spec fn candidate_count(family: int) -> int {
    if family == 0 {
        7
    } else if family == 1 {
        12
    } else if family == 2 {
        5
    } else {
        0
    }
}

/// A log file as a candidate source.
pub open spec fn file_candidate(family: int, k: int) -> CandidateModel {
    let (path, name, category, critical) = file_target(family, k);
    CandidateModel {
        name: name,
        category: category,
        source_type: SourceTypeModel::FileWatcher { path: path, pattern: Some("*"@) },
        target_path: path,
        os: if family == 0 { "macos"@ } else { "linux"@ },
        is_critical_security: critical,
        check: Check::File,
        status: PermissionStatus::Accessible,
        help: None,
        denied_help: if family == 0 { MACOS_DENIED_HELP@ } else { LINUX_DENIED_HELP@ },
        config: seq![("path"@, path)],
    }
}

/// The candidate sources of a system, in the order they are offered: on macOS
/// the unified log then the log files, on Linux the journal then the log
/// files, on Windows the event channels.
pub open spec fn candidate(family: int, k: int) -> CandidateModel {
    if family == 0 && k == 0 {
        CandidateModel {
            name: "macOS Unified Log (Auth & Sessions)"@,
            category: "Authentification & Sessions"@,
            source_type: SourceTypeModel::MacOsUnifiedLog { predicate: Some(MACOS_AUTH_PREDICATE@) },
            target_path: "Apple Unified Log (Subsystems: loginwindow, sudo, LocalAuth)"@,
            os: "macos"@,
            is_critical_security: true,
            check: Check::Fixed,
            status: PermissionStatus::Accessible,
            help: None,
            denied_help: Seq::<char>::empty(),
            config: seq![("predicate"@, MACOS_AUTH_PREDICATE@)],
        }
    } else if family == 1 && k == 0 {
        CandidateModel {
            name: "Linux systemd-journald"@,
            category: "Système & Services"@,
            source_type: SourceTypeModel::Journald { unit_filter: None },
            target_path: "systemd-journald"@,
            os: "linux"@,
            is_critical_security: true,
            check: Check::Journal,
            status: PermissionStatus::Accessible,
            help: None,
            denied_help: Seq::<char>::empty(),
            config: Seq::<(Seq<char>, Seq<char>)>::empty(),
        }
    } else if family == 2 {
        let (channel, name, category, critical, admin) = channel_target(k);
        CandidateModel {
            name: name,
            category: category,
            source_type: SourceTypeModel::WindowsEventLog { channel: channel, query: None },
            target_path: "EventLog Channel: "@ + channel,
            os: "windows"@,
            is_critical_security: critical,
            check: Check::Fixed,
            status: if admin {
                PermissionStatus::RequiresElevation
            } else {
                PermissionStatus::Accessible
            },
            help: if admin {
                Some(WINDOWS_ADMIN_HELP@)
            } else {
                None
            },
            denied_help: Seq::<char>::empty(),
            config: seq![("channel"@, channel)],
        }
    } else {
        file_candidate(family, k - 1)
    }
}

fn pair(k: &str, v: &str) -> (r: (String, String))
    ensures
        r.0@ == k@,
        r.1@ == v@,
{
    (owned(k), owned(v))
}

fn file_candidate_exec(family: usize, k: usize) -> (r: Candidate)
    requires
        family <= 1,
        k < file_target_count(family as int),
    ensures
        r@ == file_candidate(family as int, k as int),
{
    let (path, name, category, critical) = file_target_exec(family, k);
    let mut config: Vec<(String, String)> = Vec::new();
    config.push(pair("path", path));
    let r = Candidate {
        name: owned(name),
        category: owned(category),
        source_type: SourceType::FileWatcher { path: owned(path), pattern: Some(owned("*")) },
        target_path: owned(path),
        os: if family == 0 {
            owned("macos")
        } else {
            owned("linux")
        },
        is_critical_security: critical,
        check: Check::File,
        status: PermissionStatus::Accessible,
        help: None,
        denied_help: if family == 0 {
            owned(MACOS_DENIED_HELP)
        } else {
            owned(LINUX_DENIED_HELP)
        },
        config,
    };
    assert(pairs_view(r.config@) =~= seq![("path"@, path@)]);
    r
}

fn candidate_exec(family: usize, k: usize) -> (r: Candidate)
    requires
        family <= 2,
        k < candidate_count(family as int),
    ensures
        r@ == candidate(family as int, k as int),
{
    if family == 0 && k == 0 {
        let mut config: Vec<(String, String)> = Vec::new();
        config.push(pair("predicate", MACOS_AUTH_PREDICATE));
        let r = Candidate {
            name: owned("macOS Unified Log (Auth & Sessions)"),
            category: owned("Authentification & Sessions"),
            source_type: SourceType::MacOsUnifiedLog { predicate: Some(owned(MACOS_AUTH_PREDICATE)) },
            target_path: owned("Apple Unified Log (Subsystems: loginwindow, sudo, LocalAuth)"),
            os: owned("macos"),
            is_critical_security: true,
            check: Check::Fixed,
            status: PermissionStatus::Accessible,
            help: None,
            denied_help: String::new(),
            config,
        };
        assert(pairs_view(r.config@) =~= seq![("predicate"@, MACOS_AUTH_PREDICATE@)]);
        r
    } else if family == 1 && k == 0 {
        let r = Candidate {
            name: owned("Linux systemd-journald"),
            category: owned("Système & Services"),
            source_type: SourceType::Journald { unit_filter: None },
            target_path: owned("systemd-journald"),
            os: owned("linux"),
            is_critical_security: true,
            check: Check::Journal,
            status: PermissionStatus::Accessible,
            help: None,
            denied_help: String::new(),
            config: Vec::new(),
        };
        assert(pairs_view(r.config@) =~= Seq::<(Seq<char>, Seq<char>)>::empty());
        r
    } else if family == 2 {
        let (channel, name, category, critical, admin) = channel_target_exec(k);
        let mut config: Vec<(String, String)> = Vec::new();
        config.push(pair("channel", channel));
        let r = Candidate {
            name: owned(name),
            category: owned(category),
            source_type: SourceType::WindowsEventLog { channel: owned(channel), query: None },
            target_path: concat2("EventLog Channel: ", channel),
            os: owned("windows"),
            is_critical_security: critical,
            check: Check::Fixed,
            status: if admin {
                PermissionStatus::RequiresElevation
            } else {
                PermissionStatus::Accessible
            },
            help: if admin {
                Some(owned(WINDOWS_ADMIN_HELP))
            } else {
                None
            },
            denied_help: String::new(),
            config,
        };
        assert(pairs_view(r.config@) =~= seq![("channel"@, channel@)]);
        r
    } else {
        file_candidate_exec(family, k - 1)
    }
}

/// The views of a list of candidates.
pub open spec fn candidate_views(v: Seq<Candidate>) -> Seq<CandidateModel> {
    v.map_values(|c: Candidate| c@)
}

/// The sources that the system named `os` may offer, in order, before they
/// are probed (none on an unknown system).
pub fn discovery_candidates(os: &str) -> (r: Vec<Candidate>)
    ensures
        r@.len() == candidate_count(os_family(os@)),
        forall|k: int| 0 <= k < r@.len() ==> #[trigger] r@[k]@ == candidate(os_family(os@), k),
{
    let family = os_family_exec(os);
    let mut out: Vec<Candidate> = Vec::new();
    if family > 2 {
        return out;
    }
    let n: usize = if family == 0 {
        7
    } else if family == 1 {
        12
    } else {
        5
    };
    let mut k: usize = 0;
    while k < n
        invariant
            family <= 2,
            family == os_family(os@),
            n == candidate_count(family as int),
            k <= n,
            out@.len() == k,
            forall|j: int| 0 <= j < k ==> #[trigger] out@[j]@ == candidate(family as int, j),
        decreases n - k,
    {
        let c = candidate_exec(family, k);
        out.push(c);
        k = k + 1;
    }
    out
}

/// A source found on the system, with how accessible it is. `config` holds the
/// source's configuration as key-value pairs.
pub struct DiscoveredSource {
    pub id: String,
    pub name: String,
    pub category: String,
    pub source_type: SourceType,
    pub target_path: String,
    pub hostname: String,
    pub os: String,
    pub status: PermissionStatus,
    pub is_critical_security: bool,
    pub permission_help: Option<String>,
    pub config: Vec<(String, String)>,
}

/// A found source as plain values.
pub struct DiscoveredModel {
    pub id: Seq<char>,
    pub name: Seq<char>,
    pub category: Seq<char>,
    pub source_type: SourceTypeModel,
    pub target_path: Seq<char>,
    pub hostname: Seq<char>,
    pub os: Seq<char>,
    pub status: PermissionStatus,
    pub is_critical_security: bool,
    pub permission_help: Option<Seq<char>>,
    pub config: Seq<(Seq<char>, Seq<char>)>,
}

impl View for DiscoveredSource {
    type V = DiscoveredModel;

    open spec fn view(&self) -> DiscoveredModel {
        DiscoveredModel {
            id: self.id@,
            name: self.name@,
            category: self.category@,
            source_type: self.source_type@,
            target_path: self.target_path@,
            hostname: self.hostname@,
            os: self.os@,
            status: self.status,
            is_critical_security: self.is_critical_security,
            permission_help: opt_view(self.permission_help),
            config: pairs_view(self.config@),
        }
    }
}

/// A candidate as found, with its status and help.
pub open spec fn found(
    c: CandidateModel,
    status: PermissionStatus,
    help: Option<Seq<char>>,
    hostname: Seq<char>,
    id: Seq<char>,
) -> DiscoveredModel {
    DiscoveredModel {
        id: id,
        name: c.name,
        category: c.category,
        source_type: c.source_type,
        target_path: c.target_path,
        hostname: hostname,
        os: c.os,
        status: status,
        is_critical_security: c.is_critical_security,
        permission_help: help,
        config: c.config,
    }
}

/// What a candidate becomes once probed: nothing when it is missing; a file
/// that opens is accessible, a refused one carries help that ends with its
/// path, one that fails otherwise is reported not found; a fixed candidate
/// keeps its known status and help.
pub open spec fn resolved(c: CandidateModel, p: Probe, hostname: Seq<char>, id: Seq<char>) -> Option<DiscoveredModel> {
    match c.check {
        Check::Fixed => Some(found(c, c.status, c.help, hostname, id)),
        Check::Journal => if p is Missing {
            None
        } else {
            Some(found(c, PermissionStatus::Accessible, None, hostname, id))
        },
        Check::File => match p {
            Probe::Missing => None,
            Probe::Readable => Some(found(c, PermissionStatus::Accessible, None, hostname, id)),
            Probe::PermissionDenied => Some(
                found(
                    c,
                    PermissionStatus::PermissionDenied,
                    Some(c.denied_help + c.target_path),
                    hostname,
                    id,
                ),
            ),
            Probe::Unreadable { .. } => Some(found(c, PermissionStatus::NotFound, None, hostname, id)),
        },
    }
}

/// The sources found among candidates, in order, each probed candidate with
/// its own id.
pub open spec fn found_sources(
    cs: Seq<CandidateModel>,
    probes: Seq<Probe>,
    ids: Seq<Seq<char>>,
    hostname: Seq<char>,
) -> Seq<DiscoveredModel>
    decreases cs.len(),
{
    if cs.len() == 0 {
        Seq::<DiscoveredModel>::empty()
    } else {
        let rest = found_sources(cs.drop_last(), probes, ids, hostname);
        let k = cs.len() - 1;
        match resolved(cs.last(), probes[k], hostname, ids[k]) {
            Some(d) => rest.push(d),
            None => rest,
        }
    }
}

fn copy_pairs(v: &Vec<(String, String)>) -> (r: Vec<(String, String)>)
    ensures
        pairs_view(r@) == pairs_view(v@),
{
    let mut out: Vec<(String, String)> = Vec::new();
    let mut i: usize = 0;
    while i < v.len()
        invariant
            i <= v@.len(),
            pairs_view(out@) == pairs_view(v@).take(i as int),
        decreases v@.len() - i,
    {
        let ghost before = pairs_view(out@);
        let p = (v[i].0.clone(), v[i].1.clone());
        out.push(p);
        assert(pairs_view(out@) =~= before.push(pairs_view(v@)[i as int]));
        i = i + 1;
        assert(pairs_view(v@).take(i as int) =~= pairs_view(v@).take(i - 1).push(pairs_view(v@)[i - 1]));
    }
    assert(pairs_view(v@).take(v@.len() as int) =~= pairs_view(v@));
    out
}

fn copy_source_type(t: &SourceType) -> (r: SourceType)
    ensures
        r@ == t@,
{
    match t {
        SourceType::FileWatcher { path, pattern } => SourceType::FileWatcher {
            path: path.clone(),
            pattern: copy_opt(pattern),
        },
        SourceType::Journald { unit_filter } => SourceType::Journald { unit_filter: copy_opt(unit_filter) },
        SourceType::MacOsUnifiedLog { predicate } => SourceType::MacOsUnifiedLog {
            predicate: copy_opt(predicate),
        },
        SourceType::WindowsEventLog { channel, query } => SourceType::WindowsEventLog {
            channel: channel.clone(),
            query: copy_opt(query),
        },
        SourceType::NetworkSyslog { port, protocol } => SourceType::NetworkSyslog {
            port: *port,
            protocol: protocol.clone(),
        },
        SourceType::Kafka { topic, brokers } => SourceType::Kafka {
            topic: topic.clone(),
            brokers: crate::lan::clone_strings(brokers),
        },
    }
}

fn found_exec(
    c: &Candidate,
    status: PermissionStatus,
    help: Option<String>,
    hostname: &str,
    id: &str,
) -> (r: DiscoveredSource)
    ensures
        r@ == found(c@, status, opt_view(help), hostname@, id@),
{
    DiscoveredSource {
        id: owned(id),
        name: c.name.clone(),
        category: c.category.clone(),
        source_type: copy_source_type(&c.source_type),
        target_path: c.target_path.clone(),
        hostname: owned(hostname),
        os: c.os.clone(),
        status,
        is_critical_security: c.is_critical_security,
        permission_help: help,
        config: copy_pairs(&c.config),
    }
}

/// What a candidate becomes once probed (see `resolved`).
pub fn resolve_candidate(c: &Candidate, probe: &Probe, hostname: &str, id: &str) -> (r: Option<DiscoveredSource>)
    ensures
        match r {
            Some(d) => resolved(c@, *probe, hostname@, id@) == Some(d@),
            None => resolved(c@, *probe, hostname@, id@) is None,
        },
{
    match c.check {
        Check::Fixed => Some(found_exec(c, c.status, copy_opt(&c.help), hostname, id)),
        Check::Journal => match probe {
            Probe::Missing => None,
            _ => Some(found_exec(c, PermissionStatus::Accessible, None, hostname, id)),
        },
        Check::File => match probe {
            Probe::Missing => None,
            Probe::Readable => Some(found_exec(c, PermissionStatus::Accessible, None, hostname, id)),
            Probe::PermissionDenied => {
                let help = concat2(c.denied_help.as_str(), c.target_path.as_str());
                Some(found_exec(c, PermissionStatus::PermissionDenied, Some(help), hostname, id))
            },
            Probe::Unreadable { .. } => Some(
                found_exec(c, PermissionStatus::NotFound, None, hostname, id),
            ),
        },
    }
}

/// The views of a list of found sources.
pub open spec fn discovered_views(v: Seq<DiscoveredSource>) -> Seq<DiscoveredModel> {
    v.map_values(|d: DiscoveredSource| d@)
}

/// The sources found on the system named `os`, in order: each candidate of
/// `discovery_candidates(os)` resolved with the probe and the id at its
/// position, those found kept.
pub fn discover_local_sources(os: &str, hostname: &str, probes: &[Probe], ids: &[String]) -> (r: Vec<DiscoveredSource>)
    requires
        probes@.len() == candidate_count(os_family(os@)),
        ids@.len() == candidate_count(os_family(os@)),
    ensures
        discovered_views(r@) == found_sources(
            Seq::new(
                candidate_count(os_family(os@)) as nat,
                |k: int| candidate(os_family(os@), k),
            ),
            probes@,
            views(ids@),
            hostname@,
        ),
{
    let cands = discovery_candidates(os);
    let ghost cs = Seq::new(
        candidate_count(os_family(os@)) as nat,
        |k: int| candidate(os_family(os@), k),
    );
    assert(candidate_views(cands@) =~= cs);
    let mut out: Vec<DiscoveredSource> = Vec::new();
    let mut k: usize = 0;
    while k < cands.len()
        invariant
            k <= cands@.len(),
            cands@.len() == probes@.len(),
            cands@.len() == ids@.len(),
            candidate_views(cands@) == cs,
            discovered_views(out@) == found_sources(cs.take(k as int), probes@, views(ids@), hostname@),
        decreases cands@.len() - k,
    {
        assert(cs.take(k + 1).drop_last() =~= cs.take(k as int));
        assert(cs.take(k + 1).last() == cands@[k as int]@);
        let ghost before = discovered_views(out@);
        match resolve_candidate(&cands[k], &probes[k], hostname, ids[k].as_str()) {
            Some(d) => {
                out.push(d);
                assert(discovered_views(out@) =~= before.push(d@));
            },
            None => {},
        }
        k = k + 1;
    }
    assert(cs.take(cands@.len() as int) =~= cs);
    out
}

// ──────────────────────────── permission report ────────────────────────────

/// The answer to a request about one path.
pub struct PermissionReport {
    /// "not_found", "accessible", "permission_denied" or "error".
    pub status: String,
    pub readable: bool,
    pub message: String,
}

/// What a refused path's report says on each system.
pub open spec fn denied_message(os: Seq<char>, path: Seq<char>) -> Seq<char> {
    if os == "macos"@ || os == "darwin"@ {
        "Accès refusé par macOS. Accordez l'Accès complet au disque dans 'Réglages Système > Confidentialité et sécurité > Accès complet au disque' ou lancez dans le Terminal : sudo chmod +r "@
            + path
    } else if os == "linux"@ {
        "Accès refusé sous Linux. Ajoutez votre compte aux groupes d'audit : 'sudo usermod -aG adm,systemd-journal $USER' ou lancez : sudo chmod +r "@
            + path
    } else if os == "windows"@ {
        "Accès refusé sous Windows. Lancez l'application en mode Administrateur ('Exécuter en tant qu'administrateur')."@
    } else {
        "Permissions insuffisantes pour lire ce fichier."@
    }
}

/// The report on a path, by what probing it revealed: status, whether it is
/// readable, and the message.
pub open spec fn permission_report_of(p: Probe, os: Seq<char>, path: Seq<char>) -> (Seq<char>, bool, Seq<char>) {
    match p {
        Probe::Missing => (
            "not_found"@,
            false,
            "Le fichier spécifié n'existe pas sur le système."@,
        ),
        Probe::Readable => ("accessible"@, true, "Fichier accessible en lecture."@),
        Probe::PermissionDenied => ("permission_denied"@, false, denied_message(os, path)),
        Probe::Unreadable { error } => ("error"@, false, "Erreur d'accès : "@ + error@),
    }
}

/// The report on `path` on the system named `os`, by what probing it revealed.
pub fn permission_report(probe: &Probe, os: &str, path: &str) -> (r: PermissionReport)
    ensures
        (r.status@, r.readable, r.message@) == permission_report_of(*probe, os@, path@),
{
    match probe {
        Probe::Missing => PermissionReport {
            status: owned("not_found"),
            readable: false,
            message: owned("Le fichier spécifié n'existe pas sur le système."),
        },
        Probe::Readable => PermissionReport {
            status: owned("accessible"),
            readable: true,
            message: owned("Fichier accessible en lecture."),
        },
        Probe::PermissionDenied => {
            let message = if str_eq(os, "macos") || str_eq(os, "darwin") {
                concat2(
                    "Accès refusé par macOS. Accordez l'Accès complet au disque dans 'Réglages Système > Confidentialité et sécurité > Accès complet au disque' ou lancez dans le Terminal : sudo chmod +r ",
                    path,
                )
            } else if str_eq(os, "linux") {
                concat2(
                    "Accès refusé sous Linux. Ajoutez votre compte aux groupes d'audit : 'sudo usermod -aG adm,systemd-journal $USER' ou lancez : sudo chmod +r ",
                    path,
                )
            } else if str_eq(os, "windows") {
                owned(
                    "Accès refusé sous Windows. Lancez l'application en mode Administrateur ('Exécuter en tant qu'administrateur').",
                )
            } else {
                owned("Permissions insuffisantes pour lire ce fichier.")
            };
            PermissionReport { status: owned("permission_denied"), readable: false, message }
        },
        Probe::Unreadable { error } => PermissionReport {
            status: owned("error"),
            readable: false,
            message: concat2("Erreur d'accès : ", error.as_str()),
        },
    }
}

// ──────────────────────────────── elevation ────────────────────────────────

/// How the application is started again with administrator rights, as
/// program and arguments: through PowerShell's `Start-Process -Verb RunAs` on
/// Windows (single quotes in the path doubled), through `osascript` on macOS,
/// through `pkexec` elsewhere.
pub open spec fn elevation_of(os: Seq<char>, exe: Seq<char>) -> (Seq<char>, Seq<Seq<char>>) {
    if os == "windows"@ {
        (
            "powershell"@,
            seq![
                "-NoProfile"@,
                "-NonInteractive"@,
                "-Command"@,
                "Start-Process -FilePath '"@ + replace_char(exe, '\'', "''"@) + "' -Verb RunAs"@,
            ],
        )
    } else if os == "macos"@ || os == "darwin"@ {
        (
            "osascript"@,
            seq!["-e"@, "do shell script \"open '"@ + exe + "'\" with administrator privileges"@],
        )
    } else {
        ("pkexec"@, seq![exe])
    }
}

/// How the application at `exe_path` is started again with administrator
/// rights on the system named `os`.
pub fn elevation_command(os: &str, exe_path: &str) -> (r: (String, Vec<String>))
    ensures
        (r.0@, views(r.1@)) == elevation_of(os@, exe_path@),
{
    let mut args: Vec<String> = Vec::new();
    if str_eq(os, "windows") {
        let ec = to_chars(exe_path);
        let q = to_chars("''");
        let doubled = replace_char_chars(ec.as_slice(), '\'', q.as_slice());
        let ds = crate::text::from_chars(doubled.as_slice());
        let a = concat2("Start-Process -FilePath '", ds.as_str());
        args.push(owned("-NoProfile"));
        args.push(owned("-NonInteractive"));
        args.push(owned("-Command"));
        args.push(concat2(a.as_str(), "' -Verb RunAs"));
        assert(views(args@) =~= elevation_of(os@, exe_path@).1);
        (owned("powershell"), args)
    } else if str_eq(os, "macos") || str_eq(os, "darwin") {
        let a = concat2("do shell script \"open '", exe_path);
        args.push(owned("-e"));
        args.push(concat2(a.as_str(), "'\" with administrator privileges"));
        assert(views(args@) =~= elevation_of(os@, exe_path@).1);
        (owned("osascript"), args)
    } else {
        args.push(owned(exe_path));
        assert(views(args@) =~= elevation_of(os@, exe_path@).1);
        (owned("pkexec"), args)
    }
}

// ───────────────────────────── demonstration ─────────────────────────────

/// The number of demonstration lines.
pub const DEMO_LINE_COUNT: usize = 12;

/// The demonstration lines: host name and line, covering a data leak, a brute
/// force, a privilege escalation, a crash and normal traffic.
pub open spec fn demo_line(k: int) -> (Seq<char>, Seq<char>) {
    if k == 0 {
        ("srv-db-01"@, "2026-08-03T10:00:00Z [EXFILTRATION] User cyrus exported 50000 customer records to s3://external-backup-leak/dump.csv"@)
    } else if k == 1 {
        ("srv-db-01"@, "2026-08-03T10:01:00Z [DATA_LEAK] Transferring sensitive dataset credit_cards.db (1.2GB) via curl to 185.220.101.5"@)
    } else if k == 2 {
        ("fw-core-01"@, "2026-08-03T10:02:10Z sshd[4412]: Failed password for invalid user admin from 192.168.1.105 port 51234 ssh2"@)
    } else if k == 3 {
        ("fw-core-01"@, "2026-08-03T10:02:12Z sshd[4415]: Failed password for invalid user root from 192.168.1.105 port 51236 ssh2"@)
    } else if k == 4 {
        ("fw-core-01"@, "2026-08-03T10:02:15Z sshd[4420]: Failed password for invalid user user1 from 192.168.1.105 port 51240 ssh2"@)
    } else if k == 5 {
        ("fw-core-01"@, "2026-08-03T10:02:18Z sshd[4425]: PAM authentication failure for user root from 192.168.1.105"@)
    } else if k == 6 {
        ("srv-app-02"@, "2026-08-03T10:05:00Z sudo: cyrus : TTY=pts/1 ; PWD=/home/cyrus ; USER=root ; COMMAND=/bin/chmod 777 /etc/shadow"@)
    } else if k == 7 {
        ("srv-app-02"@, "2026-08-03T10:05:30Z sudo: cyrus : TTY=pts/1 ; PWD=/home/cyrus ; USER=root ; COMMAND=/bin/bash"@)
    } else if k == 8 {
        ("srv-web-01"@, "2026-08-03T10:10:00Z kernel: Out of Memory: Kill process 12498 (nginx) score 920 or sacrifice child"@)
    } else if k == 9 {
        ("srv-web-01"@, "2026-08-03T10:10:05Z systemd[1]: nginx.service: Main process exited, code=exited, status=500/INTERNAL_ERROR"@)
    } else if k == 10 {
        ("srv-web-01"@, "2026-08-03T10:12:00Z 192.168.1.20 - - [03/Aug/2026:10:12:00 +0000] \"GET /dashboard HTTP/1.1\" 200 4523"@)
    } else {
        ("srv-web-01"@, "2026-08-03T10:12:05Z 192.168.1.25 - - [03/Aug/2026:10:12:05 +0000] \"GET /api/v1/health HTTP/1.1\" 200 120"@)
    }
}

fn demo_line_exec(k: usize) -> (r: (&'static str, &'static str))
    requires
        k < DEMO_LINE_COUNT,
    ensures
        (r.0@, r.1@) == demo_line(k as int),
{
    if k == 0 {
        ("srv-db-01", "2026-08-03T10:00:00Z [EXFILTRATION] User cyrus exported 50000 customer records to s3://external-backup-leak/dump.csv")
    } else if k == 1 {
        ("srv-db-01", "2026-08-03T10:01:00Z [DATA_LEAK] Transferring sensitive dataset credit_cards.db (1.2GB) via curl to 185.220.101.5")
    } else if k == 2 {
        ("fw-core-01", "2026-08-03T10:02:10Z sshd[4412]: Failed password for invalid user admin from 192.168.1.105 port 51234 ssh2")
    } else if k == 3 {
        ("fw-core-01", "2026-08-03T10:02:12Z sshd[4415]: Failed password for invalid user root from 192.168.1.105 port 51236 ssh2")
    } else if k == 4 {
        ("fw-core-01", "2026-08-03T10:02:15Z sshd[4420]: Failed password for invalid user user1 from 192.168.1.105 port 51240 ssh2")
    } else if k == 5 {
        ("fw-core-01", "2026-08-03T10:02:18Z sshd[4425]: PAM authentication failure for user root from 192.168.1.105")
    } else if k == 6 {
        ("srv-app-02", "2026-08-03T10:05:00Z sudo: cyrus : TTY=pts/1 ; PWD=/home/cyrus ; USER=root ; COMMAND=/bin/chmod 777 /etc/shadow")
    } else if k == 7 {
        ("srv-app-02", "2026-08-03T10:05:30Z sudo: cyrus : TTY=pts/1 ; PWD=/home/cyrus ; USER=root ; COMMAND=/bin/bash")
    } else if k == 8 {
        ("srv-web-01", "2026-08-03T10:10:00Z kernel: Out of Memory: Kill process 12498 (nginx) score 920 or sacrifice child")
    } else if k == 9 {
        ("srv-web-01", "2026-08-03T10:10:05Z systemd[1]: nginx.service: Main process exited, code=exited, status=500/INTERNAL_ERROR")
    } else if k == 10 {
        ("srv-web-01", "2026-08-03T10:12:00Z 192.168.1.20 - - [03/Aug/2026:10:12:00 +0000] \"GET /dashboard HTTP/1.1\" 200 4523")
    } else {
        ("srv-web-01", "2026-08-03T10:12:05Z 192.168.1.25 - - [03/Aug/2026:10:12:05 +0000] \"GET /api/v1/health HTTP/1.1\" 200 120")
    }
}

/// The source under which a demonstration host's lines are stored.
pub open spec fn demo_source_id(host: Seq<char>) -> Seq<char> {
    "demo_source_"@ + host
}

/// The hosts of a list in order of first appearance.
pub open spec fn first_occurrences(hosts: Seq<Seq<char>>) -> Seq<Seq<char>>
    decreases hosts.len(),
{
    if hosts.len() == 0 {
        Seq::<Seq<char>>::empty()
    } else {
        let before = first_occurrences(hosts.drop_last());
        if before.contains(hosts.last()) {
            before
        } else {
            before.push(hosts.last())
        }
    }
}

/// The hosts of the demonstration lines, line by line.
pub open spec fn demo_hosts() -> Seq<Seq<char>> {
    Seq::new(DEMO_LINE_COUNT as nat, |k: int| demo_line(k).0)
}

/// `s` is the demonstration source of `host`, created at `now`.
pub open spec fn is_demo_source(s: LogSource, host: Seq<char>, now: Timestamp) -> bool {
    &&& s.hostname@ == host
    &&& s.id@ == demo_source_id(host)
    &&& s.name@ == "Source Démo ("@ + host + ")"@
    &&& s.source_type@ == (SourceTypeModel::FileWatcher {
        path: "/var/log/demo.log"@,
        pattern: Some("*.log"@),
    })
    &&& s.os@ == "demo"@
    &&& s.enabled
    &&& s.priority@ == "normal"@
    &&& s.config@ == "{}"@
    &&& s.created_at == now
    &&& s.updated_at == now
}

/// The demonstration source of a host.
pub fn demo_source(host: &str, now: Timestamp) -> (r: LogSource)
    ensures
        is_demo_source(r, host@, now),
{
    let name_start = concat2("Source Démo (", host);
    let name = concat2(name_start.as_str(), ")");
    new_log_source(
        concat2("demo_source_", host),
        name,
        SourceType::FileWatcher { path: owned("/var/log/demo.log"), pattern: Some(owned("*.log")) },
        owned(host),
        owned("demo"),
        owned("{}"),
        now,
    )
}

fn holds_host(v: &Vec<String>, h: &str) -> (r: bool)
    ensures
        r == views(v@).contains(h@),
{
    let mut i: usize = 0;
    while i < v.len()
        invariant
            i <= v@.len(),
            forall|k: int| 0 <= k < i ==> views(v@)[k] != h@,
        decreases v@.len() - i,
    {
        if str_eq(v[i].as_str(), h) {
            assert(views(v@)[i as int] == h@);
            return true;
        }
        i = i + 1;
    }
    false
}

/// The demonstration data: a source for each host, in order of first
/// appearance, and each line with its host's source, its host and `now`.
pub fn demo_batch(now: Timestamp) -> (r: (Vec<LogSource>, Vec<(String, String, String, Timestamp)>))
    ensures
        r.0@.len() == first_occurrences(demo_hosts()).len(),
        forall|i: int|
            0 <= i < r.0@.len() ==> is_demo_source(
                #[trigger] r.0@[i],
                first_occurrences(demo_hosts())[i],
                now,
            ),
        r.1@.len() == DEMO_LINE_COUNT,
        forall|k: int|
            0 <= k < DEMO_LINE_COUNT ==> {
                &&& (#[trigger] r.1@[k]).0@ == demo_source_id(demo_line(k).0)
                &&& r.1@[k].1@ == demo_line(k).0
                &&& r.1@[k].2@ == demo_line(k).1
                &&& r.1@[k].3 == now
            },
{
    let mut sources: Vec<LogSource> = Vec::new();
    let mut hosts: Vec<String> = Vec::new();
    let mut batch: Vec<(String, String, String, Timestamp)> = Vec::new();
    let ghost all = demo_hosts();
    let mut k: usize = 0;
    while k < DEMO_LINE_COUNT
        invariant
            k <= DEMO_LINE_COUNT,
            all == demo_hosts(),
            views(hosts@) == first_occurrences(all.take(k as int)),
            sources@.len() == hosts@.len(),
            forall|i: int|
                0 <= i < sources@.len() ==> is_demo_source(#[trigger] sources@[i], hosts@[i]@, now),
            batch@.len() == k,
            forall|j: int|
                0 <= j < k ==> {
                    &&& (#[trigger] batch@[j]).0@ == demo_source_id(demo_line(j).0)
                    &&& batch@[j].1@ == demo_line(j).0
                    &&& batch@[j].2@ == demo_line(j).1
                    &&& batch@[j].3 == now
                },
        decreases DEMO_LINE_COUNT - k,
    {
        let (host, line) = demo_line_exec(k);
        assert(all.take(k + 1).drop_last() =~= all.take(k as int));
        assert(all.take(k + 1).last() == host@);
        let ghost before = views(hosts@);
        let ghost old_sources = sources@;
        let ghost old_hosts = hosts@;
        if !holds_host(&hosts, host) {
            let src = demo_source(host, now);
            sources.push(src);
            hosts.push(owned(host));
            assert(views(hosts@) =~= before.push(host@));
            assert forall|i: int| 0 <= i < old_sources.len() implies sources@[i] == old_sources[i] && hosts@[i] == old_hosts[i] by {}
        }
        batch.push((concat2("demo_source_", host), owned(host), owned(line), now));
        k = k + 1;
    }
    assert(all.take(DEMO_LINE_COUNT as int) =~= all);
    assert forall|i: int| 0 <= i < hosts@.len() implies hosts@[i]@ == first_occurrences(demo_hosts())[i] by {
        assert(views(hosts@)[i] == hosts@[i]@);
    }
    (sources, batch)
}

// ────────────────────────────────── laws ──────────────────────────────────

/// The Windows event channels are always offered, all five, whatever the
/// probes say.
pub proof fn law_windows_channels_always_offered(probes: Seq<Probe>, ids: Seq<Seq<char>>, hostname: Seq<char>)
    requires
        probes.len() == 5,
        ids.len() == 5,
    ensures
        found_sources(Seq::new(5, |k: int| candidate(2, k)), probes, ids, hostname).len() == 5,
{
    let cs = Seq::new(5, |k: int| candidate(2, k));
    assert forall|n: int| 0 <= n <= 5 implies #[trigger] found_sources(cs.take(n), probes, ids, hostname).len() == n by {
        lemma_fixed_all_found(cs, probes, ids, hostname, n);
    }
    assert(cs.take(5) =~= cs);
}

proof fn lemma_fixed_all_found(cs: Seq<CandidateModel>, probes: Seq<Probe>, ids: Seq<Seq<char>>, hostname: Seq<char>, n: int)
    requires
        0 <= n <= cs.len(),
        forall|k: int| 0 <= k < cs.len() ==> (#[trigger] cs[k]).check == Check::Fixed,
    ensures
        found_sources(cs.take(n), probes, ids, hostname).len() == n,
    decreases n,
{
    if n > 0 {
        lemma_fixed_all_found(cs, probes, ids, hostname, n - 1);
        assert(cs.take(n).drop_last() =~= cs.take(n - 1));
        assert(cs.take(n).last() == cs[n - 1]);
    }
}

/// A candidate that probing finds missing is never offered, unless it is one
/// that is always offered.
pub proof fn law_missing_not_offered(c: CandidateModel, hostname: Seq<char>, id: Seq<char>)
    requires
        c.check != Check::Fixed,
    ensures
        resolved(c, Probe::Missing, hostname, id) is None,
{
}

/// A log file that opens is offered as accessible with no help; one whose
/// opening is refused is offered as refused, with help that ends with its path.
pub proof fn law_file_status_follows_probe(c: CandidateModel, hostname: Seq<char>, id: Seq<char>)
    requires
        c.check == Check::File,
    ensures
        resolved(c, Probe::Readable, hostname, id) matches Some(d) && (d.status
            == PermissionStatus::Accessible && d.permission_help is None),
        resolved(c, Probe::PermissionDenied, hostname, id) matches Some(d) && (d.status
            == PermissionStatus::PermissionDenied && crate::text::ends_with(
            d.permission_help.unwrap(),
            c.target_path,
        ) && d.permission_help is Some),
{
    let h = c.denied_help + c.target_path;
    assert(h.skip(h.len() - c.target_path.len()) =~= c.target_path);
    assert(crate::text::ends_with(h, c.target_path));
}

} // verus!
