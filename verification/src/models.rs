//! The data model of the detection platform: alert categories and levels,
//! sources, rules, alerts and the settings that the engine reads.
//!
//! Scores are fixed-point integers: a component score is in basis points
//! (1 = 0.0001, 10 000 = 1.0) and a composite score in parts per million
//! (1 = 0.000 001, 1 000 000 = 1.0).
use vstd::prelude::*;
use crate::text::{opt_view, owned, str_eq, views};

verus! {

/// A point in time: seconds and nanoseconds since the Unix epoch (UTC).
#[derive(Clone, Copy, Debug, PartialEq, Eq, Structural)]
pub struct Timestamp {
    pub secs: i64,
    pub nanos: u32,
}

/// Category of threat of an alert.
#[derive(Clone, Copy, Debug, PartialEq, Eq, Structural)]
pub enum AlertCategory {
    DataLeak,
    Authentication,
    SystemAnomaly,
    PrivilegeEscalation,
    General,
}

/// The name under which a category is displayed and stored.
pub open spec fn category_name(c: AlertCategory) -> Seq<char> {
    match c {
        AlertCategory::DataLeak => "data_leak"@,
        AlertCategory::Authentication => "authentication"@,
        AlertCategory::SystemAnomaly => "system_anomaly"@,
        AlertCategory::PrivilegeEscalation => "privilege_escalation"@,
        AlertCategory::General => "general"@,
    }
}

impl AlertCategory {
    /// The name under which the category is displayed and stored.
    pub fn as_str(&self) -> (r: &'static str)
        ensures
            r@ == category_name(*self),
    {
        match self {
            AlertCategory::DataLeak => "data_leak",
            AlertCategory::Authentication => "authentication",
            AlertCategory::SystemAnomaly => "system_anomaly",
            AlertCategory::PrivilegeEscalation => "privilege_escalation",
            AlertCategory::General => "general",
        }
    }

    /// The name of the variant itself (`Debug`), as handed to response scripts.
    pub fn variant_name(&self) -> (r: &'static str)
        ensures
            r@ == category_variant_name(*self),
    {
        match self {
            AlertCategory::DataLeak => "DataLeak",
            AlertCategory::Authentication => "Authentication",
            AlertCategory::SystemAnomaly => "SystemAnomaly",
            AlertCategory::PrivilegeEscalation => "PrivilegeEscalation",
            AlertCategory::General => "General",
        }
    }
}

/// The name of a category's variant.
pub open spec fn category_variant_name(c: AlertCategory) -> Seq<char> {
    match c {
        AlertCategory::DataLeak => "DataLeak"@,
        AlertCategory::Authentication => "Authentication"@,
        AlertCategory::SystemAnomaly => "SystemAnomaly"@,
        AlertCategory::PrivilegeEscalation => "PrivilegeEscalation"@,
        AlertCategory::General => "General"@,
    }
}

/// Severity of an alert.
#[derive(Clone, Copy, Debug, PartialEq, Eq, Structural)]
pub enum AlertLevel {
    Benign,
    Low,
    Moderate,
    High,
}

/// The name under which a level is displayed and stored.
pub open spec fn level_name(l: AlertLevel) -> Seq<char> {
    match l {
        AlertLevel::Benign => "benign"@,
        AlertLevel::Low => "low"@,
        AlertLevel::Moderate => "moderate"@,
        AlertLevel::High => "high"@,
    }
}

/// The rank of a level: benign < low < moderate < high.
pub open spec fn level_rank(l: AlertLevel) -> int {
    match l {
        AlertLevel::Benign => 0,
        AlertLevel::Low => 1,
        AlertLevel::Moderate => 2,
        AlertLevel::High => 3,
    }
}

impl AlertLevel {
    /// The name under which the level is displayed and stored.
    pub fn as_str(&self) -> (r: &'static str)
        ensures
            r@ == level_name(*self),
    {
        match self {
            AlertLevel::Benign => "benign",
            AlertLevel::Low => "low",
            AlertLevel::Moderate => "moderate",
            AlertLevel::High => "high",
        }
    }
}

/// The level stored under a name; an unknown name reads as benign.
pub open spec fn spec_parse_alert_level(s: Seq<char>) -> AlertLevel {
    if s == "high"@ {
        AlertLevel::High
    } else if s == "moderate"@ {
        AlertLevel::Moderate
    } else if s == "low"@ {
        AlertLevel::Low
    } else {
        AlertLevel::Benign
    }
}

/// Reads a stored level name; an unknown name reads as benign.
pub fn parse_alert_level(s: &str) -> (r: AlertLevel)
    ensures
        r == spec_parse_alert_level(s@),
{
    if str_eq(s, "high") {
        AlertLevel::High
    } else if str_eq(s, "moderate") {
        AlertLevel::Moderate
    } else if str_eq(s, "low") {
        AlertLevel::Low
    } else {
        AlertLevel::Benign
    }
}

/// The severity a user asked for; an unknown name means low.
pub open spec fn spec_to_severity(s: Seq<char>) -> AlertLevel {
    if s == "high"@ {
        AlertLevel::High
    } else if s == "moderate"@ {
        AlertLevel::Moderate
    } else {
        AlertLevel::Low
    }
}

/// Reads the severity of a rule given by a user; an unknown name means low.
pub fn to_severity(s: &str) -> (r: AlertLevel)
    ensures
        r == spec_to_severity(s@),
{
    if str_eq(s, "high") {
        AlertLevel::High
    } else if str_eq(s, "moderate") {
        AlertLevel::Moderate
    } else if str_eq(s, "low") {
        AlertLevel::Low
    } else {
        AlertLevel::Low
    }
}

/// The category stored under a name; an unknown name reads as general.
pub open spec fn spec_parse_alert_category(s: Seq<char>) -> AlertCategory {
    if s == "data_leak"@ {
        AlertCategory::DataLeak
    } else if s == "authentication"@ {
        AlertCategory::Authentication
    } else if s == "system_anomaly"@ {
        AlertCategory::SystemAnomaly
    } else if s == "privilege_escalation"@ {
        AlertCategory::PrivilegeEscalation
    } else {
        AlertCategory::General
    }
}

/// Reads a stored category name; an unknown name reads as general.
pub fn parse_alert_category(s: &str) -> (r: AlertCategory)
    ensures
        r == spec_parse_alert_category(s@),
{
    if str_eq(s, "data_leak") {
        AlertCategory::DataLeak
    } else if str_eq(s, "authentication") {
        AlertCategory::Authentication
    } else if str_eq(s, "system_anomaly") {
        AlertCategory::SystemAnomaly
    } else if str_eq(s, "privilege_escalation") {
        AlertCategory::PrivilegeEscalation
    } else {
        AlertCategory::General
    }
}

/// Storing a level by its name and reading it back gives the level again.
pub proof fn law_level_name_roundtrip(l: AlertLevel)
    ensures
        spec_parse_alert_level(level_name(l)) == l,
{
    reveal_strlit("high");
    reveal_strlit("moderate");
    reveal_strlit("low");
    reveal_strlit("benign");
    assert("high"@.len() == 4);
    assert("moderate"@.len() == 8);
    assert("low"@.len() == 3);
    assert("benign"@.len() == 6);
}

/// Storing a category by its name and reading it back gives the category again.
pub proof fn law_category_name_roundtrip(c: AlertCategory)
    ensures
        spec_parse_alert_category(category_name(c)) == c,
{
    reveal_strlit("data_leak");
    reveal_strlit("authentication");
    reveal_strlit("system_anomaly");
    reveal_strlit("privilege_escalation");
    reveal_strlit("general");
    assert("data_leak"@.len() == 9);
    assert("authentication"@.len() == 14);
    assert("system_anomaly"@.len() == 14);
    assert("privilege_escalation"@.len() == 20);
    assert("general"@.len() == 7);
    assert("authentication"@[0] != "system_anomaly"@[0]);
}

/// A severity given by a user by the name of a level other than benign is
/// that level.
pub proof fn law_severity_name_roundtrip(l: AlertLevel)
    requires
        l != AlertLevel::Benign,
    ensures
        spec_to_severity(level_name(l)) == l,
{
    reveal_strlit("high");
    reveal_strlit("moderate");
    reveal_strlit("low");
    assert("high"@.len() == 4);
    assert("moderate"@.len() == 8);
    assert("low"@.len() == 3);
}

/// Kind of a detection rule.
#[derive(Clone, Copy, Debug, PartialEq, Eq, Structural)]
pub enum RuleType {
    Keyword,
    IpBlacklist,
    UserBlacklist,
    TimeWindow,
    Regex,
    TemplateMatch,
}

/// The name under which a rule kind is stored.
pub open spec fn rule_type_name(t: RuleType) -> Seq<char> {
    match t {
        RuleType::Keyword => "keyword"@,
        RuleType::IpBlacklist => "ip_blacklist"@,
        RuleType::UserBlacklist => "user_blacklist"@,
        RuleType::TimeWindow => "time_window"@,
        RuleType::Regex => "regex"@,
        RuleType::TemplateMatch => "template_match"@,
    }
}

/// The rule kind stored under a name; an unknown name means keyword.
pub open spec fn spec_rule_type_from_str(s: Seq<char>) -> RuleType {
    if s == "keyword"@ {
        RuleType::Keyword
    } else if s == "ip_blacklist"@ {
        RuleType::IpBlacklist
    } else if s == "user_blacklist"@ {
        RuleType::UserBlacklist
    } else if s == "time_window"@ {
        RuleType::TimeWindow
    } else if s == "regex"@ {
        RuleType::Regex
    } else if s == "template_match"@ {
        RuleType::TemplateMatch
    } else {
        RuleType::Keyword
    }
}

impl RuleType {
    /// The name under which the rule kind is stored.
    pub fn as_str(&self) -> (r: &'static str)
        ensures
            r@ == rule_type_name(*self),
    {
        match self {
            RuleType::Keyword => "keyword",
            RuleType::IpBlacklist => "ip_blacklist",
            RuleType::UserBlacklist => "user_blacklist",
            RuleType::TimeWindow => "time_window",
            RuleType::Regex => "regex",
            RuleType::TemplateMatch => "template_match",
        }
    }
}

/// Reads a rule kind by its name; an unknown name means keyword.
pub fn rule_type_from_str(s: &str) -> (r: RuleType)
    ensures
        r == spec_rule_type_from_str(s@),
{
    if str_eq(s, "keyword") {
        RuleType::Keyword
    } else if str_eq(s, "ip_blacklist") {
        RuleType::IpBlacklist
    } else if str_eq(s, "user_blacklist") {
        RuleType::UserBlacklist
    } else if str_eq(s, "time_window") {
        RuleType::TimeWindow
    } else if str_eq(s, "regex") {
        RuleType::Regex
    } else if str_eq(s, "template_match") {
        RuleType::TemplateMatch
    } else {
        RuleType::Keyword
    }
}

/// Storing a rule kind by its name and reading it back gives the kind again.
pub proof fn law_rule_type_name_roundtrip(t: RuleType)
    ensures
        spec_rule_type_from_str(rule_type_name(t)) == t,
{
    reveal_strlit("keyword");
    reveal_strlit("ip_blacklist");
    reveal_strlit("user_blacklist");
    reveal_strlit("time_window");
    reveal_strlit("regex");
    reveal_strlit("template_match");
    assert("keyword"@.len() == 7);
    assert("ip_blacklist"@.len() == 12);
    assert("user_blacklist"@.len() == 14);
    assert("time_window"@.len() == 11);
    assert("regex"@.len() == 5);
    assert("template_match"@.len() == 14);
    assert("user_blacklist"@[0] != "template_match"@[0]);
}

/// Where the log lines of a source come from.
#[derive(Clone, Debug)]
pub enum SourceType {
    FileWatcher { path: String, pattern: Option<String> },
    Journald { unit_filter: Option<String> },
    MacOsUnifiedLog { predicate: Option<String> },
    WindowsEventLog { channel: String, query: Option<String> },
    NetworkSyslog { port: u16, protocol: String },
    Kafka { topic: String, brokers: Vec<String> },
}

/// The name under which the kind of a source is displayed and stored.
pub open spec fn source_kind_name(t: SourceType) -> Seq<char> {
    match t {
        SourceType::FileWatcher { .. } => "file_watcher"@,
        SourceType::Journald { .. } => "journald"@,
        SourceType::MacOsUnifiedLog { .. } => "macos_unified_log"@,
        SourceType::WindowsEventLog { .. } => "windows_event_log"@,
        SourceType::NetworkSyslog { .. } => "network_syslog"@,
        SourceType::Kafka { .. } => "kafka"@,
    }
}

impl SourceType {
    /// The name under which the kind of the source is displayed and stored.
    pub fn kind_name(&self) -> (r: &'static str)
        ensures
            r@ == source_kind_name(*self),
    {
        match self {
            SourceType::FileWatcher { .. } => "file_watcher",
            SourceType::Journald { .. } => "journald",
            SourceType::MacOsUnifiedLog { .. } => "macos_unified_log",
            SourceType::WindowsEventLog { .. } => "windows_event_log",
            SourceType::NetworkSyslog { .. } => "network_syslog",
            SourceType::Kafka { .. } => "kafka",
        }
    }
}

/// Where the log lines of a source come from, as plain values.
pub enum SourceTypeModel {
    FileWatcher { path: Seq<char>, pattern: Option<Seq<char>> },
    Journald { unit_filter: Option<Seq<char>> },
    MacOsUnifiedLog { predicate: Option<Seq<char>> },
    WindowsEventLog { channel: Seq<char>, query: Option<Seq<char>> },
    NetworkSyslog { port: u16, protocol: Seq<char> },
    Kafka { topic: Seq<char>, brokers: Seq<Seq<char>> },
}

impl View for SourceType {
    type V = SourceTypeModel;

    open spec fn view(&self) -> SourceTypeModel {
        match self {
            SourceType::FileWatcher { path, pattern } => SourceTypeModel::FileWatcher {
                path: path@,
                pattern: opt_view(*pattern),
            },
            SourceType::Journald { unit_filter } => SourceTypeModel::Journald {
                unit_filter: opt_view(*unit_filter),
            },
            SourceType::MacOsUnifiedLog { predicate } => SourceTypeModel::MacOsUnifiedLog {
                predicate: opt_view(*predicate),
            },
            SourceType::WindowsEventLog { channel, query } => SourceTypeModel::WindowsEventLog {
                channel: channel@,
                query: opt_view(*query),
            },
            SourceType::NetworkSyslog { port, protocol } => SourceTypeModel::NetworkSyslog {
                port: *port,
                protocol: protocol@,
            },
            SourceType::Kafka { topic, brokers } => SourceTypeModel::Kafka {
                topic: topic@,
                brokers: views(brokers@),
            },
        }
    }
}

/// A configured log source. `config` is the source's JSON configuration, kept
/// as text.
#[derive(Clone, Debug)]
pub struct LogSource {
    pub id: String,
    pub name: String,
    pub source_type: SourceType,
    pub hostname: String,
    pub os: String,
    pub enabled: bool,
    /// "normal", "high" or "critical".
    pub priority: String,
    pub config: String,
    pub created_at: Timestamp,
    pub updated_at: Timestamp,
}

/// Whether a log source can be read.
#[derive(Clone, Copy, Debug, PartialEq, Eq, Structural)]
pub enum PermissionStatus {
    Accessible,
    PermissionDenied,
    NotFound,
    RequiresElevation,
}

/// A translation learned for a template, as stored.
#[derive(Clone, Debug)]
pub struct TemplateTranslation {
    pub template_hash: String,
    pub template_pattern: String,
    pub french_format: String,
    pub explanation: Option<String>,
    pub recommendation: Option<String>,
    pub status_level: String,
    pub learned_from: String,
    pub created_at: Timestamp,
}

/// A configurable detection rule.
#[derive(Clone, Debug)]
pub struct DetectionRule {
    pub id: String,
    pub name: String,
    pub description: String,
    pub rule_type: RuleType,
    pub pattern: String,
    pub severity: AlertLevel,
    pub enabled: bool,
    pub created_at: Timestamp,
}

/// A raw log entry with its plain-language meaning.
#[derive(Clone, Debug)]
pub struct RawLog {
    pub id: String,
    pub source_id: String,
    pub hostname: String,
    pub raw_message: String,
    pub log_hash: String,
    pub meaning: Option<String>,
    pub explanation: Option<String>,
    pub recommendation: Option<String>,
    pub timestamp: Timestamp,
    pub ingested_at: Timestamp,
}

/// A detection alert. `supervised_score` and `anomaly_score` are in basis
/// points, `final_score` in parts per million.
#[derive(Clone, Debug)]
pub struct Alert {
    pub id: String,
    pub raw_log_id: String,
    pub parsed_log_id: Option<String>,
    pub template: Option<String>,
    pub category: AlertCategory,
    pub supervised_score: Option<u32>,
    pub anomaly_score: Option<u32>,
    pub cluster_id: Option<i32>,
    pub is_outlier: bool,
    pub final_score: u32,
    pub level: AlertLevel,
    pub reasons: Vec<String>,
    pub context_logs: Vec<String>,
    pub llm_explanation: Option<String>,
    pub mitigation_suggestion: Option<String>,
    pub detected_at: Timestamp,
    pub acknowledged: bool,
    pub acknowledged_at: Option<Timestamp>,
}

/// A host that sends logs over the network.
#[derive(Clone, Debug)]
pub struct NetworkNode {
    pub hostname: String,
    pub ip_address: String,
    pub log_count: u64,
    pub last_seen: Timestamp,
    pub os: String,
}

/// How often a template occurs, and in how many alerts.
#[derive(Clone, Debug)]
pub struct TemplateFrequency {
    pub template: String,
    pub count: u64,
    pub alert_count: u64,
}

/// Global statistics of the dashboard.
#[derive(Clone, Debug)]
pub struct DashboardStats {
    pub total_logs: u64,
    pub logs_last_24h: u64,
    pub active_sources: u32,
    pub total_templates: u64,
    pub total_alerts: u64,
    pub high_alerts: u64,
    pub moderate_alerts: u64,
    pub alerts_last_24h: u64,
    pub top_templates: Vec<TemplateFrequency>,
    pub alert_trend: Vec<(String, u64)>,
}

/// Number of logs and alerts of one hour.
#[derive(Clone, Debug)]
pub struct TimeSeriesPoint {
    pub time: String,
    pub logs: u64,
    pub alerts: u64,
}

/// How long logs are kept.
#[derive(Clone, Debug)]
pub struct RetentionSettings {
    pub auto_purge_enabled: bool,
    pub retention_days: u32,
    pub archive_before_purge: bool,
    pub archive_directory: String,
}

impl RetentionSettings {
    /// The default retention: no automatic purge, 30 days, archive first into
    /// "archives".
    pub fn default() -> (r: RetentionSettings)
        ensures
            !r.auto_purge_enabled,
            r.retention_days == 30,
            r.archive_before_purge,
            r.archive_directory@ == "archives"@,
    {
        RetentionSettings {
            auto_purge_enabled: false,
            retention_days: 30,
            archive_before_purge: true,
            archive_directory: owned("archives"),
        }
    }
}

/// What a purge removed.
#[derive(Clone, Debug)]
pub struct PurgeResult {
    pub purged_logs: u64,
    pub purged_alerts: u64,
    pub archive_file: Option<String>,
    pub message: String,
}

/// Settings of the LAN web console: port and the two accounts.
#[derive(Clone, Debug)]
pub struct LanServerSettings {
    pub enabled: bool,
    pub port: u16,
    pub admin_username: String,
    pub admin_access_key: String,
    pub user_username: String,
    pub user_access_key: String,
    pub user_allowed_views: Vec<String>,
}

impl LanServerSettings {
    /// The default console settings: disabled, port 8080, an administrator
    /// "admin_soc" and an analyst "analyste" who sees the dashboard, the logs
    /// and the alerts.
    pub fn default() -> (r: LanServerSettings)
        ensures
            !r.enabled,
            r.port == 8080,
            r.admin_username@ == "admin_soc"@,
            r.admin_access_key@ == "DF7K9QX"@,
            r.user_username@ == "analyste"@,
            r.user_access_key@ == "US4M2P8"@,
            views(r.user_allowed_views@) == seq!["dashboard"@, "logs"@, "alerts"@],
    {
        let mut views_v: Vec<String> = Vec::new();
        views_v.push(owned("dashboard"));
        views_v.push(owned("logs"));
        views_v.push(owned("alerts"));
        let r = LanServerSettings {
            enabled: false,
            port: 8080,
            admin_username: owned("admin_soc"),
            admin_access_key: owned("DF7K9QX"),
            user_username: owned("analyste"),
            user_access_key: owned("US4M2P8"),
            user_allowed_views: views_v,
        };
        assert(views(r.user_allowed_views@) =~= seq!["dashboard"@, "logs"@, "alerts"@]);
        r
    }
}

/// Connection to a Kafka cluster.
#[derive(Clone, Debug)]
pub struct KafkaSettings {
    pub brokers: Vec<String>,
    pub input_topic: String,
    pub output_topic: String,
    pub group_id: String,
    pub sasl_username: Option<String>,
    pub sasl_password: Option<String>,
}

/// Connection to a language-model server.
#[derive(Clone, Debug)]
pub struct LlmSettings {
    pub base_url: String,
    pub api_key: String,
    pub model: String,
    pub enabled: bool,
}

/// The priority given to a log source when none is stored.
pub fn default_priority() -> (r: String)
    ensures
        r@ == "normal"@,
{
    owned("normal")
}

} // verus!
