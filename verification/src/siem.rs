//! Export of alerts to SIEM formats: CEF (ArcSight / Splunk), LEEF (QRadar)
//! and Syslog RFC 5424.
use vstd::prelude::*;
use crate::models::{category_name, level_name, Alert, AlertLevel, Timestamp};
use crate::text::{
    decimal, digit, join, join_strings, lowercase_of, owned, replace_char, replace_char_chars,
    starts_with, str_eq, to_chars, to_lower, to_upper, u64_to_string, uppercase_of, views,
    from_chars,
};

verus! {

/// What `chrono::DateTime::<Utc>::to_rfc3339` gives for the instant `secs`
/// seconds and `nanos` nanoseconds after the epoch (the epoch itself for an
/// instant chrono cannot represent).
pub uninterp spec fn rfc3339_of(secs: i64, nanos: u32) -> Seq<char>;

/// Formats an instant with `chrono::DateTime::<Utc>::from_timestamp` and
/// `DateTime::to_rfc3339`. The contract names the text only. An instant that
/// chrono cannot represent is formatted as the epoch.
#[verifier::external_body]
pub(crate) fn format_rfc3339(ts: Timestamp) -> (r: String)
    ensures
        r@ == rfc3339_of(ts.secs, ts.nanos),
{
    chrono::DateTime::<chrono::Utc>::from_timestamp(ts.secs, ts.nanos).unwrap_or_default().to_rfc3339()
}

/// What `chrono::DateTime::<Utc>::format(pattern)` writes for the instant
/// `secs` seconds and `nanos` nanoseconds after the epoch (the epoch itself
/// for an instant chrono cannot represent).
pub uninterp spec fn utc_format_of(secs: i64, nanos: u32, pattern: Seq<char>) -> Seq<char>;

/// The strftime-like patterns that the library formats instants with; chrono
/// knows every specifier in them (an unknown one would make its formatting
/// fail).
pub open spec fn known_utc_pattern(p: Seq<char>) -> bool {
    p == "%Y-%m-%d %H"@ || p == "%H:00"@ || p == "%Y%m%d_%H%M%S"@ || p == "%Y-%m-%d %H:%M:%S"@
}

/// Formats an instant in UTC with `chrono::DateTime::format` and one of the
/// library's patterns. The contract names the text only. An instant that
/// chrono cannot represent is formatted as the epoch.
#[verifier::external_body]
pub(crate) fn format_utc(ts: Timestamp, pattern: &str) -> (r: String)
    requires
        known_utc_pattern(pattern@),
    ensures
        r@ == utc_format_of(ts.secs, ts.nanos, pattern@),
{
    chrono::DateTime::<chrono::Utc>::from_timestamp(ts.secs, ts.nanos).unwrap_or_default().format(pattern).to_string()
}

/// The severity of a level on the CEF and LEEF scale.
pub open spec fn severity_score(l: AlertLevel) -> nat {
    match l {
        AlertLevel::High => 9,
        AlertLevel::Moderate => 6,
        AlertLevel::Low => 3,
        AlertLevel::Benign => 1,
    }
}

/// The syslog priority of a level.
pub open spec fn syslog_priority(l: AlertLevel) -> nat {
    match l {
        AlertLevel::High => 11,
        AlertLevel::Moderate => 12,
        AlertLevel::Low => 13,
        AlertLevel::Benign => 14,
    }
}

/// A score in parts per million, rounded to two decimals (half up) and
/// written with two digits after the point.
pub open spec fn fixed2(ppm: u32) -> Seq<char> {
    let h = (ppm as nat + 5000) / 10000;
    decimal(h / 100) + "."@ + seq![digit((h % 100) / 10), digit(h % 10)]
}

/// The reasons of an alert, separated by " ; ".
pub open spec fn reasons_text(a: Alert) -> Seq<char> {
    join(views(a.reasons@), " ; "@)
}

/// The name of an alert in CEF: its template, or a generic title.
pub open spec fn cef_name(a: Alert) -> Seq<char> {
    match a.template {
        Some(t) => t@,
        None => "Alerte de Sécurité"@,
    }
}

/// Text with `|` and `=` escaped by a backslash, as CEF extensions need.
pub open spec fn cef_escape(s: Seq<char>) -> Seq<char> {
    replace_char(replace_char(s, '|', "\\|"@), '=', "\\="@)
}

/// An alert in Common Event Format.
pub open spec fn spec_cef(a: Alert) -> Seq<char> {
    "CEF:0|DefuDelog|Platform|2.0|"@ + uppercase_of(category_name(a.category)) + "|"@ + cef_name(a)
        + "|"@ + decimal(severity_score(a.level)) + "|rt="@ + rfc3339_of(
        a.detected_at.secs,
        a.detected_at.nanos,
    ) + " cat="@ + category_name(a.category) + " score="@ + fixed2(a.final_score) + " msg="@
        + cef_escape(reasons_text(a))
}

/// An alert in Log Event Extended Format.
pub open spec fn spec_leef(a: Alert) -> Seq<char> {
    "LEEF:2.0|DefuDelog|Platform|2.0|"@ + uppercase_of(category_name(a.category)) + "|\tdevTime="@
        + rfc3339_of(a.detected_at.secs, a.detected_at.nanos) + "\tcat="@ + category_name(
        a.category,
    ) + "\tsev="@ + decimal(severity_score(a.level)) + "\tscore="@ + fixed2(a.final_score)
        + "\tusrMsg="@ + reasons_text(a)
}

/// An alert as an RFC 5424 syslog message.
pub open spec fn spec_syslog(a: Alert) -> Seq<char> {
    "<"@ + decimal(syslog_priority(a.level)) + ">1 "@ + rfc3339_of(
        a.detected_at.secs,
        a.detected_at.nanos,
    ) + " localhost defudelog - "@ + category_name(a.category) + " [alert@defudelog level=\""@
        + level_name(a.level) + "\" score=\""@ + fixed2(a.final_score) + "\"] "@ + reasons_text(a)
}

/// The export formats.
pub enum ExportFormat {
    Cef,
    Leef,
    Syslog,
}

/// The format named (in any case) by `name`; anything unknown means CEF.
pub open spec fn export_format(name: Seq<char>) -> ExportFormat {
    let l = lowercase_of(name);
    if l == "cef"@ {
        ExportFormat::Cef
    } else if l == "leef"@ {
        ExportFormat::Leef
    } else if l == "syslog"@ {
        ExportFormat::Syslog
    } else {
        ExportFormat::Cef
    }
}

/// One alert in a format.
pub open spec fn spec_export_one(a: Alert, f: ExportFormat) -> Seq<char> {
    match f {
        ExportFormat::Cef => spec_cef(a),
        ExportFormat::Leef => spec_leef(a),
        ExportFormat::Syslog => spec_syslog(a),
    }
}

/// Alerts in a format, one per line.
pub open spec fn spec_export_batch(alerts: Seq<Alert>, f: ExportFormat) -> Seq<char> {
    join(alerts.map_values(|a: Alert| spec_export_one(a, f)), "\n"@)
}

fn fixed2_exec(ppm: u32) -> (r: String)
    ensures
        r@ == fixed2(ppm),
{
    let h: u64 = (ppm as u64 + 5000) / 10000;
    let mut s = u64_to_string(h / 100);
    s.append(".");
    let t = h % 100;
    let d1 = crate::text::decimal_chars(t / 10);
    let d2 = crate::text::decimal_chars(t % 10);
    let tail = from_chars(d1.as_slice());
    let tail2 = from_chars(d2.as_slice());
    s.append(tail.as_str());
    s.append(tail2.as_str());
    s
}

fn reasons_exec(a: &Alert) -> (r: String)
    ensures
        r@ == reasons_text(*a),
{
    join_strings(a.reasons.as_slice(), " ; ")
}

fn severity_exec(l: AlertLevel) -> (r: String)
    ensures
        r@ == decimal(severity_score(l)),
{
    let n: u64 = match l {
        AlertLevel::High => 9,
        AlertLevel::Moderate => 6,
        AlertLevel::Low => 3,
        AlertLevel::Benign => 1,
    };
    u64_to_string(n)
}

/// Exports of alerts to SIEM formats.
pub struct SiemExporter;

impl SiemExporter {
    /// An alert in Common Event Format.
    pub fn to_cef(alert: &Alert) -> (r: String)
        ensures
            r@ == spec_cef(*alert),
    {
        let sig = to_upper(alert.category.as_str());
        let name: String = match &alert.template {
            Some(t) => t.clone(),
            None => owned("Alerte de Sécurité"),
        };
        let reasons = reasons_exec(alert);
        let rc = to_chars(reasons.as_str());
        let e1 = replace_char_chars(rc.as_slice(), '|', to_chars("\\|").as_slice());
        let e2 = replace_char_chars(e1.as_slice(), '=', to_chars("\\=").as_slice());
        let escaped = from_chars(e2.as_slice());
        let mut s = owned("CEF:0|DefuDelog|Platform|2.0|");
        s.append(sig.as_str());
        s.append("|");
        s.append(name.as_str());
        s.append("|");
        s.append(severity_exec(alert.level).as_str());
        s.append("|rt=");
        s.append(format_rfc3339(alert.detected_at).as_str());
        s.append(" cat=");
        s.append(alert.category.as_str());
        s.append(" score=");
        s.append(fixed2_exec(alert.final_score).as_str());
        s.append(" msg=");
        s.append(escaped.as_str());
        s
    }

    /// An alert in Log Event Extended Format.
    pub fn to_leef(alert: &Alert) -> (r: String)
        ensures
            r@ == spec_leef(*alert),
    {
        let sig = to_upper(alert.category.as_str());
        let mut s = owned("LEEF:2.0|DefuDelog|Platform|2.0|");
        s.append(sig.as_str());
        s.append("|\tdevTime=");
        s.append(format_rfc3339(alert.detected_at).as_str());
        s.append("\tcat=");
        s.append(alert.category.as_str());
        s.append("\tsev=");
        s.append(severity_exec(alert.level).as_str());
        s.append("\tscore=");
        s.append(fixed2_exec(alert.final_score).as_str());
        s.append("\tusrMsg=");
        s.append(reasons_exec(alert).as_str());
        s
    }

    /// An alert as an RFC 5424 syslog message.
    pub fn to_syslog_rfc5424(alert: &Alert) -> (r: String)
        ensures
            r@ == spec_syslog(*alert),
    {
        let pri: u64 = match alert.level {
            AlertLevel::High => 11,
            AlertLevel::Moderate => 12,
            AlertLevel::Low => 13,
            AlertLevel::Benign => 14,
        };
        let mut s = owned("<");
        s.append(u64_to_string(pri).as_str());
        s.append(">1 ");
        s.append(format_rfc3339(alert.detected_at).as_str());
        s.append(" localhost defudelog - ");
        s.append(alert.category.as_str());
        s.append(" [alert@defudelog level=\"");
        s.append(alert.level.as_str());
        s.append("\" score=\"");
        s.append(fixed2_exec(alert.final_score).as_str());
        s.append("\"] ");
        s.append(reasons_exec(alert).as_str());
        s
    }

    /// Alerts in the format named by `format_type` ("cef", "leef" or
    /// "syslog", in any case; anything else means CEF), one per line.
    pub fn export_batch(alerts: &[Alert], format_type: &str) -> (r: String)
        ensures
            r@ == spec_export_batch(alerts@, export_format(format_type@)),
    {
        let lower = to_lower(format_type);
        let ghost f = export_format(format_type@);
        let kind: u8 = if str_eq(lower.as_str(), "cef") {
            0
        } else if str_eq(lower.as_str(), "leef") {
            1
        } else if str_eq(lower.as_str(), "syslog") {
            2
        } else {
            0
        };
        assert(kind == 0 ==> f == ExportFormat::Cef);
        assert(kind == 1 ==> f == ExportFormat::Leef);
        assert(kind == 2 ==> f == ExportFormat::Syslog);
        let mut lines: Vec<String> = Vec::new();
        let mut i: usize = 0;
        while i < alerts.len()
            invariant
                i <= alerts@.len(),
                kind <= 2,
                kind == 0 ==> f == ExportFormat::Cef,
                kind == 1 ==> f == ExportFormat::Leef,
                kind == 2 ==> f == ExportFormat::Syslog,
                views(lines@) == alerts@.take(i as int).map_values(|a: Alert| spec_export_one(a, f)),
            decreases alerts@.len() - i,
        {
            let line = if kind == 1 {
                Self::to_leef(&alerts[i])
            } else if kind == 2 {
                Self::to_syslog_rfc5424(&alerts[i])
            } else {
                Self::to_cef(&alerts[i])
            };
            assert(line@ == spec_export_one(alerts@[i as int], f));
            let ghost before = views(lines@);
            lines.push(line);
            assert(views(lines@) =~= before.push(spec_export_one(alerts@[i as int], f)));
            i = i + 1;
            assert(views(lines@) =~= alerts@.take(i as int).map_values(
                |a: Alert| spec_export_one(a, f),
            ));
        }
        assert(alerts@.take(alerts@.len() as int) =~= alerts@);
        join_strings(lines.as_slice(), "\n")
    }
}

proof fn lemma_join_starts_with(pieces: Seq<Seq<char>>, sep: Seq<char>, p: Seq<char>)
    requires
        pieces.len() > 0,
        starts_with(pieces[0], p),
    ensures
        starts_with(join(pieces, sep), p),
    decreases pieces.len(),
{
    if pieces.len() == 1 {
    } else {
        lemma_join_starts_with(pieces.drop_last(), sep, p);
        let j = join(pieces.drop_last(), sep);
        assert((j + sep + pieces.last()).take(p.len() as int) =~= j.take(p.len() as int));
    }
}

/// The SIEM severity grows strictly with the alert level, on the scale
/// benign 1, low 3, moderate 6, high 9.
pub proof fn law_severity_scale(a: AlertLevel, b: AlertLevel)
    ensures
        crate::models::level_rank(a) < crate::models::level_rank(b) ==> severity_score(a) < severity_score(b),
        severity_score(AlertLevel::Benign) == 1,
        severity_score(AlertLevel::Low) == 3,
        severity_score(AlertLevel::Moderate) == 6,
        severity_score(AlertLevel::High) == 9,
{
}

/// Exporting in an unknown format is exporting in CEF.
pub proof fn law_unknown_format_is_cef(alerts: Seq<Alert>, name: Seq<char>)
    requires
        lowercase_of(name) != "leef"@,
        lowercase_of(name) != "syslog"@,
    ensures
        spec_export_batch(alerts, export_format(name)) == spec_export_batch(alerts, ExportFormat::Cef),
{
}

/// A non-empty CEF export begins with the CEF header of the platform.
pub proof fn law_cef_header(alerts: Seq<Alert>)
    requires
        alerts.len() > 0,
    ensures
        starts_with(spec_export_batch(alerts, ExportFormat::Cef), "CEF:0|DefuDelog|Platform|2.0|"@),
{
    let a = alerts[0];
    let rest = uppercase_of(category_name(a.category)) + "|"@ + cef_name(a) + "|"@ + decimal(
        severity_score(a.level),
    ) + "|rt="@ + rfc3339_of(a.detected_at.secs, a.detected_at.nanos) + " cat="@ + category_name(
        a.category,
    ) + " score="@ + fixed2(a.final_score) + " msg="@ + cef_escape(reasons_text(a));
    let h = "CEF:0|DefuDelog|Platform|2.0|"@;
    assert(spec_cef(a) =~= h + rest);
    assert((h + rest).take(h.len() as int) =~= h);
    let lines = alerts.map_values(|x: Alert| spec_export_one(x, ExportFormat::Cef));
    lemma_join_starts_with(lines, "\n"@, h);
}

/// A non-empty LEEF export begins with the LEEF header of the platform.
pub proof fn law_leef_header(alerts: Seq<Alert>)
    requires
        alerts.len() > 0,
    ensures
        starts_with(spec_export_batch(alerts, ExportFormat::Leef), "LEEF:2.0|DefuDelog|Platform|2.0|"@),
{
    let a = alerts[0];
    let h = "LEEF:2.0|DefuDelog|Platform|2.0|"@;
    let rest = uppercase_of(category_name(a.category)) + "|\tdevTime="@ + rfc3339_of(
        a.detected_at.secs,
        a.detected_at.nanos,
    ) + "\tcat="@ + category_name(a.category) + "\tsev="@ + decimal(severity_score(a.level))
        + "\tscore="@ + fixed2(a.final_score) + "\tusrMsg="@ + reasons_text(a);
    assert(spec_leef(a) =~= h + rest);
    assert((h + rest).take(h.len() as int) =~= h);
    let lines = alerts.map_values(|x: Alert| spec_export_one(x, ExportFormat::Leef));
    lemma_join_starts_with(lines, "\n"@, h);
}

/// A non-empty syslog export begins with `<`, the start of a priority.
pub proof fn law_syslog_header(alerts: Seq<Alert>)
    requires
        alerts.len() > 0,
    ensures
        starts_with(spec_export_batch(alerts, ExportFormat::Syslog), "<"@),
{
    let a = alerts[0];
    let h = "<"@;
    let rest = decimal(syslog_priority(a.level)) + ">1 "@ + rfc3339_of(
        a.detected_at.secs,
        a.detected_at.nanos,
    ) + " localhost defudelog - "@ + category_name(a.category) + " [alert@defudelog level=\""@
        + level_name(a.level) + "\" score=\""@ + fixed2(a.final_score) + "\"] "@ + reasons_text(a);
    assert(spec_syslog(a) =~= h + rest);
    assert((h + rest).take(h.len() as int) =~= h);
    let lines = alerts.map_values(|x: Alert| spec_export_one(x, ExportFormat::Syslog));
    lemma_join_starts_with(lines, "\n"@, h);
}

} // verus!
