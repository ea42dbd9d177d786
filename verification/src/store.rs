//! What the storage layer decides around its queries: the default rules, the
//! kind of a stored source, the filters and windows of the listings, the
//! network hosts, the context of a log, the hourly activity slots, and the
//! report of a purge.
use vstd::prelude::*;
use crate::engine::{hash_log, hex_lower, sha256_of};
use crate::models::{NetworkNode, RawLog, SourceType, SourceTypeModel, TemplateTranslation, Timestamp};
use crate::siem::{format_utc, known_utc_pattern, utc_format_of};
use crate::sources::{kept_strings, or_default, syslog_port, SourceConfig};
use crate::text::{
    concat2, copy_opt, decimal, opt_view, owned, replace_char, replace_char_chars, starts_with,
    starts_with_chars, str_eq, strip_prefixes, strip_prefixes_chars, to_chars, from_chars,
    u64_to_string, views,
};

verus! {

// ──────────────────────────────── defaults ────────────────────────────────

/// The number of rules that a new database holds.
pub const DEFAULT_RULE_COUNT: usize = 6;

/// The rules that a new database holds: id, name, kind, pattern, severity.
pub open spec fn default_rule(k: int) -> (Seq<char>, Seq<char>, Seq<char>, Seq<char>, Seq<char>) {
    if k == 0 {
        ("keyword-sens"@, "Mot-clé sensible"@, "keyword"@, "sens|secret|confidentiel|password|token|api_key"@, "high"@)
    } else if k == 1 {
        ("keyword-ip-blacklist"@, "IP sur liste noire"@, "ip_blacklist"@, "192.168.1.42|192.168.1.28|10.0.0.99"@, "high"@)
    } else if k == 2 {
        ("user-blacklist"@, "Utilisateur compromis"@, "user_blacklist"@, "root|attacker19|cyrus"@, "high"@)
    } else if k == 3 {
        ("time-suspect"@, "Heure suspecte"@, "time_window"@, "19-21"@, "moderate"@)
    } else if k == 4 {
        ("transfer-suspect"@, "Transfert de fichier suspect"@, "regex"@, r"scp|ftp|rsync|curl.*-o|wget"@, "high"@)
    } else {
        ("auth-failure-burst"@, "Rafale d'échecs d'auth"@, "template_match"@, "Failed password"@, "moderate"@)
    }
}

/// The rule that a new database holds at position `k`: id, name, kind,
/// pattern, severity.
pub fn default_rule_row(k: usize) -> (r: (&'static str, &'static str, &'static str, &'static str, &'static str))
    requires
        k < DEFAULT_RULE_COUNT,
    ensures
        (r.0@, r.1@, r.2@, r.3@, r.4@) == default_rule(k as int),
{
    if k == 0 {
        ("keyword-sens", "Mot-clé sensible", "keyword", "sens|secret|confidentiel|password|token|api_key", "high")
    } else if k == 1 {
        ("keyword-ip-blacklist", "IP sur liste noire", "ip_blacklist", "192.168.1.42|192.168.1.28|10.0.0.99", "high")
    } else if k == 2 {
        ("user-blacklist", "Utilisateur compromis", "user_blacklist", "root|attacker19|cyrus", "high")
    } else if k == 3 {
        ("time-suspect", "Heure suspecte", "time_window", "19-21", "moderate")
    } else if k == 4 {
        ("transfer-suspect", "Transfert de fichier suspect", "regex", r"scp|ftp|rsync|curl.*-o|wget", "high")
    } else {
        ("auth-failure-burst", "Rafale d'échecs d'auth", "template_match", "Failed password", "moderate")
    }
}

// ───────────────────────────── stored sources ─────────────────────────────

/// The kind of a stored source, by the kind's stored name and the source's
/// configuration; a file watcher's pattern is `*` by default, and an unknown
/// name is a file watcher.
pub open spec fn stored_source_type_of(kind: Seq<char>, c: SourceConfig) -> SourceTypeModel {
    if kind == "windows_event_log"@ {
        SourceTypeModel::WindowsEventLog {
            channel: or_default(opt_view(c.channel), "Security"@),
            query: opt_view(c.query),
        }
    } else if kind == "macos_unified_log"@ {
        SourceTypeModel::MacOsUnifiedLog { predicate: opt_view(c.predicate) }
    } else if kind == "journald"@ {
        SourceTypeModel::Journald { unit_filter: opt_view(c.unit_filter) }
    } else if kind == "network_syslog"@ {
        SourceTypeModel::NetworkSyslog {
            port: syslog_port(c.port),
            protocol: or_default(opt_view(c.protocol), "udp/tcp"@),
        }
    } else if kind == "kafka"@ {
        SourceTypeModel::Kafka {
            topic: or_default(opt_view(c.topic), "logs"@),
            brokers: match c.brokers {
                Some(b) => kept_strings(b@),
                None => Seq::<Seq<char>>::empty(),
            },
        }
    } else {
        SourceTypeModel::FileWatcher {
            path: or_default(opt_view(c.path), ""@),
            pattern: Some(or_default(opt_view(c.pattern), "*"@)),
        }
    }
}

fn or_default_string(o: &Option<String>, d: &str) -> (r: String)
    ensures
        r@ == or_default(opt_view(*o), d@),
{
    match o {
        Some(v) => v.clone(),
        None => owned(d),
    }
}

/// The kind of a stored source, by its stored name and configuration.
pub fn stored_source_type(kind: &str, config: &SourceConfig) -> (r: SourceType)
    ensures
        r@ == stored_source_type_of(kind@, *config),
{
    if str_eq(kind, "windows_event_log") {
        SourceType::WindowsEventLog {
            channel: or_default_string(&config.channel, "Security"),
            query: copy_opt(&config.query),
        }
    } else if str_eq(kind, "macos_unified_log") {
        SourceType::MacOsUnifiedLog { predicate: copy_opt(&config.predicate) }
    } else if str_eq(kind, "journald") {
        SourceType::Journald { unit_filter: copy_opt(&config.unit_filter) }
    } else if str_eq(kind, "network_syslog") {
        let p: u64 = match config.port {
            Some(v) => v,
            None => 1514,
        };
        SourceType::NetworkSyslog {
            port: (p % 65536) as u16,
            protocol: or_default_string(&config.protocol, "udp/tcp"),
        }
    } else if str_eq(kind, "kafka") {
        let kept = match &config.brokers {
            Some(b) => kept_brokers(b),
            None => Vec::new(),
        };
        let r = SourceType::Kafka { topic: or_default_string(&config.topic, "logs"), brokers: kept };
        assert(r@ == stored_source_type_of(kind@, *config)) by {
            if config.brokers is None {
                assert(views(kept@) =~= Seq::<Seq<char>>::empty());
            }
        }
        r
    } else {
        SourceType::FileWatcher {
            path: or_default_string(&config.path, ""),
            pattern: Some(or_default_string(&config.pattern, "*")),
        }
    }
}

fn kept_brokers(v: &Vec<Option<String>>) -> (r: Vec<String>)
    ensures
        views(r@) == kept_strings(v@),
{
    let mut out: Vec<String> = Vec::new();
    let mut i: usize = 0;
    while i < v.len()
        invariant
            i <= v@.len(),
            views(out@) == kept_strings(v@.take(i as int)),
        decreases v@.len() - i,
    {
        assert(v@.take(i + 1).drop_last() =~= v@.take(i as int));
        let ghost before = views(out@);
        match &v[i] {
            Some(s) => {
                out.push(s.clone());
                assert(views(out@) =~= before.push(s@));
            },
            None => {},
        }
        i = i + 1;
    }
    assert(v@.take(v@.len() as int) =~= v@);
    out
}

// ───────────────────────────── network hosts ─────────────────────────────

/// The address of a host, read from the source its logs came from: what
/// follows `network_syslog_` for a network source, the local address
/// otherwise.
pub open spec fn node_address(source_id: Seq<char>) -> Seq<char> {
    if starts_with(source_id, "network_syslog_"@) {
        strip_prefixes(source_id, "network_syslog_"@)
    } else {
        "127.0.0.1"@
    }
}

/// The address of a host, read from the source its logs came from.
pub fn node_ip(source_id: &str) -> (r: String)
    ensures
        r@ == node_address(source_id@),
{
    let s = to_chars(source_id);
    let p = to_chars("network_syslog_");
    if starts_with_chars(s.as_slice(), p.as_slice()) {
        let rest = strip_prefixes_chars(s.as_slice(), p.as_slice());
        from_chars(rest.as_slice())
    } else {
        owned("127.0.0.1")
    }
}

/// A host that sent logs: its name, its address read from its source, how
/// many logs it sent and when it was last seen.
pub fn network_node(hostname: String, source_id: &str, log_count: u64, last_seen: Timestamp) -> (r: NetworkNode)
    ensures
        r.hostname@ == hostname@,
        r.ip_address@ == node_address(source_id@),
        r.log_count == log_count,
        r.last_seen == last_seen,
        r.os@ == "linux/unix"@,
{
    NetworkNode { hostname, ip_address: node_ip(source_id), log_count, last_seen, os: owned("linux/unix") }
}

/// The name under which a network host's source is registered.
pub fn network_source_name(hostname: &str) -> (r: String)
    ensures
        r@ == "Syslog ("@ + hostname@ + ")"@,
{
    let a = concat2("Syslog (", hostname);
    concat2(a.as_str(), ")")
}

// ──────────────────────────────── listings ────────────────────────────────

/// The condition that selects raw logs by source and by a text they contain,
/// with nothing when neither is given.
pub open spec fn raw_logs_condition(source_id: Option<Seq<char>>, search: Option<Seq<char>>) -> Seq<char> {
    match (source_id, search) {
        (Some(s), Some(q)) => "WHERE source_id = '"@ + s + "' AND raw_message LIKE '%"@ + q + "%'"@,
        (Some(s), None) => "WHERE source_id = '"@ + s + "'"@,
        (None, Some(q)) => "WHERE raw_message LIKE '%"@ + q + "%'"@,
        (None, None) => Seq::<char>::empty(),
    }
}

fn cat3(a: &str, b: &str, c: &str) -> (r: String)
    ensures
        r@ == a@ + b@ + c@,
{
    let ab = concat2(a, b);
    concat2(ab.as_str(), c)
}

/// The condition that selects raw logs by source and by a text they contain.
pub fn raw_logs_filter(source_id: Option<&str>, search: Option<&str>) -> (r: String)
    ensures
        r@ == raw_logs_condition(
            match source_id {
                Some(s) => Some(s@),
                None => None,
            },
            match search {
                Some(q) => Some(q@),
                None => None,
            },
        ),
{
    match (source_id, search) {
        (Some(s), Some(q)) => {
            let a = cat3("WHERE source_id = '", s, "' AND raw_message LIKE '%");
            cat3(a.as_str(), q, "%'")
        },
        (Some(s), None) => cat3("WHERE source_id = '", s, "'"),
        (None, Some(q)) => cat3("WHERE raw_message LIKE '%", q, "%'"),
        (None, None) => String::new(),
    }
}

/// The condition that selects alerts by level and by whether they were
/// acknowledged, the conditions joined by `AND`, with nothing when neither is
/// given.
pub open spec fn alerts_condition(level: Option<Seq<char>>, acknowledged: Option<bool>) -> Seq<char> {
    let lc = match level {
        Some(l) => seq!["level = '"@ + l + "'"@],
        None => Seq::<Seq<char>>::empty(),
    };
    let ac = match acknowledged {
        Some(a) => seq!["acknowledged = "@ + (if a { "1"@ } else { "0"@ })],
        None => Seq::<Seq<char>>::empty(),
    };
    let cs = lc + ac;
    if cs.len() == 0 {
        Seq::<char>::empty()
    } else {
        "WHERE "@ + crate::text::join(cs, " AND "@)
    }
}

/// The condition that selects alerts by level and acknowledgement.
pub fn alerts_filter(level: Option<&str>, acknowledged: Option<bool>) -> (r: String)
    ensures
        r@ == alerts_condition(
            match level {
                Some(l) => Some(l@),
                None => None,
            },
            acknowledged,
        ),
{
    let mut conditions: Vec<String> = Vec::new();
    match level {
        Some(l) => conditions.push(cat3("level = '", l, "'")),
        None => {},
    }
    let ghost lc = views(conditions@);
    match acknowledged {
        Some(a) => conditions.push(concat2("acknowledged = ", if a { "1" } else { "0" })),
        None => {},
    }
    let ghost spec_level = match level {
        Some(l) => Some(l@),
        None => None,
    };
    assert(views(conditions@) =~= (match spec_level {
        Some(l) => seq!["level = '"@ + l + "'"@],
        None => Seq::<Seq<char>>::empty(),
    }) + (match acknowledged {
        Some(a) => seq!["acknowledged = "@ + (if a { "1"@ } else { "0"@ })],
        None => Seq::<Seq<char>>::empty(),
    }));
    if conditions.len() == 0 {
        String::new()
    } else {
        let joined = crate::text::join_strings(conditions.as_slice(), " AND ");
        concat2("WHERE ", joined.as_str())
    }
}

/// The logs around a log in time order: the earlier ones, which the query
/// gives latest first, then the later ones, which it gives earliest first.
pub fn context_window(before_latest_first: Vec<RawLog>, after_earliest_first: Vec<RawLog>) -> (r: Vec<RawLog>)
    ensures
        r@ == before_latest_first@.reverse() + after_earliest_first@,
{
    let mut out: Vec<RawLog> = Vec::new();
    let mut b = before_latest_first;
    let ghost bs = b@;
    while b.len() > 0
        invariant
            out@ + b@.reverse() == bs.reverse(),
        decreases b@.len(),
    {
        let ghost before_b = b@;
        let ghost before_out = out@;
        let x = b.pop().unwrap();
        out.push(x);
        assert(before_b =~= b@.push(x));
        assert(before_b.reverse() =~= seq![x] + b@.reverse());
        assert(out@ + b@.reverse() =~= before_out + before_b.reverse());
    }
    assert(out@ =~= bs.reverse());
    let ghost reversed = out@;
    let mut a = after_earliest_first;
    out.append(&mut a);
    out
}

/// The filter on the host of the neighbouring logs, if one is given.
pub fn host_filter(hostname: Option<&str>) -> (r: String)
    ensures
        r@ == match hostname {
            Some(h) => "AND hostname = '"@ + h@ + "'"@,
            None => Seq::<char>::empty(),
        },
{
    match hostname {
        Some(h) => cat3("AND hostname = '", h, "'"),
        None => String::new(),
    }
}

// ──────────────────────────────── paging ────────────────────────────────

/// The window of the log listing, as (limit, offset): the limit and offset
/// when a limit is given (offset 0 by default), otherwise the page (1 by
/// default) of `per_page` logs (50 by default).
pub open spec fn raw_logs_window_of(
    limit: Option<usize>,
    offset: Option<usize>,
    page: Option<usize>,
    per_page: Option<usize>,
) -> (int, int) {
    match limit {
        Some(l) => (l as int, match offset {
            Some(o) => o as int,
            None => 0,
        }),
        None => {
            let p: int = match page {
                Some(p) => p as int,
                None => 1,
            };
            let pp: int = match per_page {
                Some(x) => x as int,
                None => 50,
            };
            (pp, (p - 1) * pp)
        },
    }
}

/// The window of the log listing, as (limit, offset).
pub fn raw_logs_window(
    limit: Option<usize>,
    offset: Option<usize>,
    page: Option<usize>,
    per_page: Option<usize>,
) -> (r: (usize, usize))
    requires
        limit is None ==> (match page {
            Some(p) => p >= 1,
            None => true,
        }) && raw_logs_window_of(limit, offset, page, per_page).1 <= usize::MAX,
    ensures
        (r.0 as int, r.1 as int) == raw_logs_window_of(limit, offset, page, per_page),
{
    match limit {
        Some(l) => (l, match offset {
            Some(o) => o,
            None => 0,
        }),
        None => {
            let p: usize = match page {
                Some(p) => p,
                None => 1,
            };
            let pp: usize = match per_page {
                Some(x) => x,
                None => 50,
            };
            (pp, (p - 1) * pp)
        },
    }
}

/// The page shown for a window: the offset divided by the limit, plus one;
/// page 1 for an empty limit.
pub fn page_number(offset: usize, limit: usize) -> (r: usize)
    requires
        !(limit == 1 && offset == usize::MAX),
    ensures
        r == if limit == 0 {
            1
        } else {
            offset / limit + 1
        },
{
    if limit == 0 {
        1
    } else {
        assert(offset / limit < usize::MAX) by (nonlinear_arith)
            requires
                limit >= 1,
                !(limit == 1 && offset == usize::MAX),
        {
            if limit >= 2 {
                assert(offset / limit <= offset / 2);
            }
        }
        offset / limit + 1
    }
}

/// The number of pages of `total` items, `per_page` to a page, rounded up.
pub open spec fn pages_of(total: u64, per_page: usize) -> int {
    (total as int + per_page as int - 1) / per_page as int
}

/// The number of pages of the log listing: one for an empty limit.
pub fn raw_logs_total_pages(total: u64, limit: usize) -> (r: u64)
    ensures
        r as int == if limit > 0 {
            pages_of(total, limit)
        } else {
            1
        },
{
    if limit > 0 {
        let t = total as u128;
        let l = limit as u128;
        let q = (t + l - 1) / l;
        assert(q as int <= t as int) by (nonlinear_arith)
            requires
                l as int >= 1,
                q as int == (t as int + l as int - 1) / (l as int),
        ;
        q as u64
    } else {
        1
    }
}

/// The pages of a listing hold every item and no page more than needed:
/// `pages * per_page` reaches the total, `(pages - 1) * per_page` stays below
/// it, and an empty listing has no page.
pub proof fn law_pages_cover(total: u64, per_page: usize)
    requires
        per_page > 0,
    ensures
        pages_of(total, per_page) * per_page >= total,
        total > 0 ==> (pages_of(total, per_page) - 1) * per_page < total,
        total == 0 ==> pages_of(total, per_page) == 0,
{
    let n = per_page as int;
    let x = total as int + n - 1;
    let q = x / n;
    let r = x % n;
    vstd::arithmetic::div_mod::lemma_fundamental_div_mod(x, n);
    vstd::arithmetic::div_mod::lemma_mod_bound(x, n);
    assert(q * n == n * q) by (nonlinear_arith);
    assert((q - 1) * n == q * n - n) by (nonlinear_arith);
    if total == 0 {
        vstd::arithmetic::div_mod::lemma_basic_div(x, n);
    }
}

/// The number of pages of a listing that does not guard against an empty
/// page size: with no page size, as many as can be counted when there are
/// items and none otherwise.
pub fn listing_total_pages(total: u64, per_page: usize) -> (r: u64)
    ensures
        r as int == if per_page > 0 {
            pages_of(total, per_page)
        } else if total > 0 {
            u64::MAX as int
        } else {
            0
        },
{
    if per_page > 0 {
        raw_logs_total_pages(total, per_page)
    } else if total > 0 {
        u64::MAX
    } else {
        0
    }
}

/// The page, page size and offset of a listing by pages: page 1 and 50 a page
/// by default.
pub fn page_window(page: Option<usize>, per_page: Option<usize>) -> (r: (usize, usize, usize))
    requires
        match page {
            Some(p) => p >= 1 && (p - 1) * match per_page {
                Some(x) => x as int,
                None => 50,
            } <= usize::MAX,
            None => true,
        },
    ensures
        r.0 as int == match page {
            Some(p) => p as int,
            None => 1,
        },
        r.1 as int == match per_page {
            Some(x) => x as int,
            None => 50,
        },
        r.2 as int == (r.0 - 1) * r.1,
{
    let p: usize = match page {
        Some(p) => p,
        None => 1,
    };
    let pp: usize = match per_page {
        Some(x) => x,
        None => 50,
    };
    (p, pp, (p - 1) * pp)
}

// ───────────────────────────── activity slots ─────────────────────────────

/// The hour that a slot of the activity chart covers: `i` hours before `now`.
pub open spec fn slot_instant(now: Timestamp, i: int) -> Timestamp {
    Timestamp { secs: (now.secs - i * 3600) as i64, nanos: now.nanos }
}

/// A slot of the activity chart, `i` hours before `now`: the patterns that
/// match the stored times of that hour (ISO with `T`, or with a space), and
/// the slot's label `HH:00`.
pub open spec fn activity_slot(now: Timestamp, i: int) -> (Seq<char>, Seq<char>, Seq<char>) {
    let t = slot_instant(now, i);
    let hour = utc_format_of(t.secs, t.nanos, "%Y-%m-%d %H"@);
    (
        replace_char(hour, ' ', seq!['T']) + "%"@,
        hour + "%"@,
        utc_format_of(t.secs, t.nanos, "%H:00"@),
    )
}

/// The slots of the activity chart: the last 24 hours, oldest first.
pub fn activity_slots(now: Timestamp) -> (r: Vec<(String, String, String)>)
    requires
        now.secs >= i64::MIN + 23 * 3600,
    ensures
        r@.len() == 24,
        forall|k: int|
            0 <= k < 24 ==> {
                let s = activity_slot(now, 23 - k);
                &&& (#[trigger] r@[k]).0@ == s.0
                &&& r@[k].1@ == s.1
                &&& r@[k].2@ == s.2
            },
{
    let mut out: Vec<(String, String, String)> = Vec::new();
    let mut k: usize = 0;
    proof {
        reveal_strlit("%Y-%m-%d %H");
        reveal_strlit("%H:00");
    }
    while k < 24
        invariant
            k <= 24,
            now.secs >= i64::MIN + 23 * 3600,
            out@.len() == k,
            forall|j: int|
                0 <= j < k ==> {
                    let s = activity_slot(now, 23 - j);
                    &&& (#[trigger] out@[j]).0@ == s.0
                    &&& out@[j].1@ == s.1
                    &&& out@[j].2@ == s.2
                },
        decreases 24 - k,
    {
        let i: i64 = (23 - k) as i64;
        let t = Timestamp { secs: now.secs - i * 3600, nanos: now.nanos };
        let hour = format_utc(t, "%Y-%m-%d %H");
        let label = format_utc(t, "%H:00");
        let hc = to_chars(hour.as_str());
        let tee: Vec<char> = vec!['T'];
        assert(tee@ =~= seq!['T']);
        let iso = replace_char_chars(hc.as_slice(), ' ', tee.as_slice());
        let iso_s = from_chars(iso.as_slice());
        let pattern = concat2(iso_s.as_str(), "%");
        let pattern_alt = concat2(hour.as_str(), "%");
        out.push((pattern, pattern_alt, label));
        k = k + 1;
    }
    out
}

// ───────────────────────────────── purges ─────────────────────────────────

/// The file that an archive taken at `stamp` (formatted `%Y%m%d_%H%M%S`) is
/// written to.
pub fn archive_file_name(archive_dir: &str, stamp: &str) -> (r: String)
    ensures
        r@ == archive_dir@ + "/defudolog_archive_"@ + stamp@ + ".json"@,
{
    let a = cat3(archive_dir, "/defudolog_archive_", stamp);
    concat2(a.as_str(), ".json")
}

/// The report of a purge.
pub open spec fn purge_message_of(purged_logs: u64, purged_alerts: u64, days: u32) -> Seq<char> {
    "Purge terminée : "@ + decimal(purged_logs as nat) + " logs et "@ + decimal(purged_alerts as nat)
        + " alertes supprimés (antérieurs à "@ + decimal(days as nat) + " jours)."@
}

/// The outcome of a purge: what it removed, the archive it wrote if any, and
/// its report.
pub fn purge_result(purged_logs: u64, purged_alerts: u64, days: u32, archive_file: Option<String>) -> (r: crate::models::PurgeResult)
    ensures
        r.purged_logs == purged_logs,
        r.purged_alerts == purged_alerts,
        opt_view(r.archive_file) == opt_view(archive_file),
        r.message@ == purge_message_of(purged_logs, purged_alerts, days),
{
    let l = u64_to_string(purged_logs);
    let a = u64_to_string(purged_alerts);
    let d = u64_to_string(days as u64);
    let m1 = cat3("Purge terminée : ", l.as_str(), " logs et ");
    let m2 = cat3(m1.as_str(), a.as_str(), " alertes supprimés (antérieurs à ");
    let message = cat3(m2.as_str(), d.as_str(), " jours).");
    crate::models::PurgeResult { purged_logs, purged_alerts, archive_file, message }
}

// ─────────────────────────── learned translations ───────────────────────────

/// A translation that a user taught for a template: keyed by the SHA-256 of
/// the template in hexadecimal, learned from the user, at `now`.
pub fn template_translation(pattern: &str, format: &str, level: &str, now: Timestamp) -> (r: TemplateTranslation)
    ensures
        r.template_hash@ == hex_lower(sha256_of(vstd::utf8::encode_utf8(pattern@))),
        r.template_pattern@ == pattern@,
        r.french_format@ == format@,
        r.explanation is None,
        r.recommendation is None,
        r.status_level@ == level@,
        r.learned_from@ == "user_custom"@,
        r.created_at == now,
{
    TemplateTranslation {
        template_hash: hash_log(pattern),
        template_pattern: owned(pattern),
        french_format: owned(format),
        explanation: None,
        recommendation: None,
        status_level: owned(level),
        learned_from: owned("user_custom"),
        created_at: now,
    }
}

} // verus!
