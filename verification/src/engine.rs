//! The detection engine: log hashing, threat categorisation, burst
//! correlation windows, the deterministic DLP and rule engine, and the fusion
//! of the detection axes into a risk score and an alert level.
use vstd::prelude::*;
use crate::models::{AlertCategory, AlertLevel, DetectionRule, RuleType};
use crate::parser::TemplateClass;
use crate::patterns::{regex_is_match, regex_matches};
use crate::text::{
    concat2, contains, from_chars, has_lit, join, lowercase_of, owned, split_char, split_chars,
    to_chars, to_lower, trim, trim_chars, views,
};

verus! {

// ──────────────────────────────── hashing ────────────────────────────────

/// What `sha2::Sha256` computes for `data`: its SHA-256 digest.
pub uninterp spec fn sha256_of(data: Seq<u8>) -> Seq<u8>;

/// SHA-256 digest of `data` with `sha2::Sha256::digest`. The contract names
/// the digest and states its documented size of 32 bytes.
#[verifier::external_body]
fn sha256(data: &[u8]) -> (r: Vec<u8>)
    ensures
        r@ == sha256_of(data@),
        r@.len() == 32,
{
    <sha2::Sha256 as sha2::Digest>::digest(data).to_vec()
}

/// The lower-case hexadecimal digit for `d < 16`.
pub open spec fn hex_digit(d: int) -> char {
    if d < 10 {
        (('0' as int) + d) as char
    } else {
        (('a' as int) + d - 10) as char
    }
}

/// Bytes in lower-case hexadecimal, two digits each (`{:x}` of a digest).
pub open spec fn hex_lower(b: Seq<u8>) -> Seq<char>
    decreases b.len(),
{
    if b.len() == 0 {
        Seq::<char>::empty()
    } else {
        hex_lower(b.drop_last()) + seq![hex_digit(b.last() as int / 16), hex_digit(b.last() as int % 16)]
    }
}

fn hex_digit_exec(d: u8) -> (c: char)
    requires
        d < 16,
    ensures
        c == hex_digit(d as int),
{
    let s = "0123456789abcdef";
    let v = to_chars(s);
    proof {
        reveal_strlit("0123456789abcdef");
    }
    assert(v@.len() == 16);
    let c = v[d as usize];
    assert(c == hex_digit(d as int)) by {
        assert(v@ == "0123456789abcdef"@);
    }
    c
}

/// The lower-case hexadecimal form of some bytes.
pub fn to_hex(b: &[u8]) -> (r: String)
    ensures
        r@ == hex_lower(b@),
{
    let mut out: Vec<char> = Vec::new();
    let mut i: usize = 0;
    while i < b.len()
        invariant
            i <= b.len(),
            out@ == hex_lower(b@.take(i as int)),
        decreases b.len() - i,
    {
        assert(b@.take(i + 1).drop_last() =~= b@.take(i as int));
        let x = b[i];
        out.push(hex_digit_exec(x / 16));
        out.push(hex_digit_exec(x % 16));
        i = i + 1;
        assert(out@ =~= hex_lower(b@.take(i as int)));
    }
    assert(b@.take(b.len() as int) =~= b@);
    from_chars(out.as_slice())
}

/// The fingerprint of a log line: the SHA-256 digest of its UTF-8 bytes in
/// lower-case hexadecimal.
pub fn hash_log(message: &str) -> (r: String)
    ensures
        r@ == hex_lower(sha256_of(vstd::utf8::encode_utf8(message@))),
{
    let digest = sha256(message.as_bytes());
    to_hex(digest.as_slice())
}

// ──────────────────────────── categorisation ────────────────────────────

/// The category of a threat, read from the lower-case text of the line and
/// of the reasons given for it.
pub open spec fn spec_categorize(text: Seq<char>) -> AlertCategory {
    let t = lowercase_of(text);
    if contains(t, "failed password"@) || contains(t, "authentication failure"@) || contains(
        t,
        "invalid user"@,
    ) || contains(t, "ssh"@) || contains(t, "login"@) || contains(t, "brute"@) || contains(
        t,
        "401 unauthorized"@,
    ) || contains(t, "access denied"@) {
        AlertCategory::Authentication
    } else if contains(t, "leak"@) || contains(t, "exfiltration"@) || contains(t, "export"@)
        || contains(t, "transfer"@) || contains(t, "sensible"@) || contains(t, "secret"@)
        || contains(t, "password"@) || contains(t, "dump"@) || contains(t, "credit_cards"@)
        || contains(t, "s3://"@) {
        AlertCategory::DataLeak
    } else if contains(t, "sudo"@) || contains(t, "root"@) || contains(t, "privilege"@) || contains(
        t,
        "chmod 777"@,
    ) || contains(t, "chown"@) || contains(t, "setuid"@) {
        AlertCategory::PrivilegeEscalation
    } else if contains(t, "oom"@) || contains(t, "out of memory"@) || contains(t, "500 internal"@)
        || contains(t, "502 bad gateway"@) || contains(t, "504 gateway"@) || contains(
        t,
        "exception"@,
    ) || contains(t, "crash"@) || contains(t, "panic"@) || contains(t, "fatal"@) {
        AlertCategory::SystemAnomaly
    } else {
        AlertCategory::General
    }
}

/// The text a threat is categorised by: the line, a space, and the reasons
/// separated by spaces.
pub open spec fn categorize_text(raw: Seq<char>, reasons: Seq<Seq<char>>) -> Seq<char> {
    raw + " "@ + join(reasons, " "@)
}

/// The category of a threat, from the line and the reasons given for it.
pub fn categorize_threat(raw_message: &str, reasons: &[String]) -> (r: AlertCategory)
    ensures
        r == spec_categorize(categorize_text(raw_message@, views(reasons@))),
{
    let joined = crate::text::join_strings(reasons, " ");
    let mut text = concat2(raw_message, " ");
    text.append(joined.as_str());
    let lower = to_lower(text.as_str());
    let c = to_chars(lower.as_str());
    let t = c.as_slice();
    if has_lit(t, "failed password") || has_lit(t, "authentication failure") || has_lit(
        t,
        "invalid user",
    ) || has_lit(t, "ssh") || has_lit(t, "login") || has_lit(t, "brute") || has_lit(
        t,
        "401 unauthorized",
    ) || has_lit(t, "access denied") {
        AlertCategory::Authentication
    } else if has_lit(t, "leak") || has_lit(t, "exfiltration") || has_lit(t, "export") || has_lit(
        t,
        "transfer",
    ) || has_lit(t, "sensible") || has_lit(t, "secret") || has_lit(t, "password") || has_lit(
        t,
        "dump",
    ) || has_lit(t, "credit_cards") || has_lit(t, "s3://") {
        AlertCategory::DataLeak
    } else if has_lit(t, "sudo") || has_lit(t, "root") || has_lit(t, "privilege") || has_lit(
        t,
        "chmod 777",
    ) || has_lit(t, "chown") || has_lit(t, "setuid") {
        AlertCategory::PrivilegeEscalation
    } else if has_lit(t, "oom") || has_lit(t, "out of memory") || has_lit(t, "500 internal")
        || has_lit(t, "502 bad gateway") || has_lit(t, "504 gateway") || has_lit(t, "exception")
        || has_lit(t, "crash") || has_lit(t, "panic") || has_lit(t, "fatal") {
        AlertCategory::SystemAnomaly
    } else {
        AlertCategory::General
    }
}

// ───────────────────────────── time correlation ─────────────────────────────

/// The burst family of a line: data transfers, authentication failures,
/// privilege changes, or ordinary operations.
pub open spec fn spec_classify_event(line: Seq<char>) -> Seq<char> {
    let l = lowercase_of(line);
    if contains(l, "transfer"@) || contains(l, "scp"@) || contains(l, "curl"@) || contains(
        l,
        "dump"@,
    ) {
        "data_transfer_burst"@
    } else if contains(l, "failed"@) || contains(l, "invalid user"@) || contains(l, "ssh"@) {
        "auth_failure_burst"@
    } else if contains(l, "sudo"@) || contains(l, "chmod"@) || contains(l, "chown"@) {
        "privilege_escalation_burst"@
    } else {
        "operational_event"@
    }
}

/// Events older than this many seconds leave the correlation window.
pub const CORRELATION_WINDOW_SECS: i64 = 300;

/// The events of a family that stay in the window after an event at `now`:
/// the oldest leave while they are more than 300 seconds older than `now`.
pub open spec fn prune(events: Seq<i64>, now: i64) -> Seq<i64>
    decreases events.len(),
{
    if events.len() > 0 && now - events[0] > CORRELATION_WINDOW_SECS {
        prune(events.drop_first(), now)
    } else {
        events
    }
}

/// The recorded events of a family, empty when it has none.
pub open spec fn history_of(h: Seq<(Seq<char>, Seq<i64>)>, family: Seq<char>) -> Seq<i64>
    decreases h.len(),
{
    if h.len() == 0 {
        Seq::<i64>::empty()
    } else if h.last().0 == family {
        h.last().1
    } else {
        history_of(h.drop_last(), family)
    }
}

/// Correlates events of the same family over time: it keeps, for each family,
/// the timestamps of its recent events.
pub struct TimeCorrelator {
    event_threshold: u64,
    recent_events: Vec<(String, Vec<i64>)>,
}

/// What the correlator reports for one event: its family and the timestamps
/// of the earlier events of that family still in the window.
pub struct CorrelationObservation {
    pub family: String,
    pub earlier: Vec<i64>,
}

impl TimeCorrelator {
    /// The recorded events of each family.
    pub closed spec fn history(&self) -> Seq<(Seq<char>, Seq<i64>)> {
        self.recent_events@.map_values(|e: (String, Vec<i64>)| (e.0@, e.1@))
    }

    /// The number of correlated events from which a burst is reported.
    pub closed spec fn threshold(&self) -> u64 {
        self.event_threshold
    }

    /// A correlator with no events; the window length is fixed at 300 seconds.
    pub fn new(_window_seconds: u64, event_threshold: u64) -> (r: TimeCorrelator)
        ensures
            r.history().len() == 0,
            r.threshold() == event_threshold,
    {
        let r = TimeCorrelator { event_threshold, recent_events: Vec::new() };
        assert(r.history() =~= Seq::<(Seq<char>, Seq<i64>)>::empty());
        r
    }

    /// The number of correlated events from which a burst is reported.
    pub fn event_threshold(&self) -> (r: u64)
        ensures
            r == self.threshold(),
    {
        self.event_threshold
    }

    /// The burst family of a line.
    pub fn classify_event(log_line: &str) -> (r: String)
        ensures
            r@ == spec_classify_event(log_line@),
    {
        let lower = to_lower(log_line);
        let c = to_chars(lower.as_str());
        let l = c.as_slice();
        if has_lit(l, "transfer") || has_lit(l, "scp") || has_lit(l, "curl") || has_lit(l, "dump") {
            owned("data_transfer_burst")
        } else if has_lit(l, "failed") || has_lit(l, "invalid user") || has_lit(l, "ssh") {
            owned("auth_failure_burst")
        } else if has_lit(l, "sudo") || has_lit(l, "chmod") || has_lit(l, "chown") {
            owned("privilege_escalation_burst")
        } else {
            owned("operational_event")
        }
    }

    fn find_family(&self, family: &str) -> (r: Option<usize>)
        ensures
            match r {
                Some(k) => k < self.history().len() && self.history()[k as int].0 == family@
                    && (forall|j: int| k < j < self.history().len() ==> self.history()[j].0 != family@)
                    && history_of(self.history(), family@) == self.history()[k as int].1,
                None => history_of(self.history(), family@) == Seq::<i64>::empty(),
            },
    {
        let ghost h = self.history();
        let mut i: usize = self.recent_events.len();
        assert(h.take(h.len() as int) =~= h);
        while i > 0
            invariant
                i <= self.recent_events@.len(),
                h == self.history(),
                history_of(h, family@) == history_of(h.take(i as int), family@),
                forall|j: int| i <= j < h.len() ==> h[j].0 != family@,
            decreases i,
        {
            assert(h.take(i as int).drop_last() =~= h.take(i - 1));
            assert(h.take(i as int).last() == h[i - 1]);
            if crate::text::str_eq(self.recent_events[i - 1].0.as_str(), family) {
                return Some(i - 1);
            }
            i = i - 1;
        }
        assert(h.take(0) =~= Seq::<(Seq<char>, Seq<i64>)>::empty());
        None
    }

    /// Records an event: returns its family and the earlier events of that
    /// family, then forgets those more than 300 seconds older than it and adds
    /// it to the family's events.
    pub fn observe(&mut self, log_line: &str, timestamp: i64) -> (r: CorrelationObservation)
        ensures
            r.family@ == spec_classify_event(log_line@),
            r.earlier@ == history_of(old(self).history(), r.family@),
            history_of(final(self).history(), r.family@) == prune(r.earlier@, timestamp).push(
                timestamp,
            ),
            forall|f: Seq<char>|
                f != r.family@ ==> history_of(final(self).history(), f) == history_of(
                    old(self).history(),
                    f,
                ),
            final(self).threshold() == old(self).threshold(),
    {
        let family = Self::classify_event(log_line);
        let ghost h = self.history();
        let idx = self.find_family(family.as_str());
        let earlier: Vec<i64> = match idx {
            Some(k) => self.recent_events[k].1.clone(),
            None => Vec::new(),
        };
        assert(earlier@ == history_of(h, family@));
        let mut kept = prune_exec(&earlier, timestamp);
        kept.push(timestamp);
        let entry = (family.clone(), kept);
        match idx {
            Some(k) => {
                self.recent_events.set(k, entry);
                proof {
                    let h2 = self.history();
                    assert(h2 =~= h.update(k as int, (family@, prune(earlier@, timestamp).push(timestamp))));
                    lemma_history_update(h, k as int, family@, prune(earlier@, timestamp).push(timestamp));
                }
            },
            None => {
                self.recent_events.push(entry);
                proof {
                    let h2 = self.history();
                    assert(h2 =~= h.push((family@, prune(earlier@, timestamp).push(timestamp))));
                    assert(h2.drop_last() =~= h);
                }
            },
        }
        CorrelationObservation { family, earlier }
    }
}

proof fn lemma_history_update(h: Seq<(Seq<char>, Seq<i64>)>, k: int, f: Seq<char>, v: Seq<i64>)
    requires
        0 <= k < h.len(),
        h[k].0 == f,
        forall|j: int| k < j < h.len() ==> h[j].0 != f,
    ensures
        history_of(h.update(k, (f, v)), f) == v,
        forall|g: Seq<char>| g != f ==> history_of(h.update(k, (f, v)), g) == history_of(h, g),
    decreases h.len(),
{
    let h2 = h.update(k, (f, v));
    if k == h.len() - 1 {
        assert(h2.drop_last() =~= h.drop_last());
        assert forall|g: Seq<char>| g != f implies history_of(h2, g) == history_of(h, g) by {
            assert(h2.last().0 == f);
            assert(h.last().0 == f);
        }
    } else {
        assert(h2.drop_last() =~= h.drop_last().update(k, (f, v)));
        lemma_history_update(h.drop_last(), k, f, v);
        assert(h2.last() == h.last());
        assert forall|g: Seq<char>| g != f implies history_of(h2, g) == history_of(h, g) by {
            if h.last().0 != g {
                assert(history_of(h2, g) == history_of(h2.drop_last(), g));
                assert(history_of(h, g) == history_of(h.drop_last(), g));
                assert(history_of(h.drop_last().update(k, (f, v)), g) == history_of(h.drop_last(), g));
            } else {
                assert(history_of(h2, g) == h2.last().1);
            }
        }
    }
}

fn prune_exec(events: &Vec<i64>, now: i64) -> (r: Vec<i64>)
    ensures
        r@ == prune(events@, now),
{
    let mut start: usize = 0;
    assert(events@.skip(0) =~= events@);
    while start < events.len() && (now as i128) - (events[start] as i128)
        > CORRELATION_WINDOW_SECS as i128
        invariant
            start <= events@.len(),
            prune(events@, now) == prune(events@.skip(start as int), now),
        decreases events@.len() - start,
    {
        assert(events@.skip(start as int).drop_first() =~= events@.skip(start + 1));
        start = start + 1;
    }
    let mut r: Vec<i64> = Vec::new();
    let mut i: usize = start;
    while i < events.len()
        invariant
            start <= i <= events@.len(),
            r@ == events@.subrange(start as int, i as int),
        decreases events@.len() - i,
    {
        r.push(events[i]);
        i = i + 1;
        assert(r@ =~= events@.subrange(start as int, i as int));
    }
    assert(r@ =~= events@.skip(start as int));
    r
}

// ──────────────────────────── DLP and rule engine ────────────────────────────

/// Number of built-in DLP signatures.
pub const DLP_SIGNATURE_COUNT: usize = 9;

/// The built-in DLP signatures: pattern, description and severity.
pub open spec fn dlp_signature(k: int) -> (Seq<char>, Seq<char>, AlertLevel) {
    if k == 0 {
        (r"(?i)(?:-----)?BEGIN\s+(?:RSA\s+)?PRIVATE\s+KEY(?:-----)?"@, "Clé privée RSA / SSH exposée dans les logs"@, AlertLevel::High)
    } else if k == 1 {
        (r"(?i)(?:credit_card|credit[_\s-]?cards|\b(?:4[0-9]{12}(?:[0-9]{3})?|5[1-5][0-9]{14}|3[47][0-9]{13})\b)"@, "Numéros de carte bancaire ou données de paiement exposées"@, AlertLevel::High)
    } else if k == 2 {
        (r"(?i)(?:api[_-]?key|access[_-]?token|bearer\s+[a-z0-9_\-\.]{20,})"@, "Token API ou secret d'accès exposé"@, AlertLevel::High)
    } else if k == 3 {
        (r"(?i)(?:password|passwd|pwd)\s*[=:]\s*['\x22]?\S{4,}"@, "Mot de passe en clair détecté"@, AlertLevel::High)
    } else if k == 4 {
        (r"(?i)(?:exfiltration|data_leak|dump\.csv|customer_records|database_dump)"@, "Indicateur explicite d'exfiltration ou de fuite de données"@, AlertLevel::High)
    } else if k == 5 {
        (r"(?i)cmd=vi\s+/etc/(?:passwd|shadow|sudoers)"@, "Tentative de modification directe des fichiers d'authentification système"@, AlertLevel::High)
    } else if k == 6 {
        (r"(?i)(?:chmod\s+777|chown\s+root)\s+/etc/"@, "Élévation de privilèges ou altération de permissions critiques"@, AlertLevel::High)
    } else if k == 7 {
        (r"(?i)(?:out of memory|kernel panic|fatal error|segmentation fault|segfault)"@, "Crash critique ou panne système"@, AlertLevel::Moderate)
    } else {
        (r"(?i)(?:curl|wget)\s+.*\|\s*(?:sh|bash|zsh)"@, "Exécution suspecte de script distant via pipe (Remote Code Execution)"@, AlertLevel::High)
    }
}

fn dlp_signature_exec(k: usize) -> (r: (&'static str, &'static str, AlertLevel))
    requires
        k < DLP_SIGNATURE_COUNT,
    ensures
        r.0@ == dlp_signature(k as int).0,
        r.1@ == dlp_signature(k as int).1,
        r.2 == dlp_signature(k as int).2,
{
    if k == 0 {
        (r"(?i)(?:-----)?BEGIN\s+(?:RSA\s+)?PRIVATE\s+KEY(?:-----)?", "Clé privée RSA / SSH exposée dans les logs", AlertLevel::High)
    } else if k == 1 {
        (r"(?i)(?:credit_card|credit[_\s-]?cards|\b(?:4[0-9]{12}(?:[0-9]{3})?|5[1-5][0-9]{14}|3[47][0-9]{13})\b)", "Numéros de carte bancaire ou données de paiement exposées", AlertLevel::High)
    } else if k == 2 {
        (r"(?i)(?:api[_-]?key|access[_-]?token|bearer\s+[a-z0-9_\-\.]{20,})", "Token API ou secret d'accès exposé", AlertLevel::High)
    } else if k == 3 {
        (r"(?i)(?:password|passwd|pwd)\s*[=:]\s*['\x22]?\S{4,}", "Mot de passe en clair détecté", AlertLevel::High)
    } else if k == 4 {
        (r"(?i)(?:exfiltration|data_leak|dump\.csv|customer_records|database_dump)", "Indicateur explicite d'exfiltration ou de fuite de données", AlertLevel::High)
    } else if k == 5 {
        (r"(?i)cmd=vi\s+/etc/(?:passwd|shadow|sudoers)", "Tentative de modification directe des fichiers d'authentification système", AlertLevel::High)
    } else if k == 6 {
        (r"(?i)(?:chmod\s+777|chown\s+root)\s+/etc/", "Élévation de privilèges ou altération de permissions critiques", AlertLevel::High)
    } else if k == 7 {
        (r"(?i)(?:out of memory|kernel panic|fatal error|segmentation fault|segfault)", "Crash critique ou panne système", AlertLevel::Moderate)
    } else {
        (r"(?i)(?:curl|wget)\s+.*\|\s*(?:sh|bash|zsh)", "Exécution suspecte de script distant via pipe (Remote Code Execution)", AlertLevel::High)
    }
}

/// A finding of the rule engine: a reason and a severity.
pub type Finding = (Seq<char>, AlertLevel);

/// The findings of the first `n` DLP signatures on a line.
pub open spec fn dlp_hits(raw: Seq<char>, n: int) -> Seq<Finding>
    decreases n,
{
    if n <= 0 {
        Seq::<Finding>::empty()
    } else {
        let sig = dlp_signature(n - 1);
        dlp_hits(raw, n - 1) + if regex_matches(sig.0, raw) {
            seq![(sig.1, sig.2)]
        } else {
            Seq::<Finding>::empty()
        }
    }
}

/// The findings for blacklisted addresses that occur in the line.
pub open spec fn ip_hits(ips: Seq<Seq<char>>, raw: Seq<char>) -> Seq<Finding>
    decreases ips.len(),
{
    if ips.len() == 0 {
        Seq::<Finding>::empty()
    } else {
        ip_hits(ips.drop_last(), raw) + if contains(raw, ips.last()) {
            seq![("Connexion/Transfert avec IP suspecte blacklistée: "@ + ips.last(), AlertLevel::High)]
        } else {
            Seq::<Finding>::empty()
        }
    }
}

/// Whether the lower-case line mentions a watched user.
pub open spec fn mentions_user(lower: Seq<char>, u: Seq<char>) -> bool {
    contains(lower, "user "@ + u) || contains(lower, "user="@ + u) || contains(lower, "sudo: "@ + u)
}

/// The findings for watched users mentioned in the lower-case line.
pub open spec fn user_hits(users: Seq<Seq<char>>, lower: Seq<char>) -> Seq<Finding>
    decreases users.len(),
{
    if users.len() == 0 {
        Seq::<Finding>::empty()
    } else {
        user_hits(users.drop_last(), lower) + if mentions_user(lower, users.last()) {
            seq![("Activité liée à un utilisateur surveillé / compromis: "@ + users.last(), AlertLevel::Moderate)]
        } else {
            Seq::<Finding>::empty()
        }
    }
}

/// The first non-blank piece, trimmed, that occurs in `hay` (compared in
/// lower case when `fold`).
pub open spec fn first_hit(pieces: Seq<Seq<char>>, hay: Seq<char>, fold: bool) -> Option<Seq<char>>
    decreases pieces.len(),
{
    if pieces.len() == 0 {
        None
    } else {
        let p = trim(pieces[0]);
        if p.len() > 0 && contains(
            hay,
            if fold {
                lowercase_of(p)
            } else {
                p
            },
        ) {
            Some(p)
        } else {
            first_hit(pieces.drop_first(), hay, fold)
        }
    }
}

/// The model of a detection rule: name, kind, pattern, severity, enabled.
pub struct RuleModel {
    pub name: Seq<char>,
    pub kind: RuleType,
    pub pattern: Seq<char>,
    pub severity: AlertLevel,
    pub enabled: bool,
}

/// The model of a detection rule.
pub open spec fn rule_model(r: DetectionRule) -> RuleModel {
    RuleModel {
        name: r.name@,
        kind: r.rule_type,
        pattern: r.pattern@,
        severity: r.severity,
        enabled: r.enabled,
    }
}

/// The models of a list of rules.
pub open spec fn rule_models(rs: Seq<DetectionRule>) -> Seq<RuleModel> {
    rs.map_values(|r: DetectionRule| rule_model(r))
}

/// What one rule finds in a line (`lower` is the line in lower case): keyword
/// and watched-user rules look for the first of their `|`-separated entries in
/// the lower-case line, address rules in the line itself, regular-expression
/// rules match the line, template rules look for their pattern in the
/// lower-case line; time-window rules and disabled rules find nothing.
pub open spec fn rule_finding(r: RuleModel, raw: Seq<char>, lower: Seq<char>) -> Option<Finding> {
    if !r.enabled {
        None
    } else {
        match r.kind {
            RuleType::Keyword => match first_hit(split_char(r.pattern, '|'), lower, true) {
                Some(p) => Some(
                    ("Règle '"@ + r.name + "' déclenchée (mot-clé '"@ + p + "')"@, r.severity),
                ),
                None => None,
            },
            RuleType::IpBlacklist => match first_hit(split_char(r.pattern, '|'), raw, false) {
                Some(p) => Some(("Règle '"@ + r.name + "' déclenchée (IP '"@ + p + "')"@, r.severity)),
                None => None,
            },
            RuleType::UserBlacklist => match first_hit(split_char(r.pattern, '|'), lower, true) {
                Some(p) => Some(
                    ("Règle '"@ + r.name + "' déclenchée (Utilisateur '"@ + p + "')"@, r.severity),
                ),
                None => None,
            },
            RuleType::Regex => if regex_matches(r.pattern, raw) {
                Some(("Règle Regex '"@ + r.name + "' déclenchée"@, r.severity))
            } else {
                None
            },
            RuleType::TemplateMatch => if contains(lower, lowercase_of(r.pattern)) {
                Some(("Règle Template '"@ + r.name + "' déclenchée"@, r.severity))
            } else {
                None
            },
            RuleType::TimeWindow => None,
        }
    }
}

/// The findings of the rules, in order.
pub open spec fn rule_hits(rules: Seq<RuleModel>, raw: Seq<char>, lower: Seq<char>) -> Seq<Finding>
    decreases rules.len(),
{
    if rules.len() == 0 {
        Seq::<Finding>::empty()
    } else {
        rule_hits(rules.drop_last(), raw, lower) + match rule_finding(rules.last(), raw, lower) {
            Some(f) => seq![f],
            None => Seq::<Finding>::empty(),
        }
    }
}

/// Everything the rule engine finds in a line, in order: built-in DLP
/// signatures, blacklisted addresses, watched users, then the rules.
pub open spec fn spec_evaluate(
    ips: Seq<Seq<char>>,
    users: Seq<Seq<char>>,
    rules: Seq<RuleModel>,
    raw: Seq<char>,
) -> Seq<Finding> {
    let lower = lowercase_of(raw);
    dlp_hits(raw, 9) + ip_hits(ips, raw) + user_hits(users, lower) + rule_hits(rules, raw, lower)
}

/// The models of a list of findings.
pub open spec fn findings_view(v: Seq<(String, AlertLevel)>) -> Seq<Finding> {
    v.map_values(|f: (String, AlertLevel)| (f.0@, f.1))
}

/// The deterministic signature engine: built-in DLP signatures, blacklisted
/// addresses and watched users, plus the configurable rules it is given.
pub struct RuleEngine {
    blacklisted_ips: Vec<String>,
    blacklisted_users: Vec<String>,
}

impl RuleEngine {
    /// The blacklisted addresses.
    pub closed spec fn ips(&self) -> Seq<Seq<char>> {
        views(self.blacklisted_ips@)
    }

    /// The watched users.
    pub closed spec fn users(&self) -> Seq<Seq<char>> {
        views(self.blacklisted_users@)
    }

    /// An engine with the built-in blacklists: three addresses and two users.
    pub fn new() -> (r: RuleEngine)
        ensures
            r.ips() == seq!["185.220.101.5"@, "192.168.1.42"@, "10.0.0.99"@],
            r.users() == seq!["attacker19"@, "cyrus"@],
    {
        let mut ips: Vec<String> = Vec::new();
        ips.push(owned("185.220.101.5"));
        ips.push(owned("192.168.1.42"));
        ips.push(owned("10.0.0.99"));
        let mut users: Vec<String> = Vec::new();
        users.push(owned("attacker19"));
        users.push(owned("cyrus"));
        let r = RuleEngine { blacklisted_ips: ips, blacklisted_users: users };
        assert(r.ips() =~= seq!["185.220.101.5"@, "192.168.1.42"@, "10.0.0.99"@]);
        assert(r.users() =~= seq!["attacker19"@, "cyrus"@]);
        r
    }

    /// Evaluates a raw line against the built-in signatures, the blacklists and
    /// the given rules; returns each finding with its severity.
    pub fn evaluate(&self, raw_message: &str, rules: &[DetectionRule]) -> (r: Vec<(String, AlertLevel)>)
        ensures
            findings_view(r@) == spec_evaluate(self.ips(), self.users(), rule_models(rules@), raw_message@),
    {
        let lower = to_lower(raw_message);
        let lower_c = to_chars(lower.as_str());
        let raw_c = to_chars(raw_message);
        let mut out: Vec<(String, AlertLevel)> = Vec::new();
        // 1. built-in DLP signatures
        let mut k: usize = 0;
        while k < DLP_SIGNATURE_COUNT
            invariant
                k <= 9,
                findings_view(out@) == dlp_hits(raw_message@, k as int),
            decreases 9 - k,
        {
            let (pat, desc, sev) = dlp_signature_exec(k);
            let ghost before = findings_view(out@);
            if regex_is_match(pat, raw_message) {
                out.push((owned(desc), sev));
            }
            k = k + 1;
            assert(findings_view(out@) =~= dlp_hits(raw_message@, k as int));
        }
        // 2. blacklisted addresses
        let ghost base1 = findings_view(out@);
        let mut i: usize = 0;
        while i < self.blacklisted_ips.len()
            invariant
                i <= self.blacklisted_ips@.len(),
                lower_c@ == lowercase_of(raw_message@),
                raw_c@ == raw_message@,
                base1 == dlp_hits(raw_message@, 9),
                findings_view(out@) == base1 + ip_hits(self.ips().take(i as int), raw_message@),
            decreases self.blacklisted_ips@.len() - i,
        {
            assert(self.ips().take(i + 1).drop_last() =~= self.ips().take(i as int));
            let ip = &self.blacklisted_ips[i];
            assert(self.ips().take(i + 1).last() == ip@);
            let ip_c = to_chars(ip.as_str());
            let ghost before = findings_view(out@);
            if crate::text::contains_chars(raw_c.as_slice(), ip_c.as_slice()) {
                let reason = concat2("Connexion/Transfert avec IP suspecte blacklistée: ", ip.as_str());
                let ghost f = (reason@, AlertLevel::High);
                out.push((reason, AlertLevel::High));
                assert(findings_view(out@) =~= before + seq![f]);
            } else {
                assert(findings_view(out@) =~= before + Seq::<Finding>::empty());
            }
            i = i + 1;
            assert(findings_view(out@) =~= base1 + ip_hits(self.ips().take(i as int), raw_message@));
        }
        assert(self.ips().take(i as int) =~= self.ips());
        // 3. watched users
        let ghost base2 = findings_view(out@);
        let mut j: usize = 0;
        while j < self.blacklisted_users.len()
            invariant
                j <= self.blacklisted_users@.len(),
                lower_c@ == lowercase_of(raw_message@),
                raw_c@ == raw_message@,
                findings_view(out@) == base2 + user_hits(self.users().take(j as int), lower_c@),
            decreases self.blacklisted_users@.len() - j,
        {
            assert(self.users().take(j + 1).drop_last() =~= self.users().take(j as int));
            let u = self.blacklisted_users[j].as_str();
            assert(self.users().take(j + 1).last() == u@);
            let ghost before = findings_view(out@);
            let n1 = to_chars(concat2("user ", u).as_str());
            let n2 = to_chars(concat2("user=", u).as_str());
            let n3 = to_chars(concat2("sudo: ", u).as_str());
            let lc = lower_c.as_slice();
            if crate::text::contains_chars(lc, n1.as_slice()) || crate::text::contains_chars(
                lc,
                n2.as_slice(),
            ) || crate::text::contains_chars(lc, n3.as_slice()) {
                let reason = concat2("Activité liée à un utilisateur surveillé / compromis: ", u);
                let ghost f = (reason@, AlertLevel::Moderate);
                out.push((reason, AlertLevel::Moderate));
                assert(findings_view(out@) =~= before + seq![f]);
            } else {
                assert(findings_view(out@) =~= before + Seq::<Finding>::empty());
            }
            j = j + 1;
            assert(findings_view(out@) =~= base2 + user_hits(self.users().take(j as int), lower_c@));
        }
        assert(self.users().take(j as int) =~= self.users());
        // 4. configured rules
        let ghost base3 = findings_view(out@);
        let ghost rm = rule_models(rules@);
        let mut q: usize = 0;
        while q < rules.len()
            invariant
                q <= rules@.len(),
                rm == rule_models(rules@),
                lower_c@ == lowercase_of(raw_message@),
                raw_c@ == raw_message@,
                findings_view(out@) == base3 + rule_hits(rm.take(q as int), raw_message@, lower_c@),
            decreases rules@.len() - q,
        {
            assert(rm.take(q + 1).drop_last() =~= rm.take(q as int));
            let ghost before = findings_view(out@);
            assert(rm.take(q + 1).last() == rule_model(rules@[q as int]));
            match rule_finding_exec(&rules[q], raw_message, raw_c.as_slice(), lower_c.as_slice()) {
                Some(f) => {
                    let ghost fv = (f.0@, f.1);
                    out.push(f);
                    assert(findings_view(out@) =~= before + seq![fv]);
                },
                None => {
                    assert(findings_view(out@) =~= before + Seq::<Finding>::empty());
                },
            }
            q = q + 1;
            assert(findings_view(out@) =~= base3 + rule_hits(rm.take(q as int), raw_message@, lower_c@));
        }
        assert(rm.take(q as int) =~= rm);
        out
    }
}

fn first_hit_exec(pieces: &Vec<Vec<char>>, hay: &[char], fold: bool) -> (r: Option<Vec<char>>)
    ensures
        match r {
            Some(p) => first_hit(pieces@.map_values(|p: Vec<char>| p@), hay@, fold) == Some(p@),
            None => first_hit(pieces@.map_values(|p: Vec<char>| p@), hay@, fold) is None,
        },
{
    let ghost ps = pieces@.map_values(|p: Vec<char>| p@);
    let mut i: usize = 0;
    assert(ps.skip(0) =~= ps);
    while i < pieces.len()
        invariant
            i <= pieces@.len(),
            ps == pieces@.map_values(|p: Vec<char>| p@),
            first_hit(ps, hay@, fold) == first_hit(ps.skip(i as int), hay@, fold),
        decreases pieces@.len() - i,
    {
        assert(ps.skip(i as int).drop_first() =~= ps.skip(i + 1));
        assert(ps.skip(i as int)[0] == pieces@[i as int]@);
        let p = trim_chars(pieces[i].as_slice());
        if p.len() > 0 {
            let found = if fold {
                let ps_str = from_chars(p.as_slice());
                let low = to_lower(ps_str.as_str());
                let lc = to_chars(low.as_str());
                crate::text::contains_chars(hay, lc.as_slice())
            } else {
                crate::text::contains_chars(hay, p.as_slice())
            };
            if found {
                return Some(p);
            }
        }
        i = i + 1;
    }
    None
}

/// "Règle '" + name + middle + piece + "')".
fn rule_reason(name: &str, middle: &str, piece: &[char]) -> (r: String)
    ensures
        r@ == "Règle '"@ + name@ + middle@ + piece@ + "')"@,
{
    let mut s = owned("Règle '");
    s.append(name);
    s.append(middle);
    let p = from_chars(piece);
    s.append(p.as_str());
    s.append("')");
    s
}

fn rule_finding_exec(rule: &DetectionRule, raw: &str, raw_c: &[char], lower_c: &[char]) -> (r: Option<(String, AlertLevel)>)
    requires
        raw_c@ == raw@,
        lower_c@ == lowercase_of(raw@),
    ensures
        match r {
            Some(f) => rule_finding(rule_model(*rule), raw@, lower_c@) == Some((f.0@, f.1)),
            None => rule_finding(rule_model(*rule), raw@, lower_c@) is None,
        },
{
    if !rule.enabled {
        return None;
    }
    let pat_c = to_chars(rule.pattern.as_str());
    match rule.rule_type {
        RuleType::Keyword => {
            let pieces = split_chars(pat_c.as_slice(), '|');
            assert(pieces@.map_values(|p: Vec<char>| p@) =~= split_char(rule.pattern@, '|'));
            match first_hit_exec(&pieces, lower_c, true) {
                Some(p) => Some((rule_reason(rule.name.as_str(), "' déclenchée (mot-clé '", p.as_slice()), rule.severity)),
                None => None,
            }
        },
        RuleType::IpBlacklist => {
            let pieces = split_chars(pat_c.as_slice(), '|');
            assert(pieces@.map_values(|p: Vec<char>| p@) =~= split_char(rule.pattern@, '|'));
            match first_hit_exec(&pieces, raw_c, false) {
                Some(p) => Some((rule_reason(rule.name.as_str(), "' déclenchée (IP '", p.as_slice()), rule.severity)),
                None => None,
            }
        },
        RuleType::UserBlacklist => {
            let pieces = split_chars(pat_c.as_slice(), '|');
            assert(pieces@.map_values(|p: Vec<char>| p@) =~= split_char(rule.pattern@, '|'));
            match first_hit_exec(&pieces, lower_c, true) {
                Some(p) => Some((rule_reason(rule.name.as_str(), "' déclenchée (Utilisateur '", p.as_slice()), rule.severity)),
                None => None,
            }
        },
        RuleType::Regex => {
            if regex_is_match(rule.pattern.as_str(), raw) {
                let mut s = owned("Règle Regex '");
                s.append(rule.name.as_str());
                s.append("' déclenchée");
                Some((s, rule.severity))
            } else {
                None
            }
        },
        RuleType::TemplateMatch => {
            let low = to_lower(rule.pattern.as_str());
            let lc = to_chars(low.as_str());
            if crate::text::contains_chars(lower_c, lc.as_slice()) {
                let mut s = owned("Règle Template '");
                s.append(rule.name.as_str());
                s.append("' déclenchée");
                Some((s, rule.severity))
            } else {
                None
            }
        },
        RuleType::TimeWindow => None,
    }
}

// ───────────────────────────────── laws ─────────────────────────────────

/// The correlation window keeps the newest events of a family, in order,
/// and after an event at `now` none of those kept at its head is more than
/// five minutes older than `now`.
pub proof fn law_window_keeps_recent(events: Seq<i64>, now: i64)
    ensures
        prune(events, now).len() <= events.len(),
        prune(events, now) =~= events.subrange(events.len() - prune(events, now).len(), events.len() as int),
        prune(events, now).len() > 0 ==> now - prune(events, now)[0] <= CORRELATION_WINDOW_SECS,
    decreases events.len(),
{
    if events.len() > 0 && now - events[0] > CORRELATION_WINDOW_SECS {
        let rest = events.drop_first();
        law_window_keeps_recent(rest, now);
        let k = prune(rest, now).len();
        assert(rest.subrange(rest.len() - k, rest.len() as int) =~= events.subrange(
            events.len() - k,
            events.len() as int,
        ));
    } else {
        assert(events.subrange(0, events.len() as int) =~= events);
    }
}

/// The findings of rules placed around a disabled rule are those of the same
/// rules without it.
proof fn lemma_disabled_rule_hits(a: Seq<RuleModel>, r: RuleModel, b: Seq<RuleModel>, raw: Seq<char>, lower: Seq<char>)
    requires
        !r.enabled,
    ensures
        rule_hits(a + seq![r] + b, raw, lower) == rule_hits(a + b, raw, lower),
    decreases b.len(),
{
    if b.len() == 0 {
        assert((a + seq![r] + b).drop_last() =~= a);
        assert(a + b =~= a);
    } else {
        lemma_disabled_rule_hits(a, r, b.drop_last(), raw, lower);
        assert((a + seq![r] + b).drop_last() =~= a + seq![r] + b.drop_last());
        assert((a + b).drop_last() =~= a + b.drop_last());
        assert((a + seq![r] + b).last() == b.last());
        assert((a + b).last() == b.last());
    }
}

/// A disabled rule finds nothing: wherever it stands among the rules, the
/// engine finds in a line exactly what it finds without it.
pub proof fn law_disabled_rule_ignored(
    ips: Seq<Seq<char>>,
    users: Seq<Seq<char>>,
    before: Seq<RuleModel>,
    r: RuleModel,
    after: Seq<RuleModel>,
    raw: Seq<char>,
)
    requires
        !r.enabled,
    ensures
        spec_evaluate(ips, users, before + seq![r] + after, raw) == spec_evaluate(ips, users, before + after, raw),
{
    lemma_disabled_rule_hits(before, r, after, raw, lowercase_of(raw));
}

/// Each built-in signature, address, watched user and rule gives at most one
/// finding.
proof fn lemma_hits_bounded(ips: Seq<Seq<char>>, users: Seq<Seq<char>>, rules: Seq<RuleModel>, raw: Seq<char>, lower: Seq<char>, n: int)
    requires
        n >= 0,
    ensures
        dlp_hits(raw, n).len() <= n,
        ip_hits(ips, raw).len() <= ips.len(),
        user_hits(users, lower).len() <= users.len(),
        rule_hits(rules, raw, lower).len() <= rules.len(),
    decreases n + ips.len() + users.len() + rules.len(),
{
    if n > 0 {
        lemma_hits_bounded(ips, users, rules, raw, lower, n - 1);
    }
    if ips.len() > 0 {
        lemma_hits_bounded(ips.drop_last(), users, rules, raw, lower, 0);
    }
    if users.len() > 0 {
        lemma_hits_bounded(ips, users.drop_last(), rules, raw, lower, 0);
    }
    if rules.len() > 0 {
        lemma_hits_bounded(ips, users, rules.drop_last(), raw, lower, 0);
    }
}

/// The engine gives at most one finding per built-in signature, blacklisted
/// address, watched user and rule.
pub proof fn law_findings_bounded(ips: Seq<Seq<char>>, users: Seq<Seq<char>>, rules: Seq<RuleModel>, raw: Seq<char>)
    ensures
        spec_evaluate(ips, users, rules, raw).len() <= DLP_SIGNATURE_COUNT + ips.len() + users.len() + rules.len(),
{
    lemma_hits_bounded(ips, users, rules, raw, lowercase_of(raw), 9);
}

/// A built-in signature is moderate exactly when it is the crash signature.
proof fn lemma_signature_severity(k: int)
    requires
        0 <= k < 9,
    ensures
        dlp_signature(k).2 == if dlp_signature(k).1 == "Crash critique ou panne système"@ {
            AlertLevel::Moderate
        } else {
            AlertLevel::High
        },
{
    reveal_strlit("Crash critique ou panne système");
    reveal_strlit("Clé privée RSA / SSH exposée dans les logs");
    reveal_strlit("Numéros de carte bancaire ou données de paiement exposées");
    reveal_strlit("Token API ou secret d'accès exposé");
    reveal_strlit("Mot de passe en clair détecté");
    reveal_strlit("Indicateur explicite d'exfiltration ou de fuite de données");
    reveal_strlit("Tentative de modification directe des fichiers d'authentification système");
    reveal_strlit("Élévation de privilèges ou altération de permissions critiques");
    reveal_strlit("Exécution suspecte de script distant via pipe (Remote Code Execution)");
    let crash = "Crash critique ou panne système"@;
    assert(crash.len() == 31);
    if k == 0 {
        assert(dlp_signature(k).1.len() == 42);
    } else if k == 1 {
        assert(dlp_signature(k).1.len() == 57);
    } else if k == 2 {
        assert(dlp_signature(k).1.len() == 34);
    } else if k == 3 {
        assert(dlp_signature(k).1.len() == 29);
    } else if k == 4 {
        assert(dlp_signature(k).1.len() == 58);
    } else if k == 5 {
        assert(dlp_signature(k).1.len() == 73);
    } else if k == 6 {
        assert(dlp_signature(k).1.len() == 62);
    } else if k == 8 {
        assert(dlp_signature(k).1.len() == 69);
    }
}

proof fn lemma_dlp_hits_from_signatures(raw: Seq<char>, n: int)
    requires
        0 <= n <= 9,
    ensures
        forall|i: int|
            0 <= i < dlp_hits(raw, n).len() ==> exists|k: int|
                0 <= k < n && #[trigger] dlp_hits(raw, n)[i] == (dlp_signature(k).1, dlp_signature(k).2),
    decreases n,
{
    if n > 0 {
        lemma_dlp_hits_from_signatures(raw, n - 1);
        let prev = dlp_hits(raw, n - 1);
        let sig = dlp_signature(n - 1);
        let h = dlp_hits(raw, n);
        assert forall|i: int| 0 <= i < h.len() implies exists|k: int|
            0 <= k < n && #[trigger] h[i] == (dlp_signature(k).1, dlp_signature(k).2) by {
            if i < prev.len() {
                assert(h[i] == prev[i]);
                let k = choose|k: int| 0 <= k < n - 1 && prev[i] == (dlp_signature(k).1, dlp_signature(k).2);
                assert(0 <= k < n && h[i] == (dlp_signature(k).1, dlp_signature(k).2));
            } else {
                assert(h[i] == (sig.1, sig.2));
                assert(0 <= n - 1 < n && h[i] == (dlp_signature(n - 1).1, dlp_signature(n - 1).2));
            }
        }
    }
}

/// The built-in signatures are of high severity, but for the crash signature
/// (out of memory, kernel panic, fatal error, segmentation fault), which is
/// moderate: every built-in finding is moderate exactly when it reports a
/// crash, and a line in which the crash pattern matches gets that moderate
/// finding.
pub proof fn law_builtin_severities(raw: Seq<char>)
    ensures
        forall|i: int|
            0 <= i < dlp_hits(raw, DLP_SIGNATURE_COUNT as int).len() ==> (#[trigger] dlp_hits(
                raw,
                DLP_SIGNATURE_COUNT as int,
            )[i]).1 == if dlp_hits(raw, DLP_SIGNATURE_COUNT as int)[i].0 == "Crash critique ou panne système"@ {
                AlertLevel::Moderate
            } else {
                AlertLevel::High
            },
        regex_matches(r"(?i)(?:out of memory|kernel panic|fatal error|segmentation fault|segfault)"@, raw)
            ==> dlp_hits(raw, DLP_SIGNATURE_COUNT as int).contains(
            ("Crash critique ou panne système"@, AlertLevel::Moderate),
        ),
{
    lemma_dlp_hits_from_signatures(raw, 9);
    let h = dlp_hits(raw, 9);
    assert forall|i: int| 0 <= i < h.len() implies (#[trigger] h[i]).1 == if h[i].0
        == "Crash critique ou panne système"@ {
        AlertLevel::Moderate
    } else {
        AlertLevel::High
    } by {
        let k = choose|k: int| 0 <= k < 9 && h[i] == (dlp_signature(k).1, dlp_signature(k).2);
        lemma_signature_severity(k);
    }
    if regex_matches(r"(?i)(?:out of memory|kernel panic|fatal error|segmentation fault|segfault)"@, raw) {
        let h8 = dlp_hits(raw, 8);
        let h7 = dlp_hits(raw, 7);
        assert(h8[h7.len() as int] == ("Crash critique ou panne système"@, AlertLevel::Moderate));
        assert(h[h7.len() as int] == h8[h7.len() as int]);
    }
}

/// Every marker of an authentication problem (failed password,
/// authentication failure, invalid user, ssh, login, brute force,
/// 401 unauthorized, access denied), found in the lower-case text, makes the
/// threat an authentication one.
pub proof fn law_authentication_markers(text: Seq<char>)
    ensures
        ({
            let t = lowercase_of(text);
            (contains(t, "failed password"@) || contains(t, "authentication failure"@) || contains(
                t,
                "invalid user"@,
            ) || contains(t, "ssh"@) || contains(t, "login"@) || contains(t, "brute"@) || contains(
                t,
                "401 unauthorized"@,
            ) || contains(t, "access denied"@)) ==> spec_categorize(text) == AlertCategory::Authentication
        }),
{
}

/// The other categories by their markers, in the lower-case text, once no
/// authentication marker is there: a leak marker (leak, exfiltration, export,
/// transfer, sensible, secret, password, dump, credit_cards, s3://) makes it a
/// data leak; otherwise a privilege marker (sudo, root, privilege, chmod 777,
/// chown, setuid) a privilege escalation; otherwise a failure marker (oom, out
/// of memory, 500 internal, 502 bad gateway, 504 gateway, exception, crash,
/// panic, fatal) a system anomaly; a text with none of them is general.
pub proof fn law_category_markers(text: Seq<char>)
    ensures
        ({
            let t = lowercase_of(text);
            let auth = contains(t, "failed password"@) || contains(t, "authentication failure"@)
                || contains(t, "invalid user"@) || contains(t, "ssh"@) || contains(t, "login"@)
                || contains(t, "brute"@) || contains(t, "401 unauthorized"@) || contains(
                t,
                "access denied"@,
            );
            let leak = contains(t, "leak"@) || contains(t, "exfiltration"@) || contains(t, "export"@)
                || contains(t, "transfer"@) || contains(t, "sensible"@) || contains(t, "secret"@)
                || contains(t, "password"@) || contains(t, "dump"@) || contains(t, "credit_cards"@)
                || contains(t, "s3://"@);
            let privilege = contains(t, "sudo"@) || contains(t, "root"@) || contains(t, "privilege"@)
                || contains(t, "chmod 777"@) || contains(t, "chown"@) || contains(t, "setuid"@);
            let anomaly = contains(t, "oom"@) || contains(t, "out of memory"@) || contains(
                t,
                "500 internal"@,
            ) || contains(t, "502 bad gateway"@) || contains(t, "504 gateway"@) || contains(
                t,
                "exception"@,
            ) || contains(t, "crash"@) || contains(t, "panic"@) || contains(t, "fatal"@);
            &&& (!auth && leak) ==> spec_categorize(text) == AlertCategory::DataLeak
            &&& (!auth && !leak && privilege) ==> spec_categorize(text)
                == AlertCategory::PrivilegeEscalation
            &&& (!auth && !leak && !privilege && anomaly) ==> spec_categorize(text)
                == AlertCategory::SystemAnomaly
            &&& (!auth && !leak && !privilege && !anomaly) ==> spec_categorize(text)
                == AlertCategory::General
        }),
{
}

/// The burst family of a line by its markers, in the lower-case line: a
/// transfer, scp, curl or dump is a data transfer; otherwise a failure, an
/// invalid user or ssh an authentication failure; otherwise sudo, chmod or
/// chown a privilege escalation; anything else an operational event.
pub proof fn law_burst_families(line: Seq<char>)
    ensures
        ({
            let l = lowercase_of(line);
            let transfer = contains(l, "transfer"@) || contains(l, "scp"@) || contains(l, "curl"@)
                || contains(l, "dump"@);
            let auth = contains(l, "failed"@) || contains(l, "invalid user"@) || contains(l, "ssh"@);
            let privilege = contains(l, "sudo"@) || contains(l, "chmod"@) || contains(l, "chown"@);
            &&& transfer ==> spec_classify_event(line) == "data_transfer_burst"@
            &&& (!transfer && auth) ==> spec_classify_event(line) == "auth_failure_burst"@
            &&& (!transfer && !auth && privilege) ==> spec_classify_event(line)
                == "privilege_escalation_burst"@
            &&& (!transfer && !auth && !privilege) ==> spec_classify_event(line)
                == "operational_event"@
        }),
{
}

} // verus!
