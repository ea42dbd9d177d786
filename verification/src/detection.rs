//! The multi-axis decision: structural template class, rule findings, event
//! bursts, semantic similarity and clustering outliers are scored, weighted
//! 30/20/25/15/10 into a composite risk, and the risk is mapped to a level.
//!
//! Component scores are in basis points (10 000 = 1.0); the composite is in
//! parts per million (1 000 000 = 1.0).
use vstd::prelude::*;
use crate::engine::{
    findings_view, spec_evaluate, rule_models, CorrelationObservation, Finding, RuleEngine,
    TimeCorrelator,
};
use crate::models::{Alert, AlertCategory, AlertLevel, DetectionRule, RawLog, Timestamp};
use crate::parser::{
    params_of, registered, template_of, LogParser, ParsedResult, TemplateClass,
};
use crate::text::{decimal, owned, u64_to_string, views};

verus! {

/// Capacity of the template catalogue of a pipeline.
pub const TEMPLATE_CAPACITY: usize = 10000;

/// The template axis: its score, its reason, and whether it is a critical hit.
pub open spec fn template_axis(template: Seq<char>, class: TemplateClass, is_new: bool) -> (
    u32,
    Option<Seq<char>>,
    bool,
) {
    match class {
        TemplateClass::CriticalThreat => (
            9000,
            Some("Template critique correspondant à un motif de fuite/attaque: '"@ + template + "'"@),
            true,
        ),
        TemplateClass::WarningAnomaly => (
            5000,
            Some("Template d'avertissement système: '"@ + template + "'"@),
            false,
        ),
        TemplateClass::StandardOperational => if is_new {
            (2000, Some("Template inédit observé pour la première fois (Zero-Day structural)"@), false)
        } else {
            (0, None, false)
        },
    }
}

/// Some finding has the given severity.
pub open spec fn has_severity(f: Seq<Finding>, l: AlertLevel) -> bool {
    exists|i: int| 0 <= i < f.len() && f[i].1 == l
}

/// The rule axis: 0.4 per finding up to 1.0; 1.0 with any high finding,
/// at least 0.85 with any moderate one.
pub open spec fn dlp_axis(f: Seq<Finding>) -> u32 {
    if f.len() == 0 {
        0
    } else {
        let base: u32 = if f.len() * 4000 >= 10000 {
            10000
        } else {
            (f.len() * 4000) as u32
        };
        if has_severity(f, AlertLevel::High) {
            10000
        } else if has_severity(f, AlertLevel::Moderate) {
            if base >= 8500 {
                base
            } else {
                8500
            }
        } else {
            base
        }
    }
}

/// The level for a composite risk in parts per million: 0.70 and above is
/// high, 0.35 moderate, 0.25 low, below that benign (archived without an
/// alert).
pub open spec fn level_for(composite: int) -> AlertLevel {
    if composite >= 700000 {
        AlertLevel::High
    } else if composite >= 350000 {
        AlertLevel::Moderate
    } else if composite >= 250000 {
        AlertLevel::Low
    } else {
        AlertLevel::Benign
    }
}

/// The weighted sum of the axes, in parts per million.
pub open spec fn weighted(dlp: int, tpl: int, sem: int, time: int, out: int) -> int {
    dlp * 30 + tpl * 20 + sem * 25 + time * 15 + out * 10
}

/// The composite risk: the weighted sum, raised to 0.85 on a critical hit.
pub open spec fn composite(dlp: int, tpl: int, sem: int, time: int, out: int, critical: bool) -> int {
    let w = weighted(dlp, tpl, sem, time, out);
    if critical && w < 850000 {
        850000
    } else {
        w
    }
}

/// A burst of correlated events: its score in basis points and its reason.
pub struct TimeSignal {
    pub score: u32,
    pub reason: String,
}

/// The closest threat profile: its similarity in basis points and its
/// description.
pub struct SemanticSignal {
    pub similarity: u32,
    pub description: String,
}

/// The reason given for a strong semantic similarity.
pub open spec fn semantic_reason(similarity: u32, description: Seq<char>) -> Seq<char> {
    "Forte similarité sémantique ("@ + decimal(((similarity + 50) / 100) as nat) + "%) avec: "@
        + description
}

/// The reason given for a clustering outlier.
pub open spec fn outlier_reason() -> Seq<char> {
    "Anomalie sémantique non supervisée détectée (Outlier HDBSCAN / Vecteur isolé)"@
}

/// The outcome of the multi-axis decision for one line.
pub struct Assessment {
    pub dlp_score: u32,
    pub template_score: u32,
    pub semantic_score: u32,
    pub time_score: u32,
    pub outlier_score: u32,
    pub is_critical_hit: bool,
    pub reasons: Vec<String>,
    pub composite_score: u32,
    pub level: AlertLevel,
}

/// The reasons of a decision, in order: template, findings, burst, semantic
/// similarity (when at least 0.70), outlier.
pub open spec fn spec_reasons(
    template: Seq<char>,
    class: TemplateClass,
    is_new: bool,
    f: Seq<Finding>,
    time: Option<Seq<char>>,
    semantic: Option<(u32, Seq<char>)>,
    outlier: bool,
) -> Seq<Seq<char>> {
    let t = match template_axis(template, class, is_new).1 {
        Some(r) => seq![r],
        None => Seq::<Seq<char>>::empty(),
    };
    let fr = f.map_values(|x: Finding| x.0);
    let tr = match time {
        Some(r) => seq![r],
        None => Seq::<Seq<char>>::empty(),
    };
    let sr = match semantic {
        Some((s, d)) => if s >= 7000 {
            seq![semantic_reason(s, d)]
        } else {
            Seq::<Seq<char>>::empty()
        },
        None => Seq::<Seq<char>>::empty(),
    };
    let or = if outlier {
        seq![outlier_reason()]
    } else {
        Seq::<Seq<char>>::empty()
    };
    t + fr + tr + sr + or
}

fn push_reason(reasons: &mut Vec<String>, r: String)
    ensures
        views(final(reasons)@) == views(old(reasons)@).push(r@),
{
    let ghost before = views(reasons@);
    reasons.push(r);
    assert(views(reasons@) =~= before.push(r@));
}

/// Fuses the detection axes of one line into a decision: the component
/// scores, the reasons, the composite risk and the alert level.
pub fn assess(
    template: &str,
    classification: TemplateClass,
    is_new: bool,
    rule_matches: &[(String, AlertLevel)],
    time: Option<TimeSignal>,
    semantic: Option<SemanticSignal>,
    is_outlier: bool,
) -> (r: Assessment)
    requires
        time matches Some(t) ==> t.score <= 10000,
        semantic matches Some(s) ==> s.similarity <= 10000,
    ensures
        ({
            let f = findings_view(rule_matches@);
            let (ts, _, crit) = template_axis(template@, classification, is_new);
            let tm: u32 = match time {
                Some(t) => t.score,
                None => 0,
            };
            let sm: u32 = match semantic {
                Some(s) => s.similarity,
                None => 0,
            };
            let om: u32 = if is_outlier {
                6000
            } else {
                0
            };
            let critical = crit || has_severity(f, AlertLevel::High);
            &&& r.template_score == ts
            &&& r.dlp_score == dlp_axis(f)
            &&& r.time_score == tm
            &&& r.semantic_score == sm
            &&& r.outlier_score == om
            &&& r.is_critical_hit == critical
            &&& r.composite_score == composite(dlp_axis(f) as int, ts as int, sm as int, tm as int, om as int, critical)
            &&& r.level == level_for(r.composite_score as int)
            &&& views(r.reasons@) == spec_reasons(
                template@,
                classification,
                is_new,
                f,
                match time {
                    Some(t) => Some(t.reason@),
                    None => None,
                },
                match semantic {
                    Some(s) => Some((s.similarity, s.description@)),
                    None => None,
                },
                is_outlier,
            )
        }),
{
    let ghost f = findings_view(rule_matches@);
    let mut reasons: Vec<String> = Vec::new();
    // structural axis
    let (template_score, template_reason, template_critical) = template_axis_exec(
        template,
        classification,
        is_new,
    );
    match template_reason {
        Some(t) => push_reason(&mut reasons, t),
        None => {},
    }
    // rule axis
    let (dlp_score, any_high) = rule_axis(rule_matches, &mut reasons);
    let is_critical_hit = template_critical || any_high;
    // burst axis
    let mut time_score: u32 = 0;
    match time {
        Some(t) => {
            time_score = t.score;
            push_reason(&mut reasons, t.reason);
        },
        None => {},
    }
    // semantic axis
    let mut semantic_score: u32 = 0;
    match semantic {
        Some(s) => {
            semantic_score = s.similarity;
            if s.similarity >= 7000 {
                push_reason(&mut reasons, semantic_reason_exec(s.similarity, s.description.as_str()));
            }
        },
        None => {},
    }
    // clustering axis
    let mut outlier_score: u32 = 0;
    if is_outlier {
        outlier_score = 6000;
        push_reason(
            &mut reasons,
            owned("Anomalie sémantique non supervisée détectée (Outlier HDBSCAN / Vecteur isolé)"),
        );
    }
    // fusion
    let composite_score = fuse(dlp_score, template_score, semantic_score, time_score, outlier_score, is_critical_hit);
    let level = level_exec(composite_score);
    Assessment {
        dlp_score,
        template_score,
        semantic_score,
        time_score,
        outlier_score,
        is_critical_hit,
        reasons,
        composite_score,
        level,
    }
}

fn fuse(dlp: u32, tpl: u32, sem: u32, time: u32, out: u32, critical: bool) -> (r: u32)
    requires
        dlp <= 10000,
        tpl <= 10000,
        sem <= 10000,
        time <= 10000,
        out <= 10000,
    ensures
        r == composite(dlp as int, tpl as int, sem as int, time as int, out as int, critical),
{
    let w: u32 = dlp * 30 + tpl * 20 + sem * 25 + time * 15 + out * 10;
    if critical && w < 850000 {
        850000
    } else {
        w
    }
}

fn level_exec(composite_score: u32) -> (r: AlertLevel)
    ensures
        r == level_for(composite_score as int),
{
    if composite_score >= 700000 {
        AlertLevel::High
    } else if composite_score >= 350000 {
        AlertLevel::Moderate
    } else if composite_score >= 250000 {
        AlertLevel::Low
    } else {
        AlertLevel::Benign
    }
}

fn semantic_reason_exec(similarity: u32, description: &str) -> (r: String)
    ensures
        r@ == semantic_reason(similarity, description@),
{
    let pct = (similarity as u64 + 50) / 100;
    let mut m = owned("Forte similarité sémantique (");
    let p = u64_to_string(pct);
    m.append(p.as_str());
    m.append("%) avec: ");
    m.append(description);
    m
}

fn template_axis_exec(template: &str, classification: TemplateClass, is_new: bool) -> (r: (
    u32,
    Option<String>,
    bool,
))
    ensures
        r.0 == template_axis(template@, classification, is_new).0,
        r.2 == template_axis(template@, classification, is_new).2,
        match r.1 {
            Some(s) => template_axis(template@, classification, is_new).1 == Some(s@),
            None => template_axis(template@, classification, is_new).1 is None,
        },
{
    match classification {
        TemplateClass::CriticalThreat => {
            let mut s = owned("Template critique correspondant à un motif de fuite/attaque: '");
            s.append(template);
            s.append("'");
            (9000, Some(s), true)
        },
        TemplateClass::WarningAnomaly => {
            let mut s = owned("Template d'avertissement système: '");
            s.append(template);
            s.append("'");
            (5000, Some(s), false)
        },
        TemplateClass::StandardOperational => {
            if is_new {
                (2000, Some(owned("Template inédit observé pour la première fois (Zero-Day structural)")), false)
            } else {
                (0, None, false)
            }
        },
    }
}

proof fn lemma_has_severity_step(f: Seq<Finding>, i: int, l: AlertLevel)
    requires
        0 < i <= f.len(),
    ensures
        has_severity(f.take(i), l) == (has_severity(f.take(i - 1), l) || f[i - 1].1 == l),
{
    if has_severity(f.take(i), l) {
        let w = choose|w: int| 0 <= w < i && #[trigger] f.take(i)[w].1 == l;
        if w < i - 1 {
            assert(f.take(i - 1)[w] == f.take(i)[w]);
        }
    }
    if has_severity(f.take(i - 1), l) {
        let w = choose|w: int| 0 <= w < i - 1 && #[trigger] f.take(i - 1)[w].1 == l;
        assert(f.take(i)[w] == f.take(i - 1)[w]);
    }
    if f[i - 1].1 == l {
        assert(f.take(i)[i - 1] == f[i - 1]);
    }
}

fn rule_axis(rule_matches: &[(String, AlertLevel)], reasons: &mut Vec<String>) -> (r: (u32, bool))
    ensures
        r.0 == dlp_axis(findings_view(rule_matches@)),
        r.1 == has_severity(findings_view(rule_matches@), AlertLevel::High),
        views(final(reasons)@) == views(old(reasons)@) + findings_view(rule_matches@).map_values(
            |x: Finding| x.0,
        ),
{
    let ghost f = findings_view(rule_matches@);
    let ghost r0 = views(reasons@);
    let n = rule_matches.len();
    let mut dlp_score: u32 = 0;
    if n > 0 {
        dlp_score = if n >= 3 {
            10000
        } else {
            (n * 4000) as u32
        };
    }
    let mut any_high = false;
    let mut any_moderate = false;
    let mut i: usize = 0;
    while i < n
        invariant
            n == rule_matches@.len(),
            f == findings_view(rule_matches@),
            i <= n,
            any_high == has_severity(f.take(i as int), AlertLevel::High),
            any_moderate == has_severity(f.take(i as int), AlertLevel::Moderate),
            views(reasons@) == r0 + f.take(i as int).map_values(|x: Finding| x.0),
        decreases n - i,
    {
        let sev = rule_matches[i].1;
        if sev == AlertLevel::High {
            any_high = true;
        } else if sev == AlertLevel::Moderate {
            any_moderate = true;
        }
        push_reason(reasons, rule_matches[i].0.clone());
        i = i + 1;
        proof {
            lemma_has_severity_step(f, i as int, AlertLevel::High);
            lemma_has_severity_step(f, i as int, AlertLevel::Moderate);
        }
        assert(f.take(i as int).map_values(|x: Finding| x.0) =~= f.take(i - 1).map_values(
            |x: Finding| x.0,
        ).push(f[i - 1].0));
        assert(views(reasons@) =~= r0 + f.take(i as int).map_values(|x: Finding| x.0));
    }
    assert(f.take(n as int) =~= f);
    if any_high {
        dlp_score = 10000;
    } else if any_moderate {
        if dlp_score < 8500 {
            dlp_score = 8500;
        }
    }
    (dlp_score, any_high)
}

/// A line for which some finding is of high severity is a high-level alert.
pub proof fn law_high_finding_means_high_alert(
    f: Seq<Finding>,
    ts: u32,
    crit: bool,
    sm: u32,
    tm: u32,
    om: u32,
)
    requires
        has_severity(f, AlertLevel::High),
        ts <= 10000,
        sm <= 10000,
        tm <= 10000,
        om <= 10000,
    ensures
        level_for(composite(dlp_axis(f) as int, ts as int, sm as int, tm as int, om as int, crit || has_severity(f, AlertLevel::High))) == AlertLevel::High,
        composite(dlp_axis(f) as int, ts as int, sm as int, tm as int, om as int, crit || has_severity(f, AlertLevel::High)) >= 850000,
{
}

/// The levels are bands of the composite risk: high from 0.70, moderate from
/// 0.35, low from 0.25; below 0.25 a line is benign and raises no alert.
pub proof fn law_level_bands(c: int)
    ensures
        (level_for(c) == AlertLevel::High) <==> c >= 700000,
        (level_for(c) == AlertLevel::Moderate) <==> (350000 <= c && c < 700000),
        (level_for(c) == AlertLevel::Low) <==> (250000 <= c && c < 350000),
        (level_for(c) == AlertLevel::Benign) <==> c < 250000,
{
}

/// A line that raises an alert always has a reason: some template, finding,
/// burst, strong similarity or outlier reason stands behind every composite
/// risk of at least 0.25.
pub proof fn law_raised_alert_has_reason(
    template: Seq<char>,
    class: TemplateClass,
    is_new: bool,
    f: Seq<Finding>,
    time: Option<(u32, Seq<char>)>,
    semantic: Option<(u32, Seq<char>)>,
    outlier: bool,
)
    requires
        time matches Some(t) ==> t.0 <= 10000,
        semantic matches Some(s) ==> s.0 <= 10000,
    ensures
        ({
            let (ts, _, crit) = template_axis(template, class, is_new);
            let tm: u32 = match time {
                Some(t) => t.0,
                None => 0,
            };
            let sm: u32 = match semantic {
                Some(s) => s.0,
                None => 0,
            };
            let om: u32 = if outlier {
                6000
            } else {
                0
            };
            level_for(composite(dlp_axis(f) as int, ts as int, sm as int, tm as int, om as int, crit || has_severity(f, AlertLevel::High)))
                != AlertLevel::Benign ==> spec_reasons(
                template,
                class,
                is_new,
                f,
                match time {
                    Some(t) => Some(t.1),
                    None => None,
                },
                semantic,
                outlier,
            ).len() > 0
        }),
{
    let rs = spec_reasons(
        template,
        class,
        is_new,
        f,
        match time {
            Some(t) => Some(t.1),
            None => None,
        },
        semantic,
        outlier,
    );
    if rs.len() == 0 {
        assert(f.map_values(|x: Finding| x.0).len() == f.len());
        assert(f.len() == 0);
        assert(!has_severity(f, AlertLevel::High));
    }
}

/// A line with a critical template is a high-level alert.
pub proof fn law_critical_template_means_high_alert(
    template: Seq<char>,
    is_new: bool,
    f: Seq<Finding>,
    sm: u32,
    tm: u32,
    om: u32,
)
    requires
        sm <= 10000,
        tm <= 10000,
        om <= 10000,
    ensures
        ({
            let (ts, _, crit) = template_axis(template, TemplateClass::CriticalThreat, is_new);
            level_for(composite(dlp_axis(f) as int, ts as int, sm as int, tm as int, om as int, crit || has_severity(f, AlertLevel::High))) == AlertLevel::High
        }),
{
}

/// A line that is an already-seen ordinary template, with no finding, no
/// burst, no semantic match and no outlier, raises no alert and no reason.
pub proof fn law_quiet_line_is_benign(template: Seq<char>)
    ensures
        ({
            let f = Seq::<Finding>::empty();
            let (ts, _, crit) = template_axis(template, TemplateClass::StandardOperational, false);
            &&& level_for(composite(dlp_axis(f) as int, ts as int, 0, 0, 0, crit || has_severity(f, AlertLevel::High))) == AlertLevel::Benign
            &&& spec_reasons(template, TemplateClass::StandardOperational, false, f, None, None, false).len() == 0
        }),
{
    let f = Seq::<Finding>::empty();
    assert(!has_severity(f, AlertLevel::High));
    assert(f.map_values(|x: Finding| x.0) =~= Seq::<Seq<char>>::empty());
}

/// A higher composite risk never gives a lower level.
pub proof fn law_level_monotone(a: int, b: int)
    requires
        a <= b,
    ensures
        crate::models::level_rank(level_for(a)) <= crate::models::level_rank(level_for(b)),
{
}

/// The rule axis and the structural axis never exceed 1 (10 000 basis
/// points), and with every component at most 1 the composite risk is a
/// fraction between 0 and 1 (at most 1 000 000 parts per million).
pub proof fn law_scores_bounded(
    f: Seq<Finding>,
    template: Seq<char>,
    class: TemplateClass,
    is_new: bool,
    sem: int,
    time: int,
    out: int,
    critical: bool,
)
    requires
        0 <= sem <= 10000,
        0 <= time <= 10000,
        0 <= out <= 10000,
    ensures
        dlp_axis(f) <= 10000,
        template_axis(template, class, is_new).0 <= 10000,
        0 <= composite(
            dlp_axis(f) as int,
            template_axis(template, class, is_new).0 as int,
            sem,
            time,
            out,
            critical,
        ) <= 1_000_000,
{
}

/// The part of the detection pipeline that the library decides: the template
/// catalogue, the rule engine and the burst correlator.
pub struct DetectionPipeline {
    parser: LogParser,
    rule_engine: RuleEngine,
    time_correlator: TimeCorrelator,
}

impl DetectionPipeline {
    /// The pipeline is well formed.
    pub closed spec fn wf(&self) -> bool {
        self.parser.wf()
    }

    /// The template catalogue.
    pub closed spec fn parser_view(&self) -> LogParser {
        self.parser
    }

    /// The rule engine.
    pub closed spec fn rules_view(&self) -> RuleEngine {
        self.rule_engine
    }

    /// The burst correlator.
    pub closed spec fn correlator_view(&self) -> TimeCorrelator {
        self.time_correlator
    }

    /// A pipeline with an empty catalogue of 10 000 templates, the built-in
    /// blacklists, and a correlator with the given threshold.
    pub fn new(time_window_seconds: u64, event_threshold: u64) -> (r: DetectionPipeline)
        ensures
            r.wf(),
            r.parser_view().entries().len() == 0,
            r.parser_view().capacity() == TEMPLATE_CAPACITY,
            r.rules_view().ips() == seq!["185.220.101.5"@, "192.168.1.42"@, "10.0.0.99"@],
            r.rules_view().users() == seq!["attacker19"@, "cyrus"@],
            r.correlator_view().history().len() == 0,
            r.correlator_view().threshold() == event_threshold,
    {
        DetectionPipeline {
            parser: LogParser::new(TEMPLATE_CAPACITY),
            rule_engine: RuleEngine::new(),
            time_correlator: TimeCorrelator::new(time_window_seconds, event_threshold),
        }
    }

    /// Extracts the template of a line and records it in the catalogue.
    pub fn parse_log_structure(&mut self, raw_message: &str) -> (r: ParsedResult)
        requires
            old(self).wf(),
        ensures
            final(self).wf(),
            r.template@ == template_of(raw_message@),
            views(r.parameters@) == params_of(raw_message@),
            registered(
                old(self).parser_view().entries(),
                old(self).parser_view().capacity(),
                template_of(raw_message@),
                (r.template_id, r.classification, r.is_new),
                final(self).parser_view().entries(),
            ),
            final(self).parser_view().capacity() == old(self).parser_view().capacity(),
            final(self).rules_view() == old(self).rules_view(),
            final(self).correlator_view() == old(self).correlator_view(),
    {
        self.parser.parse(raw_message)
    }

    /// Evaluates a line against the signatures, the blacklists and the rules.
    pub fn evaluate_rules(&self, raw_message: &str, rules: &[DetectionRule]) -> (r: Vec<(String, AlertLevel)>)
        ensures
            findings_view(r@) == spec_evaluate(
                self.rules_view().ips(),
                self.rules_view().users(),
                rule_models(rules@),
                raw_message@,
            ),
    {
        self.rule_engine.evaluate(raw_message, rules)
    }

    /// Records an event of a template in the burst correlator.
    pub fn observe_event(&mut self, template: &str, timestamp: i64) -> (r: CorrelationObservation)
        ensures
            final(self).wf() == old(self).wf(),
            final(self).parser_view() == old(self).parser_view(),
            final(self).rules_view() == old(self).rules_view(),
            r.family@ == crate::engine::spec_classify_event(template@),
            r.earlier@ == crate::engine::history_of(old(self).correlator_view().history(), r.family@),
            crate::engine::history_of(final(self).correlator_view().history(), r.family@)
                == crate::engine::prune(r.earlier@, timestamp).push(timestamp),
            forall|fam: Seq<char>|
                fam != r.family@ ==> crate::engine::history_of(
                    final(self).correlator_view().history(),
                    fam,
                ) == crate::engine::history_of(old(self).correlator_view().history(), fam),
            final(self).correlator_view().threshold() == old(self).correlator_view().threshold(),
    {
        self.time_correlator.observe(template, timestamp)
    }

    /// The number of correlated events from which a burst is reported.
    pub fn event_threshold(&self) -> (r: u64)
        ensures
            r == self.correlator_view().threshold(),
    {
        self.time_correlator.event_threshold()
    }

    /// The number of catalogued templates.
    pub fn get_parser_template_count(&self) -> (r: usize)
        ensures
            r == self.parser_view().entries().len(),
    {
        self.parser.template_count()
    }
}

// ──────────────────────────────── alerts ────────────────────────────────

/// Whether a decision raises an alert: every level but benign does.
pub fn raises_alert(level: AlertLevel) -> (r: bool)
    ensures
        r == (level != AlertLevel::Benign),
{
    level != AlertLevel::Benign
}

/// A neighbouring log as the analyst reads it in an alert: `[HH:MM:SS] message`.
pub open spec fn context_line(l: RawLog) -> Seq<char> {
    "["@ + crate::llm::clock_of(l.timestamp.secs) + "] "@ + l.raw_message@
}

/// The context of an alert: each neighbouring log, in order.
pub fn context_lines(neighbours: &[RawLog]) -> (r: Vec<String>)
    ensures
        views(r@) == neighbours@.map_values(|l: RawLog| context_line(l)),
{
    let mut out: Vec<String> = Vec::new();
    let mut i: usize = 0;
    while i < neighbours.len()
        invariant
            i <= neighbours@.len(),
            views(out@) == neighbours@.take(i as int).map_values(|l: RawLog| context_line(l)),
        decreases neighbours@.len() - i,
    {
        let l = &neighbours[i];
        let clock = crate::llm::clock_text(l.timestamp);
        let a = crate::text::concat2("[", clock.as_str());
        let b = crate::text::concat2(a.as_str(), "] ");
        let line = crate::text::concat2(b.as_str(), l.raw_message.as_str());
        let ghost before = views(out@);
        out.push(line);
        assert(views(out@) =~= before.push(context_line(neighbours@[i as int])));
        i = i + 1;
        assert(neighbours@.take(i as int).map_values(|l: RawLog| context_line(l)) =~= before.push(
            context_line(neighbours@[i - 1]),
        ));
    }
    assert(neighbours@.take(neighbours@.len() as int) =~= neighbours@);
    out
}

/// The alert raised for a line from its decision: the semantic score as the
/// supervised score, the template score as the anomaly score, the composite
/// as the final score, the decision's level and reasons, not acknowledged.
pub fn build_alert(
    id: String,
    raw_log_id: String,
    template: String,
    category: AlertCategory,
    assessment: Assessment,
    is_outlier: bool,
    context_logs: Vec<String>,
    llm_explanation: Option<String>,
    mitigation_suggestion: Option<String>,
    detected_at: Timestamp,
) -> (r: Alert)
    ensures
        r.id@ == id@,
        r.raw_log_id@ == raw_log_id@,
        r.parsed_log_id is None,
        r.template matches Some(t) && t@ == template@,
        r.category == category,
        r.supervised_score == Some(assessment.semantic_score),
        r.anomaly_score == Some(assessment.template_score),
        r.cluster_id is None,
        r.is_outlier == is_outlier,
        r.final_score == assessment.composite_score,
        r.level == assessment.level,
        views(r.reasons@) == views(assessment.reasons@),
        views(r.context_logs@) == views(context_logs@),
        crate::text::opt_view(r.llm_explanation) == crate::text::opt_view(llm_explanation),
        crate::text::opt_view(r.mitigation_suggestion) == crate::text::opt_view(mitigation_suggestion),
        r.detected_at == detected_at,
        !r.acknowledged,
        r.acknowledged_at is None,
{
    Alert {
        id,
        raw_log_id,
        parsed_log_id: None,
        template: Some(template),
        category,
        supervised_score: Some(assessment.semantic_score),
        anomaly_score: Some(assessment.template_score),
        cluster_id: None,
        is_outlier,
        final_score: assessment.composite_score,
        level: assessment.level,
        reasons: assessment.reasons,
        context_logs,
        llm_explanation,
        mitigation_suggestion,
        detected_at,
        acknowledged: false,
        acknowledged_at: None,
    }
}

// ──────────────────────────── threat profiles ────────────────────────────

/// The number of reference threats.
pub const THREAT_PROFILE_COUNT: usize = 4;

/// The reference threats that lines are compared with: category, description
/// and the text whose meaning stands for the threat.
pub open spec fn threat_profile(k: int) -> (AlertCategory, Seq<char>, Seq<char>) {
    if k == 0 {
        (
            AlertCategory::DataLeak,
            "Exfiltration et fuite de données massives"@,
            "Data exfiltration, unauthorized file transfer to external cloud storage bucket, customer database leak, credentials dump"@,
        )
    } else if k == 1 {
        (
            AlertCategory::PrivilegeEscalation,
            "Élévation de privilèges et altération des droits"@,
            "Privilege escalation, unauthorized root access, changing sudoers and shadow file permissions, executing root shell"@,
        )
    } else if k == 2 {
        (
            AlertCategory::Authentication,
            "Attaque par force brute et pulvérisation de mots de passe"@,
            "Brute force authentication attack, multiple failed password attempts, PAM authorization failure on SSH"@,
        )
    } else {
        (
            AlertCategory::SystemAnomaly,
            "Défaillance critique système et crash d'application"@,
            "Out of memory crash, fatal process kill, kernel panic, HTTP 500 internal server error collapse"@,
        )
    }
}

/// The reference threat at position `k`: category, description, reference
/// text.
pub fn threat_profile_at(k: usize) -> (r: (AlertCategory, &'static str, &'static str))
    requires
        k < THREAT_PROFILE_COUNT,
    ensures
        (r.0, r.1@, r.2@) == threat_profile(k as int),
{
    if k == 0 {
        (
            AlertCategory::DataLeak,
            "Exfiltration et fuite de données massives",
            "Data exfiltration, unauthorized file transfer to external cloud storage bucket, customer database leak, credentials dump",
        )
    } else if k == 1 {
        (
            AlertCategory::PrivilegeEscalation,
            "Élévation de privilèges et altération des droits",
            "Privilege escalation, unauthorized root access, changing sudoers and shadow file permissions, executing root shell",
        )
    } else if k == 2 {
        (
            AlertCategory::Authentication,
            "Attaque par force brute et pulvérisation de mots de passe",
            "Brute force authentication attack, multiple failed password attempts, PAM authorization failure on SSH",
        )
    } else {
        (
            AlertCategory::SystemAnomaly,
            "Défaillance critique système et crash d'application",
            "Out of memory crash, fatal process kill, kernel panic, HTTP 500 internal server error collapse",
        )
    }
}

} // verus!
