use defudelog::llm::{
    clock_text, llm_api_url, llm_test_outcome, llm_test_request, ContextualLlmAnalyzer, LlmTestReply, DEFAULT_MITIGATION,
    SYSTEM_PROMPT,
};
use defudelog::models::{Alert, AlertCategory, AlertLevel, LlmSettings, RawLog, Timestamp};
use defudelog::response::{
    webhook_target, ActiveResponseEngine, WebhookNotifier, DEFAULT_UNIX_SCRIPT, DEFAULT_WINDOWS_SCRIPT, EMPTY_SOAR_SCRIPT,
    EMPTY_WEBHOOK_URL,
};
use defudelog::siem::SiemExporter;

fn epoch() -> Timestamp {
    Timestamp { secs: 0, nanos: 0 }
}

fn alert(level: AlertLevel, score: u32) -> Alert {
    Alert {
        id: "A-1".to_string(),
        raw_log_id: "L-1".to_string(),
        parsed_log_id: None,
        template: Some("exfil <PATH>".to_string()),
        category: AlertCategory::DataLeak,
        supervised_score: None,
        anomaly_score: None,
        cluster_id: None,
        is_outlier: false,
        final_score: score,
        level,
        reasons: vec!["a|b".to_string(), "c=d".to_string()],
        context_logs: Vec::new(),
        llm_explanation: None,
        mitigation_suggestion: None,
        detected_at: epoch(),
        acknowledged: false,
        acknowledged_at: None,
    }
}

fn raw(hostname: &str, message: &str, secs: i64) -> RawLog {
    RawLog {
        id: "r".to_string(),
        source_id: "s".to_string(),
        hostname: hostname.to_string(),
        raw_message: message.to_string(),
        log_hash: String::new(),
        meaning: None,
        explanation: None,
        recommendation: None,
        timestamp: Timestamp { secs, nanos: 0 },
        ingested_at: Timestamp { secs, nanos: 0 },
    }
}

#[test]
fn rfc3339_times_in_exports() {
    let mut a = alert(AlertLevel::Low, 100000);
    a.detected_at = Timestamp { secs: 1_786_000_000, nanos: 0 };
    assert!(SiemExporter::to_cef(&a).contains("rt=2026-08-06T07:06:40+00:00"));
}

#[test]
fn cef_leef_and_syslog_lines() {
    let a = alert(AlertLevel::High, 912345);
    assert_eq!(
        SiemExporter::to_cef(&a),
        "CEF:0|DefuDelog|Platform|2.0|DATA_LEAK|exfil <PATH>|9|rt=1970-01-01T00:00:00+00:00 cat=data_leak score=0.91 msg=a\\|b ; c\\=d"
    );
    assert_eq!(
        SiemExporter::to_leef(&a),
        "LEEF:2.0|DefuDelog|Platform|2.0|DATA_LEAK|\tdevTime=1970-01-01T00:00:00+00:00\tcat=data_leak\tsev=9\tscore=0.91\tusrMsg=a|b ; c=d"
    );
    assert_eq!(
        SiemExporter::to_syslog_rfc5424(&a),
        "<11>1 1970-01-01T00:00:00+00:00 localhost defudelog - data_leak [alert@defudelog level=\"high\" score=\"0.91\"] a|b ; c=d"
    );
}

#[test]
fn export_format_names() {
    let a = alert(AlertLevel::Low, 250000);
    let b = alert(AlertLevel::Moderate, 5000);
    let batch = vec![a.clone(), b.clone()];
    assert_eq!(
        SiemExporter::export_batch(&batch, "LEEF"),
        format!("{}\n{}", SiemExporter::to_leef(&a), SiemExporter::to_leef(&b))
    );
    // An unknown format is CEF.
    assert_eq!(SiemExporter::export_batch(&batch[..1], "xml"), SiemExporter::to_cef(&a));
    assert_eq!(SiemExporter::export_batch(&[], "syslog"), "");
    assert!(SiemExporter::to_cef(&b).contains("|6|"));
    assert!(SiemExporter::to_cef(&b).contains("score=0.01"));
    assert!(SiemExporter::to_syslog_rfc5424(&a).starts_with("<13>1 "));
}

#[test]
fn webhook_notification_texts() {
    let a = alert(AlertLevel::High, 912345);
    let (text, content) = WebhookNotifier::notification_texts(&a);
    assert_eq!(
        text,
        "🚨 *[DeFuDoLog] Alerte de Sécurité [DATA_LEAK]*\n> *Catégorie:* data_leak\n> *Niveau:* high\n> *Score:* 91%\n> *Raisons:* a|b, c=d"
    );
    assert_eq!(content, "🚨 **[DeFuDoLog] Alerte [data_leak]**: a|b, c=d (Score: 91%)");
    let (_, content) = WebhookNotifier::notification_texts(&alert(AlertLevel::Benign, 5000));
    assert!(content.starts_with("✅"));
    assert!(content.ends_with("(Score: 1%)"));
    assert_eq!(WebhookNotifier::severity_emoji(AlertLevel::Moderate), "⚠️");
}

#[test]
fn webhook_destinations() {
    assert!(!WebhookNotifier::should_notify("   "));
    assert!(WebhookNotifier::should_notify("https://hooks.example/x"));
    assert_eq!(webhook_target(None, Some("https://env".to_string())).as_deref(), Some("https://env"));
    assert_eq!(webhook_target(Some("https://set".to_string()), Some("https://env".to_string())).as_deref(), Some("https://set"));
    // A blank configured address is not replaced by the environment's.
    assert_eq!(webhook_target(Some("  ".to_string()), Some("https://env".to_string())), None);
    assert_eq!(webhook_target(None, None), None);
    assert_eq!(WebhookNotifier::check_test_url(" "), Err(EMPTY_WEBHOOK_URL.to_string()));
    assert_eq!(WebhookNotifier::check_test_url("https://x"), Ok(()));
    assert_eq!(WebhookNotifier::rejected_status("404 Not Found"), "Le serveur Webhook a répondu avec le statut HTTP 404 Not Found");
    assert_eq!(WebhookNotifier::test_delivery_failure("timeout"), "Impossible de contacter l'URL webhook: timeout");
}

#[test]
fn active_response_plan() {
    assert_eq!(ActiveResponseEngine::response_script(AlertLevel::Moderate, &Some("echo".to_string()), false), None);
    assert_eq!(ActiveResponseEngine::response_script(AlertLevel::High, &Some("echo hi".to_string()), false).as_deref(), Some("echo hi"));
    assert_eq!(ActiveResponseEngine::response_script(AlertLevel::High, &Some("  ".to_string()), false).as_deref(), Some(DEFAULT_UNIX_SCRIPT));
    assert_eq!(ActiveResponseEngine::response_script(AlertLevel::High, &None, true).as_deref(), Some(DEFAULT_WINDOWS_SCRIPT));
    let (a1, a2) = ActiveResponseEngine::response_arguments(&alert(AlertLevel::High, 0));
    assert_eq!((a1.as_str(), a2.as_str()), ("A-1", "DataLeak"));
    assert_eq!(ActiveResponseEngine::script_file_name(true), "defudolog_active_response.ps1");
    let (prog, args) = ActiveResponseEngine::script_launch(false, "/tmp/r.sh", "A-1", "DataLeak");
    assert_eq!(prog, "/bin/sh");
    assert_eq!(args, vec!["/tmp/r.sh", "A-1", "DataLeak"]);
    let (prog, args) = ActiveResponseEngine::script_launch(true, "C:\\t\\r.ps1", "x", "y");
    assert_eq!(prog, "powershell.exe");
    assert_eq!(args, vec!["-WindowStyle", "Hidden", "-NoProfile", "-ExecutionPolicy", "Bypass", "-File", "C:\\t\\r.ps1", "x", "y"]);
    assert_eq!(ActiveResponseEngine::check_test_script("\n"), Err(EMPTY_SOAR_SCRIPT.to_string()));
    assert_eq!(ActiveResponseEngine::check_test_script("echo"), Ok(()));
}

#[test]
fn clock_of_instants() {
    assert_eq!(clock_text(Timestamp { secs: 3723, nanos: 0 }), "01:02:03");
    assert_eq!(clock_text(Timestamp { secs: -1, nanos: 0 }), "23:59:59");
    assert_eq!(clock_text(Timestamp { secs: 2 * 86400 + 5, nanos: 999 }), "00:00:05");
    assert_eq!(clock_text(Timestamp { secs: -86400, nanos: 0 }), "00:00:00");
}

#[test]
fn language_model_addresses() {
    assert_eq!(llm_api_url("http://localhost:11434/v1/"), "http://localhost:11434/v1/chat/completions");
    assert_eq!(llm_api_url("http://h/chat/completions//"), "http://h/chat/completions");
    assert_eq!(llm_api_url("http://h"), "http://h/chat/completions");
}

#[test]
fn language_model_connection_test() {
    let settings = |base: &str, model: &str, key: &str| LlmSettings {
        base_url: base.to_string(),
        api_key: key.to_string(),
        model: model.to_string(),
        enabled: true,
    };
    let refused = llm_test_request(&settings("  ", "m", "k"));
    assert_eq!(refused.err().as_deref(), Some("L'URL de base du LLM ne peut pas être vide."));
    let q = llm_test_request(&settings("http://h/", "  ", " sk ")).unwrap();
    assert_eq!(q.url, "http://h/chat/completions");
    assert_eq!(q.model, "llama3");
    assert_eq!(q.authorization.as_deref(), Some("Bearer sk"));
    let q2 = llm_test_request(&settings("http://h", " mistral ", "  ")).unwrap();
    assert_eq!(q2.model, "mistral");
    assert_eq!(q2.authorization, None);

    assert_eq!(
        llm_test_outcome(&q, &LlmTestReply::Answered { content: Some("  OK ".to_string()) }),
        Ok("Connexion réussie ! Réponse du modèle (llama3) : \"OK\"".to_string())
    );
    assert_eq!(
        llm_test_outcome(&q, &LlmTestReply::Answered { content: None }),
        Ok("Connexion réussie ! Réponse du modèle (llama3) : \"Connexion réussie\"".to_string())
    );
    assert_eq!(
        llm_test_outcome(&q, &LlmTestReply::Unparsed),
        Ok("Connexion réussie au serveur LLM (Modèle: llama3)".to_string())
    );
    let long_body = "x".repeat(200);
    assert_eq!(
        llm_test_outcome(&q, &LlmTestReply::Refused { status: "500 Internal Server Error".to_string(), body: long_body }),
        Err(format!("Erreur serveur LLM HTTP 500 Internal Server Error : {}", "x".repeat(120)))
    );
    assert_eq!(
        llm_test_outcome(&q, &LlmTestReply::Unreachable { error: "refused".to_string() }),
        Err("Impossible de joindre le serveur LLM à 'http://h/chat/completions' : refused. Vérifiez que le serveur (Ollama / LM Studio / LocalAI) est démarré.".to_string())
    );
}

#[test]
fn incident_requests() {
    let mut s = LlmSettings { base_url: "http://h//".to_string(), api_key: " k ".to_string(), model: String::new(), enabled: false };
    let target = raw("web-01", "boom", 0);
    assert!(ContextualLlmAnalyzer::incident_request(&s, &target, &[], &[]).is_none());
    s.enabled = true;
    let q = ContextualLlmAnalyzer::incident_request(&s, &target, &["r1".to_string(), "r2".to_string()], &[]).unwrap();
    assert_eq!(q.url, "http://h/chat/completions");
    assert_eq!(q.model, "llama3");
    assert_eq!(q.authorization.as_deref(), Some("Bearer  k "));
    assert_eq!(q.system_prompt, SYSTEM_PROMPT);
    assert!(q.system_prompt.contains("{\"is_threat\": true/false,\"confidence\""));
    assert_eq!(
        q.user_prompt,
        "LOG SUSPECT CIBLÉ :\n[Host: web-01] [Heure: 1970-01-01T00:00:00+00:00] boom\n\nSIGNAUX DÉTECTÉS PAR LE MOTEUR :\nr1\n- r2\n\nCONTEXTE CHRONOLOGIQUE (LOGS VOISINS) :\n(Aucun log voisin)\n\nFournis ton verdict SOC d'investigation au format JSON demandé."
    );
    let neighbours = vec![raw("web-01", "one", 3600), raw("db-01", "two", 3661)];
    let q = ContextualLlmAnalyzer::incident_request(&s, &target, &[], &neighbours).unwrap();
    assert!(q.user_prompt.contains("(LOGS VOISINS) :\n[01:00:00] (Host: web-01) one\n[01:01:01] (Host: db-01) two\n\n"));
    s.base_url = "   ".to_string();
    assert!(ContextualLlmAnalyzer::incident_request(&s, &target, &[], &[]).is_none());
}

#[test]
fn incident_verdicts() {
    let (e, m, t) = ContextualLlmAnalyzer::incident_verdict("e".to_string(), None, true);
    assert_eq!((e.as_str(), m.as_str(), t), ("e", DEFAULT_MITIGATION, true));
    let (_, m, t) = ContextualLlmAnalyzer::incident_verdict("e".to_string(), Some("isoler".to_string()), false);
    assert_eq!((m.as_str(), t), ("isoler", false));
}

#[test]
fn incident_verdicts_from_model_replies() {
    let v = ContextualLlmAnalyzer::incident_outcome(
        r#"{"is_threat": true, "confidence": 0.9, "explanation": "Exfiltration", "mitigation": "Isoler l'hôte"}"#,
    );
    assert_eq!(v, Some(("Exfiltration".to_string(), "Isoler l'hôte".to_string(), true)));
    let v = ContextualLlmAnalyzer::incident_outcome(r#"{"is_threat": false, "confidence": 1, "explanation": "RAS"}"#);
    assert_eq!(v, Some(("RAS".to_string(), DEFAULT_MITIGATION.to_string(), false)));
    // A verdict without confidence, or not JSON, is no verdict.
    assert_eq!(ContextualLlmAnalyzer::incident_outcome(r#"{"is_threat": true, "explanation": "x"}"#), None);
    assert_eq!(ContextualLlmAnalyzer::incident_outcome("oui"), None);
    // The verdict may also come as the array of its four values, in order.
    assert_eq!(
        ContextualLlmAnalyzer::incident_outcome(r#"[true, 0.9, "Fuite", null]"#),
        Some(("Fuite".to_string(), DEFAULT_MITIGATION.to_string(), true))
    );
    assert_eq!(
        ContextualLlmAnalyzer::incident_outcome(r#"[false, 1, "RAS", "Rien"]"#),
        Some(("RAS".to_string(), "Rien".to_string(), false))
    );
    assert_eq!(ContextualLlmAnalyzer::incident_outcome(r#"[true, 0.9, "Fuite"]"#), None);
    assert_eq!(ContextualLlmAnalyzer::incident_outcome(r#"[true, 0.9, "Fuite", null, 1]"#), None);

    let body = r#"{"choices": [{"message": {"content": "{\"is_threat\": true, \"confidence\": 0.5, \"explanation\": \"E\", \"mitigation\": null}"}}]}"#;
    assert_eq!(
        ContextualLlmAnalyzer::reply_outcome(body),
        Some(("E".to_string(), DEFAULT_MITIGATION.to_string(), true))
    );
    assert_eq!(ContextualLlmAnalyzer::reply_outcome(r#"{"choices": []}"#), None);

    assert!(matches!(defudelog::llm::test_reply("not json"), LlmTestReply::Unparsed));
    assert!(matches!(defudelog::llm::test_reply(r#"{"x": 1}"#), LlmTestReply::Answered { content: None }));
    match defudelog::llm::test_reply(r#"{"choices": [{"message": {"content": " OK "}}]}"#) {
        LlmTestReply::Answered { content } => assert_eq!(content.as_deref(), Some(" OK ")),
        _ => panic!("answered reply expected"),
    }
}
