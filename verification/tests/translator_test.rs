use defudelog::translator::{
    extract_all_named_entities, fill_named_entities, heuristic_translation, interpolate, matches_pattern,
    token_jaccard_similarity, LogTranslator, NamedEntities, TranslationRule,
};

fn chars(s: &str) -> Vec<char> {
    s.chars().collect()
}

fn rule(pattern: &str, format: &str, explanation: Option<&str>, level: &str) -> TranslationRule {
    TranslationRule {
        category: "test".to_string(),
        pattern: pattern.to_string(),
        template_format: format.to_string(),
        explanation: explanation.map(|s| s.to_string()),
        recommendation: None,
        status_level: level.to_string(),
    }
}

#[test]
fn custom_translation_is_learned_and_filled_in() {
    let mut translator = LogTranslator::new();
    translator.insert_custom_translation(
        "custom-dlp-pattern",
        "🚨 Détection Sur-Mesure : Fuite de données classifiée confidentielle par {user}",
        Some("Règle spécifique définie par le responsable SOC pour surveiller un projet critique.".to_string()),
        Some("Bloquez immédiatement l'accès au compte et prévenez l'équipe RSSI.".to_string()),
        "error",
    );
    let t = translator.translate("custom-dlp-pattern triggered for user sophie", "custom-dlp-pattern", &[]);
    assert!(t.is_learned);
    assert_eq!(t.status_level, "error");
    assert_eq!(t.meaning, "🚨 Détection Sur-Mesure : Fuite de données classifiée confidentielle par sophie");
    assert!(t.explanation.as_ref().unwrap().contains("responsable SOC"));
    assert!(t.recommendation.as_ref().unwrap().contains("équipe RSSI"));
}

#[test]
fn learned_patterns_are_case_insensitive_and_replaced() {
    let mut translator = LogTranslator::new();
    translator.load_custom_translations(vec![
        ("Disk-Full".to_string(), "Disque plein (1)".to_string(), None, None, "warning".to_string()),
        ("disk-full".to_string(), "Disque plein (2)".to_string(), None, None, "error".to_string()),
    ]);
    let t = translator.translate("kernel: DISK-FULL on /dev/sda1", "kernel: DISK-FULL on <PATH>", &[]);
    assert!(t.is_learned);
    assert_eq!(t.meaning, "Disque plein (2)");
    assert_eq!(t.status_level, "error");
    assert_eq!(t.explanation, None);
}

#[test]
fn learned_translation_comes_before_the_dictionary() {
    let mut translator = LogTranslator::with_rules(vec![rule("disk full", "Règle du dictionnaire", None, "info")]);
    translator.insert_custom_translation("disk full", "Traduction apprise", None, None, "warning");
    let t = translator.translate("disk full on /var", "disk full on <PATH>", &[]);
    assert!(t.is_learned);
    assert_eq!(t.meaning, "Traduction apprise");
}

#[test]
fn dictionary_rule_is_filled_in_from_the_line() {
    let translator = LogTranslator::with_rules(vec![rule(
        "EventID=4625",
        "Échec de connexion Windows (EventID 4625) pour {user}",
        Some("Tentative {0}"),
        "error",
    )]);
    let t = translator.translate(
        "  EventID=4625 An account failed to log on for user Marc  ",
        "EventID=<NUM>",
        &["p0".to_string()],
    );
    assert!(!t.is_learned);
    assert_eq!(t.status_level, "error");
    assert_eq!(t.meaning, "Échec de connexion Windows (EventID 4625) pour Marc");
    assert_eq!(t.explanation.as_deref(), Some("Tentative p0"));
    assert_eq!(t.recommendation, None);
}

#[test]
fn separators_are_read_as_spaces() {
    let translator = LogTranslator::with_rules(vec![rule("eventid_4740", "Compte utilisateur verrouillé", None, "error")]);
    let t = translator.translate("EventID-4740 account locked out", "x", &[]);
    assert_eq!(t.meaning, "Compte utilisateur verrouillé");
    assert!(matches_pattern(&chars("eventid-4740 locked"), &chars("x"), &chars("eventid_4740")));
    assert!(!matches_pattern(&chars("eventid 4741"), &chars("x"), &chars("eventid_4740")));
    // A run of separators and spaces reads as one separator.
    assert!(matches_pattern(&chars("eventid 4625 logon"), &chars(""), &chars("eventid=4625")));
    assert!(matches_pattern(&chars("eventid: 4625 logon"), &chars(""), &chars("eventid=4625")));
    assert!(matches_pattern(&chars("user =  root"), &chars(""), &chars("user: root")));
}

#[test]
fn closest_rule_by_words() {
    let translator = LogTranslator::with_rules(vec![
        rule("kernel panic", "Panique noyau", None, "error"),
        rule("session closed for user", "Fermeture de session", None, "info"),
    ]);
    let t = translator.translate("session was closed for user", "x", &[]);
    assert_eq!(t.meaning, "Fermeture de session");
    assert_eq!(t.status_level, "info");
    assert!(!t.is_learned);
}

#[test]
fn jaccard_similarity_of_significant_words() {
    assert_eq!(
        token_jaccard_similarity(&chars("session was closed for user"), &chars("session closed for user")),
        (4, 5)
    );
    // Words of two bytes or less do not count; repeated words count once.
    assert_eq!(token_jaccard_similarity(&chars("a to be user user"), &chars("user")), (1, 1));
    // No significant word: similarity 0/1.
    assert_eq!(token_jaccard_similarity(&chars("a b"), &chars("user")), (0, 1));
    // The similarity does not depend on the order of its arguments.
    let x = chars("alex opened session closed completely");
    let y = chars("session closed for user");
    assert_eq!(token_jaccard_similarity(&x, &y), token_jaccard_similarity(&y, &x));
    assert_eq!(token_jaccard_similarity(&x, &y), (2, 7));
}

#[test]
fn heuristic_readings() {
    let (m, e, r, l) = heuristic_translation("ERROR: connection failed from 10.0.0.5", "ERROR: connection failed from <IP>", &[]);
    assert_eq!(m, "🔴 Événement d'erreur ou d'échec détecté (depuis l'adresse IP 10.0.0.5)");
    assert_eq!(e, "Ce journal signale une anomalie ou un rejet lors d'une opération système ou applicative.");
    assert!(r.starts_with("Vérifiez"));
    assert_eq!(l, "error");

    let (m, _, _, l) = heuristic_translation("authentication failure for user bob from 10.1.1.1", "t", &[]);
    assert_eq!(m, "🔴 Événement d'erreur ou d'échec détecté (concernant l'utilisateur 'bob' depuis l'IP 10.1.1.1)");
    assert_eq!(l, "error");

    let (m, _, _, l) = heuristic_translation("Permission denied while opening file", "Permission denied <X>", &[]);
    assert_eq!(m, "⚠️ Avertissement de sécurité ou accès restreint : Permission denied <X>");
    assert_eq!(l, "warning");

    let (m, _, r, l) = heuristic_translation("Accepted publickey for alice", "t", &[]);
    assert_eq!(m, "🟢 Opération ou authentification validée avec succès pour 'alice'");
    assert_eq!(r, "Aucune action requise (activité opérationnelle conforme).");
    assert_eq!(l, "success");

    let (m, _, _, l) = heuristic_translation("service started", "service started", &[]);
    assert_eq!(m, "🔵 Activité opérationnelle : service started");
    assert_eq!(l, "info");
}

#[test]
fn fallback_always_explains() {
    let translator = LogTranslator::new();
    let t = translator.translate("  nothing to see here  ", "nothing to see here", &[]);
    assert!(!t.is_learned);
    assert_eq!(t.status_level, "info");
    assert!(t.explanation.is_some());
    assert!(t.recommendation.is_some());
}

#[test]
fn interpolation_of_parameters_and_entities() {
    let out = interpolate(
        "Utilisateur {user} depuis {ip} port {port} ({0}) {unknown}",
        &["X".to_string()],
        "Failed password for root from 192.168.1.105 port 22 ssh2",
    );
    assert_eq!(out, "Utilisateur root depuis 192.168.1.105 port 22 (X) non spécifié");
    // The parameters are replaced in order: a placeholder brought in by a later
    // parameter is not filled, and reads as unresolved.
    let out = interpolate("{1}-{0}", &["a".to_string(), "{0}".to_string()], "line");
    assert_eq!(out, "non spécifié-a");
}

#[test]
fn named_entities_of_a_line() {
    let e = extract_all_named_entities("sshd[42]: Accepted password for invalid user admin from 10.0.0.7 port 2222 cmd=/bin/ls table users status=404 domain: CORP");
    assert_eq!(e.ip.as_deref(), Some("10.0.0.7"));
    assert_eq!(e.user.as_deref(), Some("admin"));
    assert_eq!(e.port.as_deref(), Some("2222"));
    assert_eq!(e.cmd.as_deref(), Some("/bin/ls"));
    assert_eq!(e.table.as_deref(), Some("users"));
    assert_eq!(e.status.as_deref(), Some("404"));
    assert_eq!(e.app.as_deref(), Some("sshd"));
    assert_eq!(e.domain.as_deref(), Some("CORP"));
    assert_eq!(e.file.as_deref(), Some("/bin/ls"));
}

#[test]
fn the_port_is_not_read_from_a_time_of_day() {
    let e = extract_all_named_entities("Aug 21 12:00:00 server sshd[123]: Connection accepted from 192.168.1.99 port 54321 for admin");
    assert_eq!(e.port.as_deref(), Some("54321"));
    let e = extract_all_named_entities("2026-08-20T10:50:02.123456Z GET 10.0.0.1:8080 /index");
    assert_eq!(e.port.as_deref(), Some("8080"));
    assert_eq!(extract_all_named_entities("at 10:50:02 nothing").port, None);
}

#[test]
fn dictionary_replacement_and_sync() {
    let mut translator = LogTranslator::new();
    assert_eq!(translator.replace_rules(vec![rule("a", "A", None, "info"), rule("b", "B", None, "info")]), 2);
    assert_eq!(translator.get_all_rules().len(), 2);
    // An empty download leaves the dictionary as it was.
    assert_eq!(translator.sync_rules(Vec::new()), 0);
    assert_eq!(translator.get_all_rules().len(), 2);
    assert_eq!(translator.sync_rules(vec![rule("c", "C", None, "error")]), 1);
    let rules = translator.get_all_rules();
    assert_eq!(rules.len(), 1);
    assert_eq!(rules[0].pattern, "c");
    assert_eq!(rules[0].status_level, "error");
}

#[test]
fn named_placeholders_are_filled_from_entities() {
    let e = NamedEntities {
        ip: Some("10.0.0.7".to_string()),
        user: None,
        port: Some("22".to_string()),
        cmd: None,
        file: Some("/etc/shadow".to_string()),
        table: None,
        status: Some("404".to_string()),
        app: None,
        domain: None,
    };
    assert_eq!(
        fill_named_entities("{ip}:{port} {user} {path} {code} {file}", &e),
        "10.0.0.7:22 {user} /etc/shadow 404 /etc/shadow"
    );
}
