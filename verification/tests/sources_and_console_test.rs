use defudelog::collector::{
    collection_for, ingest_record, journald_args, line_reading_unparsed, macos_stream_args, permission_error_line, powershell_args,
    stream_line, tail_read, tail_resume, windows_first_read_lines, windows_follow_script, windows_line, windows_read_script,
    Collection,
};
use defudelog::console_page::get_embedded_web_app_html;
use defudelog::lan::{
    console_url, fixed_response, generate_random_access_key, handle_request, key_from_draws, http_response, usable_local_ip, Route,
    ACCESS_KEY_CHARSET,
};
use defudelog::models::{default_priority, LanServerSettings, PermissionStatus, RetentionSettings, SourceType, Timestamp};
use defudelog::sources::{
    demo_batch, demo_source, discover_local_sources, discovery_candidates, elevation_command, new_log_source, parse_source_type,
    permission_report, resolve_candidate, Probe, SourceConfig,
};
use defudelog::store::{
    activity_slots, alerts_filter, archive_file_name, context_window, default_rule_row, host_filter, listing_total_pages,
    network_node, network_source_name, node_ip, page_number, page_window, purge_result, raw_logs_filter, raw_logs_total_pages,
    raw_logs_window, stored_source_type, template_translation,
};
use defudelog::syslog::{parse_syslog_line, syslog_record, syslog_source_id};
use defudelog::translator::LogTranslator;

fn ts(secs: i64) -> Timestamp {
    Timestamp { secs, nanos: 0 }
}

fn empty_config() -> SourceConfig {
    SourceConfig {
        path: None,
        pattern: None,
        unit_filter: None,
        predicate: None,
        channel: None,
        query: None,
        port: None,
        protocol: None,
        topic: None,
        brokers: None,
    }
}

// ─── syslog ───

#[test]
fn rfc3164_line_gives_host_and_message() {
    let (h, m) = parse_syslog_line("10.0.0.5", "<34>Oct 11 22:14:15 mymachine su: 'su root' failed for lonvick on /dev/pts/8");
    assert_eq!(h, "mymachine");
    assert_eq!(m, "su: 'su root' failed for lonvick on /dev/pts/8");
}

#[test]
fn rfc5424_line_gives_its_hostname() {
    let (h, m) = parse_syslog_line(
        "10.0.0.5",
        "<165>1 2003-10-11T22:14:15.003Z mymachine.example.com evntslog - ID47 - An application event",
    );
    assert_eq!(h, "mymachine.example.com");
    assert_eq!(m, "evntslog - ID47 - An application event");
    // Without a header, a leading 1 is an ordinary word.
    let (h, _) = parse_syslog_line("10.0.0.5", "1 a b c d");
    assert_eq!(h, "c");
}

#[test]
fn short_line_is_kept_under_the_sender() {
    let (h, m) = parse_syslog_line("10.0.0.5", "  <13>hello   world  ");
    assert_eq!(h, "10.0.0.5");
    assert_eq!(m, "hello   world");
    // Four words and nothing after the host name.
    let (h, m) = parse_syslog_line("10.0.0.5", "Oct 11 22:14:15 host");
    assert_eq!((h.as_str(), m.as_str()), ("10.0.0.5", "Oct 11 22:14:15 host"));
    // Without a closing `>` the header stays.
    let (_, m) = parse_syslog_line("ip", "<34 a b");
    assert_eq!(m, "<34 a b");
}

#[test]
fn syslog_records() {
    assert_eq!(syslog_source_id("192.168.1.9"), "network_syslog_192.168.1.9");
    let r = syslog_record("192.168.1.9", "<1>Oct 1 00:00:00 fw kernel: drop", "id-1".to_string(), ts(7));
    assert_eq!(r.hostname, "fw");
    assert_eq!(r.raw_message, "kernel: drop");
    assert_eq!(r.source_id, "network_syslog_192.168.1.9");
    assert_eq!(r.log_hash.len(), 64);
    assert_eq!(r.meaning, None);
    assert_eq!(r.timestamp, ts(7));
}

// ─── sources ───

#[test]
fn source_kinds_by_name() {
    let mut c = empty_config();
    c.path = Some("/var/log/x.log".to_string());
    match parse_source_type("File_Watcher", &c) {
        SourceType::FileWatcher { path, pattern } => {
            assert_eq!(path, "/var/log/x.log");
            assert_eq!(pattern, None);
        }
        other => panic!("unexpected {:?}", other),
    }
    match parse_source_type("WINDOWS_EVENT_LOG", &empty_config()) {
        SourceType::WindowsEventLog { channel, query } => {
            assert_eq!(channel, "Security");
            assert_eq!(query, None);
        }
        other => panic!("unexpected {:?}", other),
    }
    let mut c = empty_config();
    c.port = Some(70000);
    match parse_source_type("network_syslog", &c) {
        SourceType::NetworkSyslog { port, protocol } => {
            assert_eq!(port, 4464);
            assert_eq!(protocol, "udp/tcp");
        }
        other => panic!("unexpected {:?}", other),
    }
    let mut c = empty_config();
    c.brokers = Some(vec![Some("k1:9092".to_string()), None, Some("k2:9092".to_string())]);
    match parse_source_type("kafka", &c) {
        SourceType::Kafka { topic, brokers } => {
            assert_eq!(topic, "logs");
            assert_eq!(brokers, vec!["k1:9092".to_string(), "k2:9092".to_string()]);
        }
        other => panic!("unexpected {:?}", other),
    }
    match parse_source_type("something else", &empty_config()) {
        SourceType::FileWatcher { path, .. } => assert_eq!(path, ""),
        other => panic!("unexpected {:?}", other),
    }
    match stored_source_type("file_watcher", &empty_config()) {
        SourceType::FileWatcher { pattern, .. } => assert_eq!(pattern.as_deref(), Some("*")),
        other => panic!("unexpected {:?}", other),
    }
    // A stored kind name is read exactly.
    match stored_source_type("Journald", &empty_config()) {
        SourceType::FileWatcher { .. } => {}
        other => panic!("unexpected {:?}", other),
    }
}

#[test]
fn new_sources() {
    let s = new_log_source("i".to_string(), "n".to_string(), SourceType::Journald { unit_filter: None }, "h".to_string(), "linux".to_string(), "{}".to_string(), ts(3));
    assert!(s.enabled);
    assert_eq!(s.priority, "normal");
    assert_eq!(default_priority(), "normal");
    assert_eq!(s.created_at, ts(3));
}

#[test]
fn discovery_candidates_by_system() {
    assert_eq!(discovery_candidates("macos").len(), 7);
    assert_eq!(discovery_candidates("darwin").len(), 7);
    assert_eq!(discovery_candidates("linux").len(), 12);
    assert_eq!(discovery_candidates("windows").len(), 5);
    assert_eq!(discovery_candidates("freebsd").len(), 0);
    let linux = discovery_candidates("linux");
    assert_eq!(linux[1].target_path, "/var/log/auth.log");
    assert_eq!(linux[11].name, "Apache Web Server Error");
}

#[test]
fn discovery_follows_the_probes() {
    let n = discovery_candidates("linux").len();
    let mut probes: Vec<Probe> = (0..n).map(|_| Probe::Missing).collect();
    probes[0] = Probe::Readable; // the journal
    probes[1] = Probe::PermissionDenied; // auth.log
    probes[4] = Probe::Unreadable { error: "io".to_string() }; // syslog
    let ids: Vec<String> = (0..n).map(|k| format!("id{}", k)).collect();
    let found = discover_local_sources("linux", "host", &probes, &ids);
    assert_eq!(found.len(), 3);
    assert_eq!(found[0].name, "Linux systemd-journald");
    assert_eq!(found[0].id, "id0");
    assert_eq!(found[1].target_path, "/var/log/auth.log");
    assert_eq!(found[1].status, PermissionStatus::PermissionDenied);
    assert!(found[1].permission_help.as_ref().unwrap().ends_with("sudo chmod +r /var/log/auth.log"));
    assert_eq!(found[1].config, vec![("path".to_string(), "/var/log/auth.log".to_string())]);
    assert_eq!(found[2].status, PermissionStatus::NotFound);
    assert_eq!(found[2].id, "id4");
    assert_eq!(found[2].hostname, "host");

    let wn = discovery_candidates("windows").len();
    let wprobes: Vec<Probe> = (0..wn).map(|_| Probe::Missing).collect();
    let wids: Vec<String> = (0..wn).map(|k| k.to_string()).collect();
    let w = discover_local_sources("windows", "pc", &wprobes, &wids);
    assert_eq!(w.len(), 5);
    assert_eq!(w[0].status, PermissionStatus::RequiresElevation);
    assert_eq!(w[1].status, PermissionStatus::Accessible);
    assert_eq!(w[3].target_path, "EventLog Channel: Microsoft-Windows-PowerShell/Operational");

    let mac = discovery_candidates("macos");
    let d = resolve_candidate(&mac[0], &Probe::Missing, "m", "x").unwrap();
    assert_eq!(d.config[0].0, "predicate");
    assert!(resolve_candidate(&mac[1], &Probe::Missing, "m", "x").is_none());
}

#[test]
fn permission_reports() {
    let r = permission_report(&Probe::Missing, "linux", "/x");
    assert_eq!((r.status.as_str(), r.readable), ("not_found", false));
    let r = permission_report(&Probe::Readable, "linux", "/x");
    assert_eq!((r.status.as_str(), r.readable, r.message.as_str()), ("accessible", true, "Fichier accessible en lecture."));
    let r = permission_report(&Probe::PermissionDenied, "darwin", "/x");
    assert!(r.message.starts_with("Accès refusé par macOS.") && r.message.ends_with("sudo chmod +r /x"));
    let r = permission_report(&Probe::PermissionDenied, "plan9", "/x");
    assert_eq!(r.message, "Permissions insuffisantes pour lire ce fichier.");
    let r = permission_report(&Probe::Unreadable { error: "Is a directory".to_string() }, "linux", "/x");
    assert_eq!((r.status.as_str(), r.message.as_str()), ("error", "Erreur d'accès : Is a directory"));
}

#[test]
fn elevation_commands() {
    let (p, a) = elevation_command("windows", "C:\\Program Files\\O'Neil\\app.exe");
    assert_eq!(p, "powershell");
    assert_eq!(a[3], "Start-Process -FilePath 'C:\\Program Files\\O''Neil\\app.exe' -Verb RunAs");
    let (p, a) = elevation_command("macos", "/Applications/A.app");
    assert_eq!(p, "osascript");
    assert_eq!(a, vec!["-e".to_string(), "do shell script \"open '/Applications/A.app'\" with administrator privileges".to_string()]);
    let (p, a) = elevation_command("linux", "/usr/bin/app");
    assert_eq!((p.as_str(), a), ("pkexec", vec!["/usr/bin/app".to_string()]));
}

#[test]
fn demonstration_data() {
    let (sources, batch) = demo_batch(ts(9));
    assert_eq!(batch.len(), 12);
    let hosts: Vec<&str> = sources.iter().map(|s| s.hostname.as_str()).collect();
    assert_eq!(hosts, vec!["srv-db-01", "fw-core-01", "srv-app-02", "srv-web-01"]);
    assert_eq!(sources[0].id, "demo_source_srv-db-01");
    assert_eq!(sources[0].name, "Source Démo (srv-db-01)");
    assert_eq!(sources[0].os, "demo");
    assert_eq!(batch[2].0, "demo_source_fw-core-01");
    assert!(batch[2].2.contains("Failed password for invalid user admin"));
    assert_eq!(batch[11].3, ts(9));
    assert_eq!(demo_source("h", ts(1)).config, "{}");
}

// ─── collection ───

#[test]
fn how_sources_are_followed() {
    match collection_for(&SourceType::FileWatcher { path: "/p".to_string(), pattern: None }) {
        Collection::WatchFile { path } => assert_eq!(path, "/p"),
        _ => panic!(),
    }
    assert!(matches!(collection_for(&SourceType::Journald { unit_filter: None }), Collection::Journald));
    assert!(matches!(collection_for(&SourceType::NetworkSyslog { port: 1, protocol: String::new() }), Collection::Elsewhere));
    assert_eq!(macos_stream_args(&None), vec!["stream", "--style", "syslog"]);
    assert_eq!(macos_stream_args(&Some(String::new())), vec!["stream", "--style", "syslog"]);
    assert_eq!(macos_stream_args(&Some("p".to_string())), vec!["stream", "--style", "syslog", "--predicate", "p"]);
    assert_eq!(journald_args(), vec!["--follow", "--output=short-iso", "--no-pager"]);
    assert_eq!(powershell_args("s")[5], "s");
    assert!(windows_read_script("Security").starts_with("Get-WinEvent -LogName 'Security' -MaxEvents 25 |"));
    assert!(windows_follow_script("System").contains("@{LogName='System'; StartTime=$lastTime}"));
}

#[test]
fn lines_that_are_ingested() {
    assert_eq!(stream_line("  a b ").as_deref(), Some("  a b "));
    assert_eq!(stream_line(" \t "), None);
    assert_eq!(windows_line("  a b ").as_deref(), Some("a b"));
    assert_eq!(
        windows_first_read_lines(true, "l1\r\n  \n l2 \n", "", "Security"),
        vec!["l1".to_string(), "l2".to_string()]
    );
    assert_eq!(
        windows_first_read_lines(false, "", "Get-WinEvent : Access is denied", "Security"),
        vec!["[DefuDelog WARNING] Accès restreint au canal Windows 'Security'. Lancez DefuDelog en tant qu'Administrateur pour surveiller ce canal.".to_string()]
    );
    assert!(windows_first_read_lines(false, "", "other failure", "Security").is_empty());
    assert_eq!(
        permission_error_line("/var/log/x", "denied"),
        "[DefuDelog PERMISSION ERROR] Impossible de lire le fichier '/var/log/x' : denied"
    );
}

#[test]
fn file_tails() {
    assert_eq!(tail_resume(100, 50), 0);
    assert_eq!(tail_resume(100, 150), 100);
    let (pos, lines) = tail_read(10, &["ab".to_string(), "  ".to_string(), "é".to_string()]);
    assert_eq!(pos, 10 + 3 + 3 + 3);
    assert_eq!(lines, vec!["ab".to_string(), "é".to_string()]);
}

#[test]
fn ingested_records() {
    let translator = LogTranslator::new();
    let reading = line_reading_unparsed(&translator, "service started");
    assert_eq!(reading.status_level, "info");
    let r = ingest_record(Some(reading), "src", "h", "service started", "id".to_string(), ts(5));
    assert_eq!(r.meaning.as_deref(), Some("🔵 Activité opérationnelle : service started"));
    assert!(r.explanation.is_some());
    let r = ingest_record(None, "src", "h", "x", "id".to_string(), ts(5));
    assert_eq!(r.meaning, None);
    assert_eq!(r.log_hash, "2d711642b726b04401627ca9fbac32f5c8530fb1903cc4db02258717921a4881");
}

// ─── storage ───

#[test]
fn default_rules_and_filters() {
    assert_eq!(default_rule_row(0), ("keyword-sens", "Mot-clé sensible", "keyword", "sens|secret|confidentiel|password|token|api_key", "high"));
    assert_eq!(default_rule_row(5).4, "moderate");
    assert_eq!(raw_logs_filter(Some("s1"), Some("err")), "WHERE source_id = 's1' AND raw_message LIKE '%err%'");
    assert_eq!(raw_logs_filter(None, Some("err")), "WHERE raw_message LIKE '%err%'");
    assert_eq!(raw_logs_filter(None, None), "");
    assert_eq!(alerts_filter(Some("high"), Some(true)), "WHERE level = 'high' AND acknowledged = 1");
    assert_eq!(alerts_filter(None, Some(false)), "WHERE acknowledged = 0");
    assert_eq!(alerts_filter(None, None), "");
    assert_eq!(host_filter(Some("h")), "AND hostname = 'h'");
}

#[test]
fn network_hosts() {
    assert_eq!(node_ip("network_syslog_10.1.2.3"), "10.1.2.3");
    assert_eq!(node_ip("file_1"), "127.0.0.1");
    let n = network_node("fw".to_string(), "network_syslog_10.1.2.3", 4, ts(1));
    assert_eq!((n.ip_address.as_str(), n.os.as_str(), n.log_count), ("10.1.2.3", "linux/unix", 4));
    assert_eq!(network_source_name("fw"), "Syslog (fw)");
}

#[test]
fn context_of_a_log() {
    let mk = |id: &str| {
        let (_, batch) = demo_batch(ts(0));
        let mut r = syslog_record("1.1.1.1", &batch[0].2, id.to_string(), ts(0));
        r.id = id.to_string();
        r
    };
    let w = context_window(vec![mk("b2"), mk("b1")], vec![mk("a1"), mk("a2")]);
    let ids: Vec<&str> = w.iter().map(|r| r.id.as_str()).collect();
    assert_eq!(ids, vec!["b1", "b2", "a1", "a2"]);
}

#[test]
fn paging() {
    assert_eq!(raw_logs_window(Some(20), None, Some(9), None), (20, 0));
    assert_eq!(raw_logs_window(None, Some(7), Some(3), Some(25)), (25, 50));
    assert_eq!(raw_logs_window(None, None, None, None), (50, 0));
    assert_eq!(page_number(50, 25), 3);
    assert_eq!(page_number(10, 0), 1);
    assert_eq!(raw_logs_total_pages(101, 50), 3);
    assert_eq!(raw_logs_total_pages(100, 50), 2);
    assert_eq!(raw_logs_total_pages(0, 50), 0);
    assert_eq!(raw_logs_total_pages(7, 0), 1);
    assert_eq!(listing_total_pages(7, 0), u64::MAX);
    assert_eq!(listing_total_pages(0, 0), 0);
    assert_eq!(listing_total_pages(7, 5), 2);
    assert_eq!(page_window(None, None), (1, 50, 0));
    assert_eq!(page_window(Some(4), Some(10)), (4, 10, 30));
}

#[test]
fn activity_chart_slots() {
    let slots = activity_slots(ts(1_786_000_000));
    assert_eq!(slots.len(), 24);
    // 1_786_000_000 is 2026-08-06T07:06:40Z.
    assert_eq!(slots[23], ("2026-08-06T07%".to_string(), "2026-08-06 07%".to_string(), "07:00".to_string()));
    assert_eq!(slots[0].2, "08:00");
    assert_eq!(slots[0].1, "2026-08-05 08%");
}

#[test]
fn purges_and_learned_translations() {
    let r = purge_result(12, 3, 30, Some("archives/a.json".to_string()));
    assert_eq!(r.message, "Purge terminée : 12 logs et 3 alertes supprimés (antérieurs à 30 jours).");
    assert_eq!(r.archive_file.as_deref(), Some("archives/a.json"));
    assert_eq!(archive_file_name("archives", "20260806_102640"), "archives/defudolog_archive_20260806_102640.json");
    let t = template_translation("abc", "fmt", "info", ts(2));
    assert_eq!(t.template_hash, "ba7816bf8f01cfea414140de5dae2223b00361a396177a9cb410ff61f20015ad");
    assert_eq!(t.learned_from, "user_custom");
    let d = RetentionSettings::default();
    assert_eq!((d.retention_days, d.archive_directory.as_str()), (30, "archives"));
}

// ─── console ───

fn request(lines: &[&str]) -> String {
    let mut s = lines.join("\r\n");
    s.push_str("\r\n\r\n");
    s
}

#[test]
fn console_routes() {
    let s = LanServerSettings::default();
    let r = handle_request(&request(&["GET /api/stats HTTP/1.1", "Host: x"]), &s).unwrap();
    assert_eq!(r.0, Route::Forbidden);
    let r = handle_request(&request(&["GET /api/stats?x=1 HTTP/1.1", "authorization: Bearer DF7K9QX"]), &s).unwrap();
    assert_eq!(r.0, Route::Stats);
    // The analyst sees the logs but not the network.
    let r = handle_request(&request(&["GET /api/logs HTTP/1.1", "Authorization: US4M2P8"]), &s).unwrap();
    assert_eq!(r.0, Route::Logs);
    let r = handle_request(&request(&["GET /api/network HTTP/1.1", "Authorization: Bearer US4M2P8"]), &s).unwrap();
    assert_eq!(r.0, Route::Forbidden);
    // The administrator reaches the rules; the analyst, without that view, does not.
    let r = handle_request(&request(&["GET /api/rules HTTP/1.1", "Authorization: Bearer DF7K9QX"]), &s).unwrap();
    assert_eq!(r.0, Route::Rules);
    let r = handle_request(&request(&["GET /api/rules HTTP/1.1", "Authorization: Bearer US4M2P8"]), &s).unwrap();
    assert_eq!(r.0, Route::Forbidden);
    let r = handle_request(&request(&["OPTIONS /api/logs HTTP/1.1"]), &s).unwrap();
    assert_eq!(r.0, Route::Preflight);
    let r = handle_request(&request(&["GET /index.html HTTP/1.1"]), &s).unwrap();
    assert_eq!(r.0, Route::Index);
    let r = handle_request(&request(&["GET /nope HTTP/1.1"]), &s).unwrap();
    assert_eq!(r.0, Route::NotFound);
    assert!(handle_request("GET\r\n\r\n", &s).is_none());
}

#[test]
fn console_logins() {
    let s = LanServerSettings::default();
    let login = |body: &str| {
        let req = format!("POST /api/auth/login HTTP/1.1\r\nContent-Type: application/json\r\n\r\n{}", body);
        handle_request(&req, &s).unwrap()
    };
    let (r, u) = login("{\"username\": \" admin_soc \", \"access_key\": \"df7k9qx\"}");
    assert_eq!((r, u.as_str()), (Route::LoginAdmin, "admin_soc"));
    let (r, _) = login("{\"username\": \"analyste\", \"access_key\": \"US4M2P8\"}");
    assert_eq!(r, Route::LoginUser);
    let (r, u) = login("{\"username\": \"analyste\", \"access_key\": \"nope\"}");
    assert_eq!((r, u.as_str()), (Route::LoginRejected, "analyste"));
    let (r, _) = login("not json");
    assert_eq!(r, Route::MalformedLogin);
}

#[test]
fn console_responses() {
    assert_eq!(
        http_response("200 OK", "text/plain", "é"),
        "HTTP/1.1 200 OK\r\nContent-Type: text/plain\r\nContent-Length: 2\r\nAccess-Control-Allow-Origin: *\r\nAccess-Control-Allow-Methods: GET, POST, OPTIONS\r\nAccess-Control-Allow-Headers: Authorization, Content-Type, Accept, Origin\r\nConnection: close\r\n\r\né"
    );
    assert_eq!(fixed_response(Route::NotFound), Some(("404 Not Found", "text/plain", "Page introuvable")));
    assert_eq!(fixed_response(Route::Stats), None);
    assert_eq!(console_url("192.168.1.4", 8080), "http://192.168.1.4:8080");
    assert!(usable_local_ip("192.168.1.4"));
    assert!(!usable_local_ip("127.0.0.1"));
    assert!(!usable_local_ip("0.0.0.0"));
    let page = get_embedded_web_app_html();
    assert!(page.starts_with("<!DOCTYPE html>"));
    assert!(page.ends_with("</html>"));
}

#[test]
fn access_keys() {
    for _ in 0..20 {
        let k = generate_random_access_key().unwrap();
        assert_eq!(k.chars().count(), 7);
        assert!(k.chars().all(|c| ACCESS_KEY_CHARSET.contains(c)));
    }
    assert_eq!(key_from_draws(&[0, 31, 8, 22, 23, 1, 7]), "A9JYZBH");
    assert_eq!(key_from_draws(&[]), "");
}
