//! What follows an alert: the webhook notification (Slack, Discord, Teams or
//! any HTTP endpoint) and the active-response script run for high alerts.
use vstd::prelude::*;
use crate::models::{
    category_name, category_variant_name, level_name, Alert, AlertCategory, AlertLevel,
};
use crate::text::{
    concat2, decimal, join, join_strings, owned, to_upper, trim, trim_str, u64_to_string,
    uppercase_of, views,
};

verus! {

// ──────────────────────────────── webhooks ────────────────────────────────

/// The sign that opens a notification, by level.
pub open spec fn severity_emoji(l: AlertLevel) -> Seq<char> {
    match l {
        AlertLevel::High => "🚨"@,
        AlertLevel::Moderate => "⚠️"@,
        AlertLevel::Low => "ℹ️"@,
        AlertLevel::Benign => "✅"@,
    }
}

/// A score in parts per million as a whole percentage, rounded half up.
pub open spec fn percent(ppm: u32) -> nat {
    ((ppm as nat + 5000) / 10000) as nat
}

/// The `text` field of a notification (Slack's markdown).
pub open spec fn notification_text(a: Alert) -> Seq<char> {
    severity_emoji(a.level) + " *[DeFuDoLog] Alerte de Sécurité ["@ + uppercase_of(
        category_name(a.category),
    ) + "]*\n> *Catégorie:* "@ + category_name(a.category) + "\n> *Niveau:* "@ + level_name(
        a.level,
    ) + "\n> *Score:* "@ + decimal(percent(a.final_score)) + "%\n> *Raisons:* "@ + join(
        views(a.reasons@),
        ", "@,
    )
}

/// The `content` field of a notification (Discord's markdown).
pub open spec fn notification_content(a: Alert) -> Seq<char> {
    severity_emoji(a.level) + " **[DeFuDoLog] Alerte ["@ + category_name(a.category) + "]**: "@
        + join(views(a.reasons@), ", "@) + " (Score: "@ + decimal(percent(a.final_score)) + "%)"@
}

/// The message of a webhook test on an empty address.
pub const EMPTY_WEBHOOK_URL: &'static str = "Veuillez saisir une URL de webhook valide (ex: https://hooks.slack.com/...)";

/// The `text` field of a webhook test.
pub const TEST_TEXT: &'static str = "🟢 *[DeFuDoLog] Test de connexion Webhook réussi !*\n> Les notifications d'alertes en temps réel sont désormais actives.";

/// The `content` field of a webhook test.
pub const TEST_CONTENT: &'static str = "🟢 **[DeFuDoLog] Test de connexion Webhook réussi !**";

/// Notifies webhooks of alerts.
pub struct WebhookNotifier;

impl WebhookNotifier {
    /// The sign that opens a notification of the given level.
    pub fn severity_emoji(level: AlertLevel) -> (r: &'static str)
        ensures
            r@ == severity_emoji(level),
    {
        match level {
            AlertLevel::High => "🚨",
            AlertLevel::Moderate => "⚠️",
            AlertLevel::Low => "ℹ️",
            AlertLevel::Benign => "✅",
        }
    }

    fn percent_text(ppm: u32) -> (r: String)
        ensures
            r@ == decimal(percent(ppm)),
    {
        let p: u64 = (ppm as u64 + 5000) / 10000;
        u64_to_string(p)
    }

    /// Whether an alert is sent to `webhook_url`: only to a non-blank address.
    pub fn should_notify(webhook_url: &str) -> (r: bool)
        ensures
            r == (trim(webhook_url@).len() > 0),
    {
        trim_str(webhook_url).len() > 0
    }

    /// The `text` and `content` fields of the notification of an alert.
    pub fn notification_texts(alert: &Alert) -> (r: (String, String))
        ensures
            r.0@ == notification_text(*alert),
            r.1@ == notification_content(*alert),
    {
        let emoji = Self::severity_emoji(alert.level);
        let cat = alert.category.as_str();
        let upper = to_upper(cat);
        let level = alert.level.as_str();
        let pct = Self::percent_text(alert.final_score);
        let reasons = join_strings(alert.reasons.as_slice(), ", ");
        let t1 = concat2(emoji, " *[DeFuDoLog] Alerte de Sécurité [");
        let t2 = concat2(t1.as_str(), upper.as_str());
        let t3 = concat2(t2.as_str(), "]*\n> *Catégorie:* ");
        let t4 = concat2(t3.as_str(), cat);
        let t5 = concat2(t4.as_str(), "\n> *Niveau:* ");
        let t6 = concat2(t5.as_str(), level);
        let t7 = concat2(t6.as_str(), "\n> *Score:* ");
        let t8 = concat2(t7.as_str(), pct.as_str());
        let t9 = concat2(t8.as_str(), "%\n> *Raisons:* ");
        let text = concat2(t9.as_str(), reasons.as_str());
        let c1 = concat2(emoji, " **[DeFuDoLog] Alerte [");
        let c2 = concat2(c1.as_str(), cat);
        let c3 = concat2(c2.as_str(), "]**: ");
        let c4 = concat2(c3.as_str(), reasons.as_str());
        let c5 = concat2(c4.as_str(), " (Score: ");
        let c6 = concat2(c5.as_str(), pct.as_str());
        let content = concat2(c6.as_str(), "%)");
        (text, content)
    }

    /// Accepts a webhook address for a test, or refuses a blank one.
    pub fn check_test_url(webhook_url: &str) -> (r: Result<(), String>)
        ensures
            r is Ok <==> trim(webhook_url@).len() > 0,
            r matches Err(e) ==> e@ == EMPTY_WEBHOOK_URL@,
    {
        if trim_str(webhook_url).len() == 0 {
            Err(owned(EMPTY_WEBHOOK_URL))
        } else {
            Ok(())
        }
    }

    /// The error of a notification that could not be delivered.
    pub fn delivery_failure(error: &str) -> (r: String)
        ensures
            r@ == "Échec de l'envoi au webhook: "@ + error@,
    {
        concat2("Échec de l'envoi au webhook: ", error)
    }

    /// The error of a notification that the endpoint answered with a failure
    /// status (as displayed).
    pub fn rejected_status(status: &str) -> (r: String)
        ensures
            r@ == "Le serveur Webhook a répondu avec le statut HTTP "@ + status@,
    {
        concat2("Le serveur Webhook a répondu avec le statut HTTP ", status)
    }

    /// The error of a test that could not be delivered.
    pub fn test_delivery_failure(error: &str) -> (r: String)
        ensures
            r@ == "Impossible de contacter l'URL webhook: "@ + error@,
    {
        concat2("Impossible de contacter l'URL webhook: ", error)
    }

    /// The error of a test that the endpoint answered with a failure status.
    pub fn test_rejected_status(status: &str) -> (r: String)
        ensures
            r@ == "Le serveur Webhook a renvoyé le statut HTTP "@ + status@,
    {
        concat2("Le serveur Webhook a renvoyé le statut HTTP ", status)
    }
}

/// Where the alerts are sent: the configured address, else the one from the
/// environment, provided it is not blank.
pub open spec fn webhook_destination(configured: Option<Seq<char>>, from_env: Option<Seq<char>>) -> Option<Seq<char>> {
    let chosen = match configured {
        Some(u) => Some(u),
        None => from_env,
    };
    match chosen {
        Some(u) => if trim(u).len() > 0 {
            Some(u)
        } else {
            None
        },
        None => None,
    }
}

/// Where the alerts are sent, if anywhere.
pub fn webhook_target(configured: Option<String>, from_env: Option<String>) -> (r: Option<String>)
    ensures
        crate::text::opt_view(r) == webhook_destination(
            crate::text::opt_view(configured),
            crate::text::opt_view(from_env),
        ),
{
    let chosen = match configured {
        Some(u) => Some(u),
        None => from_env,
    };
    match chosen {
        Some(u) => if trim_str(u.as_str()).len() > 0 {
            Some(u)
        } else {
            None
        },
        None => None,
    }
}

// ──────────────────────────── active response ────────────────────────────

/// The script run when no script is configured, on Unix.
pub const DEFAULT_UNIX_SCRIPT: &'static str = "#!/bin/sh\necho \"DefuDoLog SOAR triggered for Alert: $1 | Category: $2\" >> /tmp/defudolog_soar.log\n";

/// The script run when no script is configured, on Windows.
pub const DEFAULT_WINDOWS_SCRIPT: &'static str = "Write-Output \"DefuDoLog SOAR triggered for Alert: $args[0] | Category: $args[1]\" | Out-File -Append -FilePath \"$env:TEMP\\defudolog_soar.log\"\n";

/// The script run for an alert: none below the high level; the configured
/// script unless it is blank, else the default one of the system.
pub open spec fn response_script_of(level: AlertLevel, configured: Option<Seq<char>>, is_windows: bool) -> Option<Seq<char>> {
    if level != AlertLevel::High {
        None
    } else {
        match configured {
            Some(s) => if trim(s).len() > 0 {
                Some(s)
            } else if is_windows {
                Some(DEFAULT_WINDOWS_SCRIPT@)
            } else {
                Some(DEFAULT_UNIX_SCRIPT@)
            },
            None => if is_windows {
                Some(DEFAULT_WINDOWS_SCRIPT@)
            } else {
                Some(DEFAULT_UNIX_SCRIPT@)
            },
        }
    }
}

/// How a response script is launched: program and arguments.
pub open spec fn launch_of(is_windows: bool, script_path: Seq<char>, arg1: Seq<char>, arg2: Seq<char>) -> (Seq<char>, Seq<Seq<char>>) {
    if is_windows {
        (
            "powershell.exe"@,
            seq![
                "-WindowStyle"@,
                "Hidden"@,
                "-NoProfile"@,
                "-ExecutionPolicy"@,
                "Bypass"@,
                "-File"@,
                script_path,
                arg1,
                arg2,
            ],
        )
    } else {
        ("/bin/sh"@, seq![script_path, arg1, arg2])
    }
}

/// The script that new settings propose: it records the mitigation with the
/// alert's id and category, and shows how an address could be blocked.
pub const PROPOSED_RESPONSE_SCRIPT: &'static str = "#!/bin/sh\n# Script de remédiation SOAR (Active Response)\n# Paramètres reçus : $1=ALERT_ID, $2=CATEGORY\necho \"[$(date)] Mitigation déclenchée pour l'alerte $1 ($2)\" >> /tmp/defudelog_soar.log\n# Exemple : bloquer une IP avec iptables\n# iptables -A INPUT -s $3 -j DROP\n";

/// The message of a script test with an empty script.
pub const EMPTY_SOAR_SCRIPT: &'static str = "Le contenu du script SOAR ne peut pas être vide.";

/// Runs mitigation scripts for high alerts.
pub struct ActiveResponseEngine;

impl ActiveResponseEngine {
    /// The script to run for an alert of the given level, if any.
    pub fn response_script(level: AlertLevel, configured: &Option<String>, is_windows: bool) -> (r: Option<String>)
        ensures
            crate::text::opt_view(r) == response_script_of(
                level,
                crate::text::opt_view(*configured),
                is_windows,
            ),
    {
        if level != AlertLevel::High {
            return None;
        }
        let default = if is_windows {
            DEFAULT_WINDOWS_SCRIPT
        } else {
            DEFAULT_UNIX_SCRIPT
        };
        match configured {
            Some(s) => if trim_str(s.as_str()).len() > 0 {
                Some(s.clone())
            } else {
                Some(owned(default))
            },
            None => Some(owned(default)),
        }
    }

    /// The arguments handed to the script: the alert's id and its category's
    /// variant name.
    pub fn response_arguments(alert: &Alert) -> (r: (String, String))
        ensures
            r.0@ == alert.id@,
            r.1@ == category_variant_name(alert.category),
    {
        (alert.id.clone(), owned(alert.category.variant_name()))
    }

    /// The file, in the temporary directory, that the script is written to.
    pub fn script_file_name(is_windows: bool) -> (r: &'static str)
        ensures
            r@ == if is_windows {
                "defudolog_active_response.ps1"@
            } else {
                "defudolog_active_response.sh"@
            },
    {
        if is_windows {
            "defudolog_active_response.ps1"
        } else {
            "defudolog_active_response.sh"
        }
    }

    /// How the script written at `script_path` is launched with its two
    /// arguments: by PowerShell, hidden and without execution policy, on
    /// Windows; by `/bin/sh` elsewhere.
    pub fn script_launch(is_windows: bool, script_path: &str, arg1: &str, arg2: &str) -> (r: (String, Vec<String>))
        ensures
            (r.0@, views(r.1@)) == launch_of(is_windows, script_path@, arg1@, arg2@),
    {
        let mut args: Vec<String> = Vec::new();
        if is_windows {
            args.push(owned("-WindowStyle"));
            args.push(owned("Hidden"));
            args.push(owned("-NoProfile"));
            args.push(owned("-ExecutionPolicy"));
            args.push(owned("Bypass"));
            args.push(owned("-File"));
            args.push(owned(script_path));
            args.push(owned(arg1));
            args.push(owned(arg2));
            assert(views(args@) =~= launch_of(is_windows, script_path@, arg1@, arg2@).1);
            (owned("powershell.exe"), args)
        } else {
            args.push(owned(script_path));
            args.push(owned(arg1));
            args.push(owned(arg2));
            assert(views(args@) =~= launch_of(is_windows, script_path@, arg1@, arg2@).1);
            (owned("/bin/sh"), args)
        }
    }

    /// Accepts a script for a test run, or refuses a blank one.
    pub fn check_test_script(script: &str) -> (r: Result<(), String>)
        ensures
            r is Ok <==> trim(script@).len() > 0,
            r matches Err(e) ==> e@ == EMPTY_SOAR_SCRIPT@,
    {
        if trim_str(script).len() == 0 {
            Err(owned(EMPTY_SOAR_SCRIPT))
        } else {
            Ok(())
        }
    }
}

// ────────────────────────────────── laws ──────────────────────────────────

/// Only high alerts trigger a response, and every high alert triggers one.
pub proof fn law_response_only_for_high(level: AlertLevel, configured: Option<Seq<char>>, is_windows: bool)
    ensures
        response_script_of(level, configured, is_windows) is Some <==> level == AlertLevel::High,
{
}

/// A configured script that is not blank is the one that runs.
pub proof fn law_configured_script_runs(configured: Seq<char>, is_windows: bool)
    requires
        trim(configured).len() > 0,
    ensures
        response_script_of(AlertLevel::High, Some(configured), is_windows) == Some(configured),
{
}

} // verus!
