//! Conversation with the language model that explains incidents: the address,
//! model and authorization of the requests, the prompts of an incident, and
//! what is made of the replies.
use vstd::prelude::*;
use crate::models::{LlmSettings, RawLog, Timestamp};
use crate::siem::{format_rfc3339, rfc3339_of};
use crate::text::{
    opt_view, concat2, digit, ends_with, ends_with_chars, from_chars, join, join_strings, owned, to_chars,
    trim, trim_str, views,
};

verus! {

// ──────────────────────────────── clock ────────────────────────────────

/// The two-digit form of `n < 100`.
pub open spec fn two_digits(n: int) -> Seq<char> {
    seq![digit((n / 10) as nat), digit((n % 10) as nat)]
}

/// The time of day, in UTC, of an instant `secs` seconds after the epoch, as
/// `HH:MM:SS` (chrono's `%H:%M:%S`).
pub open spec fn clock_of(secs: i64) -> Seq<char> {
    let d = secs as int % 86400;
    two_digits(d / 3600) + seq![':'] + two_digits(d % 3600 / 60) + seq![':'] + two_digits(d % 60)
}

fn two_digits_exec(n: u64, out: &mut Vec<char>)
    requires
        n < 100,
    ensures
        final(out)@ == old(out)@ + two_digits(n as int),
{
    let t = n / 10;
    let u = n % 10;
    let ct = crate::text::digit_exec(t);
    let cu = crate::text::digit_exec(u);
    out.push(ct);
    out.push(cu);
    assert(out@ =~= old(out)@ + two_digits(n as int));
}

/// The time of day, in UTC, of an instant, as `HH:MM:SS`.
pub fn clock_text(ts: Timestamp) -> (r: String)
    ensures
        r@ == clock_of(ts.secs),
{
    let secs = ts.secs;
    let d: u64 = if secs >= 0 {
        (secs as u64) % 86400
    } else {
        let m = (-(secs + 1)) as u64;
        let a = m % 86400;
        proof {
            vstd::arithmetic::div_mod::lemma_fundamental_div_mod(m as int, 86400);
            let q = m as int / 86400;
            vstd::arithmetic::div_mod::lemma_fundamental_div_mod_converse(
                secs as int,
                86400,
                -q - 1,
                86399 - a,
            );
        }
        86399 - a
    };
    assert(d as int == secs as int % 86400);
    let mut out: Vec<char> = Vec::new();
    two_digits_exec(d / 3600, &mut out);
    out.push(':');
    two_digits_exec(d % 3600 / 60, &mut out);
    out.push(':');
    two_digits_exec(d % 60, &mut out);
    assert(out@ =~= clock_of(secs));
    from_chars(out.as_slice())
}

// ──────────────────────────────── requests ────────────────────────────────

/// `s` without its trailing occurrences of `c` (`str::trim_end_matches`).
pub open spec fn strip_trailing(s: Seq<char>, c: char) -> Seq<char>
    decreases s.len(),
{
    if s.len() > 0 && s.last() == c {
        strip_trailing(s.drop_last(), c)
    } else {
        s
    }
}

fn strip_trailing_exec(s: &[char], c: char) -> (r: Vec<char>)
    ensures
        r@ == strip_trailing(s@, c),
{
    let mut n: usize = s.len();
    assert(s@.take(n as int) =~= s@);
    while n > 0 && s[n - 1] == c
        invariant
            n <= s.len(),
            strip_trailing(s@, c) == strip_trailing(s@.take(n as int), c),
        decreases n,
    {
        assert(s@.take(n as int).drop_last() =~= s@.take(n - 1));
        n = n - 1;
    }
    let r = crate::text::slice_chars(s, 0, n);
    assert(r@ =~= s@.take(n as int));
    r
}

/// The chat-completions address of a server, as the connection test forms it:
/// the base address without trailing slashes, with `/chat/completions`
/// appended unless it already ends so.
pub open spec fn completions_url(base: Seq<char>) -> Seq<char> {
    let b = strip_trailing(base, '/');
    if ends_with(b, "/chat/completions"@) {
        b
    } else {
        b + "/chat/completions"@
    }
}

/// The chat-completions address of a server, as the connection test forms it.
pub fn llm_api_url(base_url: &str) -> (r: String)
    ensures
        r@ == completions_url(base_url@),
{
    let bc = to_chars(base_url);
    let b = strip_trailing_exec(bc.as_slice(), '/');
    let suffix = to_chars("/chat/completions");
    let bs = from_chars(b.as_slice());
    if ends_with_chars(b.as_slice(), suffix.as_slice()) {
        bs
    } else {
        concat2(bs.as_str(), "/chat/completions")
    }
}

/// The model asked for by the connection test: the configured one, trimmed,
/// or "llama3" when there is none.
pub open spec fn test_model(model: Seq<char>) -> Seq<char> {
    if trim(model).len() == 0 {
        "llama3"@
    } else {
        trim(model)
    }
}

/// What is sent to test a connection.
pub struct LlmTestRequest {
    pub url: String,
    pub model: String,
    /// The value of the `Authorization` header, when a key is configured.
    pub authorization: Option<String>,
}

/// The message of a connection test on a server with no address.
pub const EMPTY_BASE_URL: &'static str = "L'URL de base du LLM ne peut pas être vide.";

/// The request that tests a connection, or the refusal of a server with no
/// address. The key, trimmed, is sent as a bearer token when there is one.
pub fn llm_test_request(settings: &LlmSettings) -> (r: Result<LlmTestRequest, String>)
    ensures
        trim(settings.base_url@).len() == 0 <==> r is Err,
        r matches Err(e) ==> e@ == EMPTY_BASE_URL@,
        r matches Ok(q) ==> {
            &&& q.url@ == completions_url(settings.base_url@)
            &&& q.model@ == test_model(settings.model@)
            &&& (trim(settings.api_key@).len() == 0 ==> q.authorization is None)
            &&& (trim(settings.api_key@).len() > 0 ==> (q.authorization matches Some(a) && a@
                == "Bearer "@ + trim(settings.api_key@)))
        },
{
    let base = trim_str(settings.base_url.as_str());
    if base.len() == 0 {
        return Err(owned(EMPTY_BASE_URL));
    }
    let m = trim_str(settings.model.as_str());
    let model = if m.len() == 0 {
        owned("llama3")
    } else {
        from_chars(m.as_slice())
    };
    let k = trim_str(settings.api_key.as_str());
    let authorization = if k.len() == 0 {
        None
    } else {
        let ks = from_chars(k.as_slice());
        Some(concat2("Bearer ", ks.as_str()))
    };
    Ok(LlmTestRequest { url: llm_api_url(settings.base_url.as_str()), model, authorization })
}

/// What came of a connection test.
pub enum LlmTestReply {
    /// A success status and a JSON body; the text of the first choice's
    /// message, where there is one.
    Answered { content: Option<String> },
    /// A success status and a body that is not JSON.
    Unparsed,
    /// Another status, as displayed, and the body.
    Refused { status: String, body: String },
    /// The server could not be reached; the error as displayed.
    Unreachable { error: String },
}

/// The outcome of a connection test, by what came of it.
pub open spec fn test_outcome(url: Seq<char>, model: Seq<char>, reply: LlmTestReply) -> Result<Seq<char>, Seq<char>> {
    match reply {
        LlmTestReply::Answered { content } => Ok(
            "Connexion réussie ! Réponse du modèle ("@ + model + ") : \""@ + trim(
                match content {
                    Some(c) => c@,
                    None => "Connexion réussie"@,
                },
            ) + "\""@,
        ),
        LlmTestReply::Unparsed => Ok("Connexion réussie au serveur LLM (Modèle: "@ + model + ")"@),
        LlmTestReply::Refused { status, body } => Err(
            "Erreur serveur LLM HTTP "@ + status@ + " : "@ + body@.take(
                if body@.len() < 120 {
                    body@.len() as int
                } else {
                    120
                },
            ),
        ),
        LlmTestReply::Unreachable { error } => Err(
            "Impossible de joindre le serveur LLM à '"@ + url + "' : "@ + error@
                + ". Vérifiez que le serveur (Ollama / LM Studio / LocalAI) est démarré."@,
        ),
    }
}

fn cat3(a: &str, b: &str, c: &str) -> (r: String)
    ensures
        r@ == a@ + b@ + c@,
{
    let ab = concat2(a, b);
    concat2(ab.as_str(), c)
}

/// The outcome of a connection test, by what came of it.
pub fn llm_test_outcome(request: &LlmTestRequest, reply: &LlmTestReply) -> (r: Result<String, String>)
    ensures
        match (r, test_outcome(request.url@, request.model@, *reply)) {
            (Ok(a), Ok(b)) => a@ == b,
            (Err(a), Err(b)) => a@ == b,
            _ => false,
        },
{
    match reply {
        LlmTestReply::Answered { content } => {
            let text = match content {
                Some(c) => trim_str(c.as_str()),
                None => trim_str("Connexion réussie"),
            };
            let ts = from_chars(text.as_slice());
            let head = cat3("Connexion réussie ! Réponse du modèle (", request.model.as_str(), ") : \"");
            Ok(cat3(head.as_str(), ts.as_str(), "\""))
        },
        LlmTestReply::Unparsed => Ok(
            cat3("Connexion réussie au serveur LLM (Modèle: ", request.model.as_str(), ")"),
        ),
        LlmTestReply::Refused { status, body } => {
            let bc = to_chars(body.as_str());
            let n: usize = if bc.len() < 120 {
                bc.len()
            } else {
                120
            };
            let shown = crate::text::slice_chars(bc.as_slice(), 0, n);
            assert(shown@ =~= body@.take(n as int));
            let ss = from_chars(shown.as_slice());
            let head = cat3("Erreur serveur LLM HTTP ", status.as_str(), " : ");
            Err(concat2(head.as_str(), ss.as_str()))
        },
        LlmTestReply::Unreachable { error } => {
            let head = cat3("Impossible de joindre le serveur LLM à '", request.url.as_str(), "' : ");
            Err(
                cat3(
                    head.as_str(),
                    error.as_str(),
                    ". Vérifiez que le serveur (Ollama / LM Studio / LocalAI) est démarré.",
                ),
            )
        },
    }
}

// ──────────────────────────────── incidents ────────────────────────────────

/// The instructions given to the model for an incident.
pub const SYSTEM_PROMPT: &'static str = "Tu es un analyste expert en cybersécurité et détection de fuites de données (SOC Tier-2/Tier-3). Ton rôle est d'analyser un log suspect en tenant compte de sa chronologie et de ses logs voisins. Tu dois répondre STRICTEMENT au format JSON avec les champs suivants : {\"is_threat\": true/false,\"confidence\": 0.0 à 1.0,\"explanation\": \"Explication claire et synthétique en français de l'incident et de ce qui s'est réellement passé\",\"mitigation\": \"Action corrective immédiate recommandée (ex: isoler l'hôte, bloquer l'IP, révoquer la clé)\"}";

/// The mitigation proposed when the model gives none.
pub const DEFAULT_MITIGATION: &'static str = "Surveiller les activités de l'utilisateur et isoler la machine en cas de récidive.";

/// A neighbouring log as the model reads it: `[HH:MM:SS] (Host: host) message`.
pub open spec fn neighbour_line(l: RawLog) -> Seq<char> {
    "["@ + clock_of(l.timestamp.secs) + "] (Host: "@ + l.hostname@ + ") "@ + l.raw_message@
}

/// The neighbouring logs, one per line, or a note that there are none.
pub open spec fn neighbours_text(ls: Seq<RawLog>) -> Seq<char> {
    if ls.len() == 0 {
        "(Aucun log voisin)"@
    } else {
        join(ls.map_values(|l: RawLog| neighbour_line(l)), "\n"@)
    }
}

/// What the model is asked about an incident: the suspect log with its host
/// and time, the signals that the engine found, and the neighbouring logs.
pub open spec fn incident_prompt(target: RawLog, reasons: Seq<Seq<char>>, neighbours: Seq<RawLog>) -> Seq<char> {
    "LOG SUSPECT CIBLÉ :\n[Host: "@ + target.hostname@ + "] [Heure: "@ + rfc3339_of(
        target.timestamp.secs,
        target.timestamp.nanos,
    ) + "] "@ + target.raw_message@ + "\n\nSIGNAUX DÉTECTÉS PAR LE MOTEUR :\n"@ + join(
        reasons,
        "\n- "@,
    ) + "\n\nCONTEXTE CHRONOLOGIQUE (LOGS VOISINS) :\n"@ + neighbours_text(neighbours)
        + "\n\nFournis ton verdict SOC d'investigation au format JSON demandé."@
}

/// What is sent to the model about an incident.
pub struct IncidentRequest {
    pub url: String,
    pub model: String,
    /// The value of the `Authorization` header, when a key is configured.
    pub authorization: Option<String>,
    pub system_prompt: String,
    pub user_prompt: String,
}

/// Asks the configured language model about incidents.
pub struct ContextualLlmAnalyzer;

impl ContextualLlmAnalyzer {
    /// The request about an incident, or none when the model is disabled or
    /// has no address. The address is the base address without trailing
    /// slashes followed by `/chat/completions`; the model is "llama3" when
    /// none is configured; the key is sent as it is, as a bearer token, when
    /// it is not blank.
    pub fn incident_request(
        settings: &LlmSettings,
        target_log: &RawLog,
        reasons: &[String],
        neighbor_logs: &[RawLog],
    ) -> (r: Option<IncidentRequest>)
        ensures
            (!settings.enabled || trim(settings.base_url@).len() == 0) <==> r is None,
            r matches Some(q) ==> {
                &&& q.url@ == strip_trailing(settings.base_url@, '/') + "/chat/completions"@
                &&& q.model@ == if settings.model@.len() == 0 {
                    "llama3"@
                } else {
                    settings.model@
                }
                &&& (trim(settings.api_key@).len() == 0 ==> q.authorization is None)
                &&& (trim(settings.api_key@).len() > 0 ==> (q.authorization matches Some(a) && a@
                    == "Bearer "@ + settings.api_key@))
                &&& q.system_prompt@ == SYSTEM_PROMPT@
                &&& q.user_prompt@ == incident_prompt(*target_log, views(reasons@), neighbor_logs@)
            },
    {
        let base = trim_str(settings.base_url.as_str());
        if !settings.enabled || base.len() == 0 {
            return None;
        }
        let bc = to_chars(settings.base_url.as_str());
        let b = strip_trailing_exec(bc.as_slice(), '/');
        let bs = from_chars(b.as_slice());
        let url = concat2(bs.as_str(), "/chat/completions");
        let mc = to_chars(settings.model.as_str());
        let model = if mc.len() == 0 {
            owned("llama3")
        } else {
            settings.model.clone()
        };
        let k = trim_str(settings.api_key.as_str());
        let authorization = if k.len() == 0 {
            None
        } else {
            Some(concat2("Bearer ", settings.api_key.as_str()))
        };
        let user_prompt = Self::user_prompt(target_log, reasons, neighbor_logs);
        Some(IncidentRequest { url, model, authorization, system_prompt: owned(SYSTEM_PROMPT), user_prompt })
    }

    fn neighbours_exec(neighbor_logs: &[RawLog]) -> (r: String)
        ensures
            r@ == neighbours_text(neighbor_logs@),
    {
        if neighbor_logs.len() == 0 {
            return owned("(Aucun log voisin)");
        }
        let mut lines: Vec<String> = Vec::new();
        let mut i: usize = 0;
        while i < neighbor_logs.len()
            invariant
                i <= neighbor_logs@.len(),
                views(lines@) == neighbor_logs@.take(i as int).map_values(|l: RawLog| neighbour_line(l)),
            decreases neighbor_logs@.len() - i,
        {
            let l = &neighbor_logs[i];
            let clock = clock_text(l.timestamp);
            let a = cat3("[", clock.as_str(), "] (Host: ");
            let b = cat3(a.as_str(), l.hostname.as_str(), ") ");
            let line = concat2(b.as_str(), l.raw_message.as_str());
            let ghost before = views(lines@);
            lines.push(line);
            assert(views(lines@) =~= before.push(neighbour_line(neighbor_logs@[i as int])));
            i = i + 1;
            assert(neighbor_logs@.take(i as int).map_values(|l: RawLog| neighbour_line(l)) =~= before.push(neighbour_line(neighbor_logs@[i - 1])));
        }
        assert(neighbor_logs@.take(neighbor_logs@.len() as int) =~= neighbor_logs@);
        join_strings(lines.as_slice(), "\n")
    }

    fn user_prompt(target_log: &RawLog, reasons: &[String], neighbor_logs: &[RawLog]) -> (r: String)
        ensures
            r@ == incident_prompt(*target_log, views(reasons@), neighbor_logs@),
    {
        let when = format_rfc3339(target_log.timestamp);
        let reasons_joined = join_strings(reasons, "\n- ");
        let neighbours = Self::neighbours_exec(neighbor_logs);
        let p1 = cat3("LOG SUSPECT CIBLÉ :\n[Host: ", target_log.hostname.as_str(), "] [Heure: ");
        let p2 = cat3(p1.as_str(), when.as_str(), "] ");
        let p3 = cat3(p2.as_str(), target_log.raw_message.as_str(), "\n\nSIGNAUX DÉTECTÉS PAR LE MOTEUR :\n");
        let p4 = cat3(p3.as_str(), reasons_joined.as_str(), "\n\nCONTEXTE CHRONOLOGIQUE (LOGS VOISINS) :\n");
        cat3(
            p4.as_str(),
            neighbours.as_str(),
            "\n\nFournis ton verdict SOC d'investigation au format JSON demandé.",
        )
    }

    /// The model's verdict on an incident: its explanation, its mitigation or
    /// the default one, and whether it judged it a threat.
    pub fn incident_verdict(explanation: String, mitigation: Option<String>, is_threat: bool) -> (r: (
        String,
        String,
        bool,
    ))
        ensures
            r.0@ == explanation@,
            r.1@ == match mitigation {
                Some(m) => m@,
                None => DEFAULT_MITIGATION@,
            },
            r.2 == is_threat,
    {
        let m = match mitigation {
            Some(m) => m,
            None => owned(DEFAULT_MITIGATION),
        };
        (explanation, m, is_threat)
    }

    /// The outcome of an incident analysis from the text of the model's
    /// message: the verdict's explanation, its mitigation or the default one,
    /// and whether it judged a threat; none when the text is no verdict.
    pub fn incident_outcome(content: &str) -> (r: Option<(String, String, bool)>)
        ensures
            match llm_verdict_of(content@) {
                None => r is None,
                Some((t, e, m)) => r matches Some((re, rm, rt)) && re@ == e && rm@ == verdict_mitigation(m)
                    && rt == t,
            },
    {
        match parse_llm_verdict(content) {
            None => None,
            Some((is_threat, explanation, mitigation)) => Some(
                Self::incident_verdict(explanation, mitigation, is_threat),
            ),
        }
    }

    /// The outcome of an incident analysis from the body of a successful
    /// reply: none when the body is not JSON, has no message text, or the
    /// text is no verdict.
    pub fn reply_outcome(body: &str) -> (r: Option<(String, String, bool)>)
        ensures
            match reply_content_of(body@) {
                Some(Some(c)) => match llm_verdict_of(c) {
                    None => r is None,
                    Some((t, e, m)) => r matches Some((re, rm, rt)) && re@ == e && rm@
                        == verdict_mitigation(m) && rt == t,
                },
                _ => r is None,
            },
    {
        match parse_reply_content(body) {
            Some(Some(c)) => Self::incident_outcome(c.as_str()),
            _ => None,
        }
    }
}

/// The mitigation of a verdict, or the default one when it gives none.
pub open spec fn verdict_mitigation(m: Option<Seq<char>>) -> Seq<char> {
    match m {
        Some(x) => x,
        None => DEFAULT_MITIGATION@,
    }
}

// ─────────────────────────────── replies ───────────────────────────────

/// What `serde_json::from_str::<serde_json::Value>` makes of a reply body,
/// read at `["choices"][0]["message"]["content"]` with `Value::as_str`: `None`
/// when the body is not JSON, else the text there when it is a string.
pub uninterp spec fn reply_content_of(body: Seq<char>) -> Option<Option<Seq<char>>>;

/// Parses a reply body with `serde_json::from_str` and reads the text of the
/// first choice's message (`Value` indexing, which gives `Null` where a key is
/// missing, and `Value::as_str`). The contract names the result only.
#[verifier::external_body]
fn parse_reply_content(body: &str) -> (r: Option<Option<String>>)
    ensures
        match r {
            None => reply_content_of(body@) is None,
            Some(c) => reply_content_of(body@) == Some(opt_view(c)),
        },
{
    let v: serde_json::Value = serde_json::from_str(body).ok()?;
    Some(v["choices"][0]["message"]["content"].as_str().map(|s| s.to_string()))
}

/// The model's judgement in a message text, as `serde_json::from_str` reads
/// it into the verdict record (is_threat, confidence, explanation,
/// mitigation): either an array of exactly those four values in that order,
/// or an object with a boolean `is_threat`, a numeric `confidence`, a string
/// `explanation` and a `mitigation` that is a string, `null` or missing
/// (other members are ignored); then the triple (is_threat, explanation,
/// mitigation). `None` for any other text.
pub uninterp spec fn llm_verdict_of(content: Seq<char>) -> Option<(bool, Seq<char>, Option<Seq<char>>)>;

/// Reads a verdict from a message text with `serde_json::from_str`: as the
/// four-value array `(bool, serde_json::Number, String, Option<String>)`, or
/// else as a `serde_json::Value` object read with `as_object`, `as_number`,
/// `as_bool` and `as_str`. The contract names the result only; an object
/// that repeats a member is read with its last occurrence.
#[verifier::external_body]
fn parse_llm_verdict(content: &str) -> (r: Option<(bool, String, Option<String>)>)
    ensures
        match r {
            None => llm_verdict_of(content@) is None,
            Some((t, e, m)) => llm_verdict_of(content@) == Some((t, e@, opt_view(m))),
        },
{
    if let Ok((t, _, e, m)) = serde_json::from_str::<(bool, serde_json::Number, String, Option<String>)>(content) {
        return Some((t, e, m));
    }
    let v: serde_json::Value = serde_json::from_str(content).ok()?;
    let o = v.as_object()?;
    o.get("confidence")?.as_number()?;
    let mitigation = match o.get("mitigation") {
        None | Some(serde_json::Value::Null) => None,
        Some(m) => Some(m.as_str()?.to_string()),
    };
    Some((o.get("is_threat")?.as_bool()?, o.get("explanation")?.as_str()?.to_string(), mitigation))
}

/// What came of a connection test with a success status, from the reply
/// body: the text of the first choice's message when the body is JSON,
/// `Unparsed` otherwise.
pub fn test_reply(body: &str) -> (r: LlmTestReply)
    ensures
        match reply_content_of(body@) {
            None => r is Unparsed,
            Some(c) => r matches LlmTestReply::Answered { content } && opt_view(content) == c,
        },
{
    match parse_reply_content(body) {
        None => LlmTestReply::Unparsed,
        Some(c) => LlmTestReply::Answered { content: c },
    }
}

} // verus!
