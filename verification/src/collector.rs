//! What the collector decides about the sources it follows: how each kind of
//! source is followed, the commands it runs, which lines of their output are
//! ingested, how far a followed file has been read, and the raw log that an
//! ingested line becomes.
use vstd::prelude::*;
use crate::detection::DetectionPipeline;
use crate::engine::{hash_log, hex_lower, sha256_of};
use crate::models::{RawLog, SourceType, Timestamp};
use crate::parser::{params_of, registered, template_of};
use crate::text::{
    concat2, contains, from_chars, has_lit, lines_of, opt_view, owned, to_chars, trim, trim_str,
    utf8_byte_len, utf8_byte_len_exec, views,
};
use crate::translator::{LogTranslator, TranslatedLog, TranslationModel, translation};

verus! {

// ─────────────────────────────── dispatch ───────────────────────────────

/// How the collector follows a source.
pub enum Collection {
    /// Follows a file, read from where it was left.
    WatchFile { path: String },
    /// Streams the macOS unified log, filtered by a predicate where there is one.
    MacOsStream { predicate: Option<String> },
    /// Follows the systemd journal.
    Journald,
    /// Reads, then follows, a Windows event channel.
    WindowsEvents { channel: String },
    /// Left to another component (the syslog listener, the Kafka consumer).
    Elsewhere,
}

/// How a source of a given kind is followed.
pub fn collection_for(t: &SourceType) -> (r: Collection)
    ensures
        match *t {
            SourceType::FileWatcher { path, .. } => r matches Collection::WatchFile { path: p } && p@ == path@,
            SourceType::MacOsUnifiedLog { predicate } => r matches Collection::MacOsStream { predicate: q } && opt_view(q) == opt_view(predicate),
            SourceType::Journald { .. } => r is Journald,
            SourceType::WindowsEventLog { channel, .. } => r matches Collection::WindowsEvents { channel: c } && c@ == channel@,
            _ => r is Elsewhere,
        },
{
    match t {
        SourceType::FileWatcher { path, .. } => Collection::WatchFile { path: path.clone() },
        SourceType::MacOsUnifiedLog { predicate } => Collection::MacOsStream {
            predicate: crate::text::copy_opt(predicate),
        },
        SourceType::Journald { .. } => Collection::Journald,
        SourceType::WindowsEventLog { channel, .. } => Collection::WindowsEvents { channel: channel.clone() },
        _ => Collection::Elsewhere,
    }
}

// ─────────────────────────────── commands ───────────────────────────────

/// The arguments of `log` that stream the macOS unified log in syslog style,
/// with `--predicate` when a non-empty predicate is given.
pub open spec fn macos_stream_arguments(predicate: Option<Seq<char>>) -> Seq<Seq<char>> {
    let base = seq!["stream"@, "--style"@, "syslog"@];
    match predicate {
        Some(p) => if p.len() > 0 {
            base + seq!["--predicate"@, p]
        } else {
            base
        },
        None => base,
    }
}

/// The arguments of `log` that stream the macOS unified log.
pub fn macos_stream_args(predicate: &Option<String>) -> (r: Vec<String>)
    ensures
        views(r@) == macos_stream_arguments(opt_view(*predicate)),
{
    let mut r: Vec<String> = Vec::new();
    r.push(owned("stream"));
    r.push(owned("--style"));
    r.push(owned("syslog"));
    let ghost base = views(r@);
    assert(base =~= seq!["stream"@, "--style"@, "syslog"@]);
    match predicate {
        Some(p) => {
            let pc = to_chars(p.as_str());
            if pc.len() > 0 {
                r.push(owned("--predicate"));
                r.push(p.clone());
                assert(views(r@) =~= base + seq!["--predicate"@, p@]);
            }
        },
        None => {},
    }
    r
}

/// The arguments of `journalctl` that follow the journal.
pub fn journald_args() -> (r: Vec<String>)
    ensures
        views(r@) == seq!["--follow"@, "--output=short-iso"@, "--no-pager"@],
{
    let mut r: Vec<String> = Vec::new();
    r.push(owned("--follow"));
    r.push(owned("--output=short-iso"));
    r.push(owned("--no-pager"));
    assert(views(r@) =~= seq!["--follow"@, "--output=short-iso"@, "--no-pager"@]);
    r
}

/// What the first-read script says before the channel name.
pub const WINDOWS_READ_HEAD: &'static str = "Get-WinEvent -LogName '";

/// What the first-read script says after the channel name: the last 25 events,
/// oldest first, one line each.
pub const WINDOWS_READ_TAIL: &'static str = r#"' -MaxEvents 25 | Sort-Object TimeCreated | ForEach-Object { $_.TimeCreated.ToString('yyyy-MM-ddTHH:mm:ssZ') + ' [' + $_.LevelDisplayName + '] EventID=' + $_.Id + ' Provider=' + $_.ProviderName + ' ' + ($_.Message -replace '[\r\n]+', ' ') }"#;

/// What the follow script says before the channel name.
pub const WINDOWS_FOLLOW_HEAD: &'static str = r#"$lastTime = (Get-Date).AddSeconds(-5); while($true) { $events = Get-WinEvent -FilterHashtable @{LogName='"#;

/// What the follow script says after the channel name: new events every
/// second and a half, one line each.
pub const WINDOWS_FOLLOW_TAIL: &'static str = r#"'; StartTime=$lastTime} -ErrorAction SilentlyContinue | Sort-Object TimeCreated; if ($events) { foreach ($e in $events) { $msg = $e.TimeCreated.ToString('yyyy-MM-ddTHH:mm:ssZ') + ' [' + $e.LevelDisplayName + '] EventID=' + $e.Id + ' Provider=' + $e.ProviderName + ' ' + ($e.Message -replace '[\r\n]+', ' '); [Console]::WriteLine($msg); }; $lastTime = (Get-Date); }; Start-Sleep -Milliseconds 1500; }"#;

/// The PowerShell script that reads the last events of a channel.
pub fn windows_read_script(channel: &str) -> (r: String)
    ensures
        r@ == WINDOWS_READ_HEAD@ + channel@ + WINDOWS_READ_TAIL@,
{
    let head = concat2(WINDOWS_READ_HEAD, channel);
    concat2(head.as_str(), WINDOWS_READ_TAIL)
}

/// The PowerShell script that follows the new events of a channel.
pub fn windows_follow_script(channel: &str) -> (r: String)
    ensures
        r@ == WINDOWS_FOLLOW_HEAD@ + channel@ + WINDOWS_FOLLOW_TAIL@,
{
    let head = concat2(WINDOWS_FOLLOW_HEAD, channel);
    concat2(head.as_str(), WINDOWS_FOLLOW_TAIL)
}

/// The arguments of `powershell` that run a script hidden and without profile.
pub fn powershell_args(script: &str) -> (r: Vec<String>)
    ensures
        views(r@) == seq![
            "-WindowStyle"@,
            "Hidden"@,
            "-NoProfile"@,
            "-NonInteractive"@,
            "-Command"@,
            script@,
        ],
{
    let mut r: Vec<String> = Vec::new();
    r.push(owned("-WindowStyle"));
    r.push(owned("Hidden"));
    r.push(owned("-NoProfile"));
    r.push(owned("-NonInteractive"));
    r.push(owned("-Command"));
    r.push(owned(script));
    assert(views(r@) =~= seq![
        "-WindowStyle"@,
        "Hidden"@,
        "-NoProfile"@,
        "-NonInteractive"@,
        "-Command"@,
        script@,
    ]);
    r
}

// ──────────────────────────── lines to ingest ────────────────────────────

/// A line of a stream is ingested as it is unless it is blank.
pub fn stream_line(line: &str) -> (r: Option<String>)
    ensures
        match r {
            Some(l) => trim(line@).len() > 0 && l@ == line@,
            None => trim(line@).len() == 0,
        },
{
    let t = trim_str(line);
    if t.len() > 0 {
        Some(owned(line))
    } else {
        None
    }
}

/// A line of Windows output is ingested trimmed unless it is blank.
pub fn windows_line(line: &str) -> (r: Option<String>)
    ensures
        match r {
            Some(l) => trim(line@).len() > 0 && l@ == trim(line@),
            None => trim(line@).len() == 0,
        },
{
    let t = trim_str(line);
    if t.len() > 0 {
        Some(from_chars(t.as_slice()))
    } else {
        None
    }
}

/// The non-blank lines of a text, trimmed.
pub open spec fn trimmed_lines(ls: Seq<Seq<char>>) -> Seq<Seq<char>>
    decreases ls.len(),
{
    if ls.len() == 0 {
        Seq::<Seq<char>>::empty()
    } else {
        let rest = trimmed_lines(ls.drop_last());
        if trim(ls.last()).len() > 0 {
            rest.push(trim(ls.last()))
        } else {
            rest
        }
    }
}

/// Whether PowerShell's error output says that access was refused.
pub open spec fn access_refused(stderr: Seq<char>) -> bool {
    contains(stderr, "Access is denied"@) || contains(stderr, "accès est refusé"@) || contains(
        stderr,
        "UnauthorizedAccess"@,
    )
}

/// The line ingested when a Windows channel cannot be read for want of rights.
pub open spec fn restricted_channel_line(channel: Seq<char>) -> Seq<char> {
    "[DefuDelog WARNING] Accès restreint au canal Windows '"@ + channel
        + "'. Lancez DefuDelog en tant qu'Administrateur pour surveiller ce canal."@
}

/// The lines ingested from the first read of a Windows channel: the non-blank
/// output lines, trimmed, when the script succeeded; when it failed, a warning
/// if access was refused, and nothing otherwise.
pub open spec fn windows_first_read(success: bool, stdout: Seq<char>, stderr: Seq<char>, channel: Seq<char>) -> Seq<Seq<char>> {
    if success {
        trimmed_lines(lines_of(stdout))
    } else if access_refused(stderr) {
        seq![restricted_channel_line(channel)]
    } else {
        Seq::<Seq<char>>::empty()
    }
}

/// The lines ingested from the first read of a Windows channel.
pub fn windows_first_read_lines(success: bool, stdout: &str, stderr: &str, channel: &str) -> (r: Vec<String>)
    ensures
        views(r@) == windows_first_read(success, stdout@, stderr@, channel@),
{
    let mut out: Vec<String> = Vec::new();
    if !success {
        let e = to_chars(stderr);
        if has_lit(e.as_slice(), "Access is denied") || has_lit(e.as_slice(), "accès est refusé")
            || has_lit(e.as_slice(), "UnauthorizedAccess") {
            let a = concat2("[DefuDelog WARNING] Accès restreint au canal Windows '", channel);
            let msg = concat2(
                a.as_str(),
                "'. Lancez DefuDelog en tant qu'Administrateur pour surveiller ce canal.",
            );
            out.push(msg);
            assert(views(out@) =~= seq![restricted_channel_line(channel@)]);
        } else {
            assert(views(out@) =~= Seq::<Seq<char>>::empty());
        }
        return out;
    }
    let sc = to_chars(stdout);
    let ls = crate::lan::lines_exec(sc.as_slice());
    let ghost lv = lines_of(stdout@);
    assert(ls@.map_values(|l: Vec<char>| l@) == lv);
    let mut i: usize = 0;
    assert(views(out@) =~= trimmed_lines(lv.take(0)));
    while i < ls.len()
        invariant
            i <= ls@.len(),
            ls@.map_values(|l: Vec<char>| l@) == lv,
            views(out@) == trimmed_lines(lv.take(i as int)),
        decreases ls@.len() - i,
    {
        assert(lv.take(i + 1).drop_last() =~= lv.take(i as int));
        assert(ls@[i as int]@ == lv[i as int]);
        let t = crate::text::trim_chars(ls[i].as_slice());
        let ghost before = views(out@);
        if t.len() > 0 {
            out.push(from_chars(t.as_slice()));
            assert(views(out@) =~= before.push(trim(lv[i as int])));
        }
        i = i + 1;
    }
    assert(lv.take(lv.len() as int) =~= lv);
    out
}

// ─────────────────────────────── file tails ───────────────────────────────

/// Where reading a followed file resumes: where it stopped, or at the start
/// when the file has become shorter than that (it was truncated or replaced).
pub fn tail_resume(pos: u64, file_len: u64) -> (r: u64)
    ensures
        r == if file_len < pos {
            0
        } else {
            pos
        },
{
    if file_len < pos {
        0
    } else {
        pos
    }
}

/// The bytes that a run of lines took in the file: each line and its newline.
pub open spec fn tail_bytes(ls: Seq<Seq<char>>) -> nat
    decreases ls.len(),
{
    if ls.len() == 0 {
        0
    } else {
        tail_bytes(ls.drop_last()) + utf8_byte_len(ls.last()) + 1
    }
}

/// The non-blank lines of a run, as they are.
pub open spec fn nonblank_lines(ls: Seq<Seq<char>>) -> Seq<Seq<char>>
    decreases ls.len(),
{
    if ls.len() == 0 {
        Seq::<Seq<char>>::empty()
    } else {
        let rest = nonblank_lines(ls.drop_last());
        if trim(ls.last()).len() > 0 {
            rest.push(ls.last())
        } else {
            rest
        }
    }
}

proof fn lemma_tail_bytes_monotone(ls: Seq<Seq<char>>, i: int)
    requires
        0 <= i <= ls.len(),
    ensures
        tail_bytes(ls.take(i)) <= tail_bytes(ls),
    decreases ls.len() - i,
{
    if i < ls.len() {
        lemma_tail_bytes_monotone(ls, i + 1);
        assert(ls.take(i + 1).drop_last() =~= ls.take(i));
    } else {
        assert(ls.take(i) =~= ls);
    }
}

/// Reads a run of lines of a followed file from `pos`: the position after
/// them, and the non-blank lines to ingest.
pub fn tail_read(pos: u64, lines: &[String]) -> (r: (u64, Vec<String>))
    requires
        pos + tail_bytes(views(lines@)) <= u64::MAX,
    ensures
        r.0 == pos + tail_bytes(views(lines@)),
        views(r.1@) == nonblank_lines(views(lines@)),
{
    let ghost lv = views(lines@);
    let mut p: u64 = pos;
    let mut out: Vec<String> = Vec::new();
    let mut i: usize = 0;
    assert(lv.take(0) =~= Seq::<Seq<char>>::empty());
    while i < lines.len()
        invariant
            i <= lines@.len(),
            lv == views(lines@),
            pos + tail_bytes(lv) <= u64::MAX,
            p == pos + tail_bytes(lv.take(i as int)),
            views(out@) == nonblank_lines(lv.take(i as int)),
        decreases lines@.len() - i,
    {
        assert(lv.take(i + 1).drop_last() =~= lv.take(i as int));
        assert(lv[i as int] == lines@[i as int]@);
        proof {
            lemma_tail_bytes_monotone(lv, i + 1);
        }
        let c = to_chars(lines[i].as_str());
        let n = crate::text::utf8_byte_len_u64(c.as_slice());
        p = p + n + 1;
        let t = trim_str(lines[i].as_str());
        let ghost before = views(out@);
        if t.len() > 0 {
            out.push(lines[i].clone());
            assert(views(out@) =~= before.push(lv[i as int]));
        }
        i = i + 1;
    }
    assert(lv.take(lines@.len() as int) =~= lv);
    (p, out)
}

/// The line ingested when a followed file cannot be opened.
pub fn permission_error_line(path: &str, error: &str) -> (r: String)
    ensures
        r@ == "[DefuDelog PERMISSION ERROR] Impossible de lire le fichier '"@ + path@ + "' : "@
            + error@,
{
    let a = concat2("[DefuDelog PERMISSION ERROR] Impossible de lire le fichier '", path);
    let b = concat2(a.as_str(), "' : ");
    concat2(b.as_str(), error)
}

// ──────────────────────────────── ingestion ────────────────────────────────

/// The plain-language reading of a line, with its template and parameters
/// taken from the parser (which records the template).
pub fn line_reading(pipeline: &mut DetectionPipeline, translator: &LogTranslator, line: &str) -> (r: TranslatedLog)
    requires
        old(pipeline).wf(),
    ensures
        final(pipeline).wf(),
        r@ == translation(
            translator.learned(),
            translator.rules(),
            line@,
            template_of(line@),
            params_of(line@),
        ),
        exists|res: (u64, crate::parser::TemplateClass, bool)| registered(
            old(pipeline).parser_view().entries(),
            old(pipeline).parser_view().capacity(),
            template_of(line@),
            res,
            final(pipeline).parser_view().entries(),
        ),
        final(pipeline).parser_view().capacity() == old(pipeline).parser_view().capacity(),
        final(pipeline).rules_view() == old(pipeline).rules_view(),
        final(pipeline).correlator_view() == old(pipeline).correlator_view(),
{
    let parsed = pipeline.parse_log_structure(line);
    translator.translate(line, parsed.template.as_str(), parsed.parameters.as_slice())
}

/// The plain-language reading of a line when there is no parser: the line is
/// its own template, with no parameters.
pub fn line_reading_unparsed(translator: &LogTranslator, line: &str) -> (r: TranslatedLog)
    ensures
        r@ == translation(
            translator.learned(),
            translator.rules(),
            line@,
            line@,
            Seq::<Seq<char>>::empty(),
        ),
{
    let params: Vec<String> = Vec::new();
    assert(views(params@) =~= Seq::<Seq<char>>::empty());
    translator.translate(line, line, params.as_slice())
}

/// The raw log that an ingested line becomes: its SHA-256 in hexadecimal, its
/// reading where there is one, received and stamped at `now`.
pub fn ingest_record(
    reading: Option<TranslatedLog>,
    source_id: &str,
    hostname: &str,
    line: &str,
    id: String,
    now: Timestamp,
) -> (r: RawLog)
    ensures
        r.id@ == id@,
        r.source_id@ == source_id@,
        r.hostname@ == hostname@,
        r.raw_message@ == line@,
        r.log_hash@ == hex_lower(sha256_of(vstd::utf8::encode_utf8(line@))),
        match reading {
            Some(t) => r.meaning == Some(t.meaning) && opt_view(r.explanation) == opt_view(
                t.explanation,
            ) && opt_view(r.recommendation) == opt_view(t.recommendation),
            None => r.meaning is None && r.explanation is None && r.recommendation is None,
        },
        r.timestamp == now,
        r.ingested_at == now,
{
    let log_hash = hash_log(line);
    let (meaning, explanation, recommendation) = match reading {
        Some(t) => (Some(t.meaning), t.explanation, t.recommendation),
        None => (None, None, None),
    };
    RawLog {
        id,
        source_id: owned(source_id),
        hostname: owned(hostname),
        raw_message: owned(line),
        log_hash,
        meaning,
        explanation,
        recommendation,
        timestamp: now,
        ingested_at: now,
    }
}

} // verus!
