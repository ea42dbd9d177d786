//! Plain-language reading of log lines. A line is explained, in order of
//! preference, by a learned translation whose pattern it contains, by the first
//! dictionary rule whose pattern it contains, by the dictionary rule whose
//! significant words resemble it most (Jaccard index of at least 7/10), and
//! otherwise by a heuristic reading of its keywords. Formats are filled in with
//! the line's parameters (`{0}`, `{1}`, ...) and with the entities found in it
//! (`{ip}`, `{user}`, `{port}`, ...); what stays unresolved reads "non spécifié".
use vstd::prelude::*;
use crate::patterns::{
    regex_captures, regex_captures_chars, regex_find, regex_find_chars, regex_replace_all,
    regex_replace_all_chars,
};
use crate::text::{
    append_chars, chars_eq, contains, copy_opt, contains_chars, decimal, decimal_chars, from_chars, has_lit,
    lowercase_of, opt_view, owned, replace_str, replace_str_chars, slice_chars, split_ws, split_ws_chars,
    to_chars, to_lower, is_ws, is_ws_exec, trim, trim_str, utf8_byte_len, utf8_byte_len_exec, views,
};

verus! {

// ───────────────────────────── entity patterns ─────────────────────────────

/// An IPv4-looking address.
pub const IP_RE: &'static str = r"\b(?:\d{1,3}\.){3}\d{1,3}\b";

/// A port: after the word `port`, or after a colon.
pub const PORT_RE: &'static str = r"(?i)\bport\s+(\d+)\b|:(\d{2,5})\b";

/// A time of day (`HH:MM:SS`, with optional fractions of a second), which the
/// port search leaves out: its minutes and seconds are no port.
pub const CLOCK_RE: &'static str = r"\d{1,2}:\d{2}:\d{2}(?:[.,]\d+)?";

/// A user name after one of the phrases that introduce one.
pub const USER_RE: &'static str = r"(?i)\b(?:for\s+invalid\s+user|for\s+user|user\s*=|account\s+name:|for|user|by)\s+['\x22]?([a-zA-Z0-9_\-\.\\]+)['\x22]?\b";

/// A user name right after `for user`, `user` or `invalid user`, for when the
/// first reading caught the word `user` or `invalid` itself.
pub const USER_NEXT_RE: &'static str = r"(?i)\b(?:for\s+user|user|invalid\s+user)\s+['\x22]?([a-zA-Z0-9_\-\.\\]+)['\x22]?\b";

/// A command, after `COMMAND=` or `cmd=`.
pub const CMD_RE: &'static str = r"(?i)\bCOMMAND=([^\s]+)|\bcmd=([^\s]+)";

/// A Unix or Windows path.
pub const FILE_RE: &'static str = r"(?:/[a-zA-Z0-9_\.\-]+)+|[A-Za-z]:\\[a-zA-Z0-9_\.\-\\]+";

/// A table name after the word `table`.
pub const TABLE_RE: &'static str = r"(?i)\btable\s+['\x22]?([a-zA-Z0-9_\-\.]+)['\x22]?";

/// A three-digit status after `status`, `code` or an HTTP version.
pub const STATUS_RE: &'static str = r"(?i)\b(?:status|code|HTTP/\d\.\d[\x22\s]+)\s*=?\s*(\d{3})\b";

/// The program name that opens a syslog-style line.
pub const APP_RE: &'static str = r"^([a-zA-Z0-9_\-]+)(?:\[\d+\])?:";

/// A domain or workgroup name.
pub const DOMAIN_RE: &'static str = r"(?i)\b(?:domain|workgroup):\s*([a-zA-Z0-9_\-]+)\b";

/// A placeholder left in a format after filling: a name in braces.
pub const PLACEHOLDER_RE: &'static str = r"\{[a-zA-Z0-9_-]+\}";

/// What an unresolved placeholder reads as.
pub const UNRESOLVED: &'static str = "non spécifié";

// ────────────────────────────── entities ──────────────────────────────

/// The text of a span of `hay`.
pub open spec fn span_text(hay: Seq<char>, sp: Option<(usize, usize)>) -> Option<Seq<char>> {
    match sp {
        Some((s, e)) => Some(hay.subrange(s as int, e as int)),
        None => None,
    }
}

/// The text of capture group `g` of the first match of `pattern` in `hay`.
pub open spec fn group_text(pattern: Seq<char>, hay: Seq<char>, g: int) -> Option<Seq<char>> {
    match regex_captures_chars(pattern, hay) {
        Some(groups) => if 0 <= g < groups.len() {
            span_text(hay, groups[g])
        } else {
            None
        },
        None => None,
    }
}

/// Group 1 of the first match, or group 2 where group 1 took no part.
pub open spec fn group_one_or_two(pattern: Seq<char>, hay: Seq<char>) -> Option<Seq<char>> {
    match group_text(pattern, hay, 1) {
        Some(t) => Some(t),
        None => group_text(pattern, hay, 2),
    }
}

/// The user found in `text`: group 1 of `USER_RE`, unless it is the word
/// `user` or `invalid` (in any case), in which case the name that follows.
pub open spec fn user_entity(text: Seq<char>) -> Option<Seq<char>> {
    match group_text(USER_RE@, text, 1) {
        Some(u) => if lowercase_of(u) == "user"@ || lowercase_of(u) == "invalid"@ {
            group_text(USER_NEXT_RE@, text, 1)
        } else {
            Some(u)
        },
        None => None,
    }
}

/// The entities of a line, as plain text.
pub struct EntityModel {
    pub ip: Option<Seq<char>>,
    pub user: Option<Seq<char>>,
    pub port: Option<Seq<char>>,
    pub cmd: Option<Seq<char>>,
    pub file: Option<Seq<char>>,
    pub table: Option<Seq<char>>,
    pub status: Option<Seq<char>>,
    pub app: Option<Seq<char>>,
    pub domain: Option<Seq<char>>,
}

/// The entities that the typed patterns find in `text`.
pub open spec fn entities_of(text: Seq<char>) -> EntityModel {
    EntityModel {
        ip: span_text(text, regex_find_chars(IP_RE@, text)),
        user: user_entity(text),
        port: group_one_or_two(PORT_RE@, regex_replace_all_chars(CLOCK_RE@, text, " "@)),
        cmd: group_one_or_two(CMD_RE@, text),
        file: span_text(text, regex_find_chars(FILE_RE@, text)),
        table: group_text(TABLE_RE@, text, 1),
        status: group_text(STATUS_RE@, text, 1),
        app: group_text(APP_RE@, text, 1),
        domain: group_text(DOMAIN_RE@, text, 1),
    }
}

/// The entities found in a line.
pub struct NamedEntities {
    pub ip: Option<String>,
    pub user: Option<String>,
    pub port: Option<String>,
    pub cmd: Option<String>,
    pub file: Option<String>,
    pub table: Option<String>,
    pub status: Option<String>,
    pub app: Option<String>,
    pub domain: Option<String>,
}

impl View for NamedEntities {
    type V = EntityModel;

    open spec fn view(&self) -> EntityModel {
        EntityModel {
            ip: opt_view(self.ip),
            user: opt_view(self.user),
            port: opt_view(self.port),
            cmd: opt_view(self.cmd),
            file: opt_view(self.file),
            table: opt_view(self.table),
            status: opt_view(self.status),
            app: opt_view(self.app),
            domain: opt_view(self.domain),
        }
    }
}

fn span_string(hay: &[char], sp: Option<(usize, usize)>) -> (r: Option<String>)
    requires
        sp matches Some((s, e)) ==> s <= e <= hay@.len(),
    ensures
        opt_view(r) == span_text(hay@, sp),
{
    match sp {
        Some((s, e)) => {
            let t = slice_chars(hay, s, e);
            Some(from_chars(t.as_slice()))
        },
        None => None,
    }
}

fn found_text(pattern: &str, hay: &str, hay_chars: &[char]) -> (r: Option<String>)
    requires
        hay_chars@ == hay@,
    ensures
        opt_view(r) == span_text(hay@, regex_find_chars(pattern@, hay@)),
{
    let sp = regex_find(pattern, hay);
    span_string(hay_chars, sp)
}

fn group_string(pattern: &str, hay: &str, hay_chars: &[char], g: usize) -> (r: Option<String>)
    requires
        hay_chars@ == hay@,
    ensures
        opt_view(r) == group_text(pattern@, hay@, g as int),
{
    match regex_captures(pattern, hay) {
        Some(groups) => {
            if g < groups.len() {
                span_string(hay_chars, groups[g])
            } else {
                None
            }
        },
        None => None,
    }
}

fn group_one_or_two_string(pattern: &str, hay: &str, hay_chars: &[char]) -> (r: Option<String>)
    requires
        hay_chars@ == hay@,
    ensures
        opt_view(r) == group_one_or_two(pattern@, hay@),
{
    match group_string(pattern, hay, hay_chars, 1) {
        Some(t) => Some(t),
        None => group_string(pattern, hay, hay_chars, 2),
    }
}

fn user_string(text: &str, text_chars: &[char]) -> (r: Option<String>)
    requires
        text_chars@ == text@,
    ensures
        opt_view(r) == user_entity(text@),
{
    match group_string(USER_RE, text, text_chars, 1) {
        Some(u) => {
            let lower = to_lower(u.as_str());
            let lc = to_chars(lower.as_str());
            let w_user = to_chars("user");
            let w_invalid = to_chars("invalid");
            if chars_eq(lc.as_slice(), w_user.as_slice()) || chars_eq(
                lc.as_slice(),
                w_invalid.as_slice(),
            ) {
                group_string(USER_NEXT_RE, text, text_chars, 1)
            } else {
                Some(u)
            }
        },
        None => None,
    }
}

/// The entities that the typed patterns find in `text`.
pub fn extract_all_named_entities(text: &str) -> (r: NamedEntities)
    ensures
        r@ == entities_of(text@),
{
    let tc = to_chars(text);
    let t = tc.as_slice();
    let untimed = regex_replace_all(CLOCK_RE, text, " ");
    let uc = to_chars(untimed.as_str());
    NamedEntities {
        ip: found_text(IP_RE, text, t),
        user: user_string(text, t),
        port: group_one_or_two_string(PORT_RE, untimed.as_str(), uc.as_slice()),
        cmd: group_one_or_two_string(CMD_RE, text, t),
        file: found_text(FILE_RE, text, t),
        table: group_string(TABLE_RE, text, t, 1),
        status: group_string(STATUS_RE, text, t, 1),
        app: group_string(APP_RE, text, t, 1),
        domain: group_string(DOMAIN_RE, text, t, 1),
    }
}

// ──────────────────────────── interpolation ────────────────────────────

/// The placeholder for parameter `i`: `{i}`.
pub open spec fn index_placeholder(i: nat) -> Seq<char> {
    seq!['{'] + decimal(i) + seq!['}']
}

/// `f` with `{0}` .. `{n-1}` replaced by the parameters, in that order.
pub open spec fn fill_indexed(f: Seq<char>, params: Seq<Seq<char>>, n: nat) -> Seq<char>
    decreases n,
{
    if n == 0 {
        f
    } else {
        let k = (n - 1) as nat;
        replace_str(fill_indexed(f, params, k), index_placeholder(k), params[k as int])
    }
}

/// `s` with `key` replaced by `v` where there is a value.
pub open spec fn fill_key(s: Seq<char>, key: Seq<char>, v: Option<Seq<char>>) -> Seq<char> {
    match v {
        Some(x) => replace_str(s, key, x),
        None => s,
    }
}

/// `s` with the named placeholders replaced by the entities found, in order:
/// `{ip}`, `{user}`, `{port}`, `{cmd}`, `{file}` and `{path}`, `{table}`,
/// `{status}` and `{code}`, `{app}`, `{domain}`.
pub open spec fn fill_named(s: Seq<char>, e: EntityModel) -> Seq<char> {
    let s1 = fill_key(s, "{ip}"@, e.ip);
    let s2 = fill_key(s1, "{user}"@, e.user);
    let s3 = fill_key(s2, "{port}"@, e.port);
    let s4 = fill_key(s3, "{cmd}"@, e.cmd);
    let s5 = fill_key(fill_key(s4, "{file}"@, e.file), "{path}"@, e.file);
    let s6 = fill_key(s5, "{table}"@, e.table);
    let s7 = fill_key(fill_key(s6, "{status}"@, e.status), "{code}"@, e.status);
    let s8 = fill_key(s7, "{app}"@, e.app);
    fill_key(s8, "{domain}"@, e.domain)
}

/// A format filled in for a line: parameters, then entities, then every
/// placeholder left replaced by `UNRESOLVED`.
pub open spec fn interpolation(f: Seq<char>, params: Seq<Seq<char>>, raw: Seq<char>) -> Seq<char> {
    regex_replace_all_chars(
        PLACEHOLDER_RE@,
        fill_named(fill_indexed(f, params, params.len()), entities_of(raw)),
        UNRESOLVED@,
    )
}

fn index_placeholder_chars(i: usize) -> (r: Vec<char>)
    ensures
        r@ == index_placeholder(i as nat),
{
    let mut r: Vec<char> = Vec::new();
    r.push('{');
    let d = decimal_chars(i as u64);
    append_chars(&mut r, d.as_slice());
    r.push('}');
    assert(r@ =~= index_placeholder(i as nat));
    r
}

fn fill_key_exec(s: Vec<char>, key: &str, v: &Option<String>) -> (r: Vec<char>)
    requires
        key@.len() > 0,
    ensures
        r@ == fill_key(s@, key@, opt_view(*v)),
{
    match v {
        Some(x) => {
            let k = to_chars(key);
            let xc = to_chars(x.as_str());
            replace_str_chars(s.as_slice(), k.as_slice(), xc.as_slice())
        },
        None => s,
    }
}

fn fill_named_exec(s: Vec<char>, e: &NamedEntities) -> (r: Vec<char>)
    ensures
        r@ == fill_named(s@, e@),
{
    proof {
        reveal_strlit("{ip}");
        reveal_strlit("{user}");
        reveal_strlit("{port}");
        reveal_strlit("{cmd}");
        reveal_strlit("{file}");
        reveal_strlit("{path}");
        reveal_strlit("{table}");
        reveal_strlit("{status}");
        reveal_strlit("{code}");
        reveal_strlit("{app}");
        reveal_strlit("{domain}");
    }
    let s1 = fill_key_exec(s, "{ip}", &e.ip);
    let s2 = fill_key_exec(s1, "{user}", &e.user);
    let s3 = fill_key_exec(s2, "{port}", &e.port);
    let s4 = fill_key_exec(s3, "{cmd}", &e.cmd);
    let s5a = fill_key_exec(s4, "{file}", &e.file);
    let s5 = fill_key_exec(s5a, "{path}", &e.file);
    let s6 = fill_key_exec(s5, "{table}", &e.table);
    let s7a = fill_key_exec(s6, "{status}", &e.status);
    let s7 = fill_key_exec(s7a, "{code}", &e.status);
    let s8 = fill_key_exec(s7, "{app}", &e.app);
    fill_key_exec(s8, "{domain}", &e.domain)
}

/// Fills in a format for a line: `{i}` by the `i`-th parameter, the named
/// placeholders by the entities found in `raw`, and whatever placeholder is
/// left by "non spécifié".
pub fn interpolate(format_str: &str, params: &[String], raw: &str) -> (r: String)
    ensures
        r@ == interpolation(format_str@, views(params@), raw@),
{
    let mut cur = to_chars(format_str);
    let mut i: usize = 0;
    while i < params.len()
        invariant
            i <= params@.len(),
            cur@ == fill_indexed(format_str@, views(params@), i as nat),
        decreases params@.len() - i,
    {
        let ph = index_placeholder_chars(i);
        let pc = to_chars(params[i].as_str());
        assert(pc@ == views(params@)[i as int]);
        cur = replace_str_chars(cur.as_slice(), ph.as_slice(), pc.as_slice());
        i = i + 1;
    }
    let entities = extract_all_named_entities(raw);
    let cur_s = from_chars(cur.as_slice());
    let filled_s = fill_named_entities(cur_s.as_str(), &entities);
    regex_replace_all(PLACEHOLDER_RE, filled_s.as_str(), UNRESOLVED)
}

/// `format` with the named placeholders (`{ip}`, `{user}`, `{port}`, `{cmd}`,
/// `{file}` and `{path}`, `{table}`, `{status}` and `{code}`, `{app}`,
/// `{domain}`) replaced, in that order, by the entities that were found.
pub fn fill_named_entities(format: &str, e: &NamedEntities) -> (r: String)
    ensures
        r@ == fill_named(format@, e@),
{
    let filled = fill_named_exec(to_chars(format), e);
    from_chars(filled.as_slice())
}


// ───────────────────────────── pattern matching ─────────────────────────────

/// The separators that a pattern may write differently from a line.
pub open spec fn is_separator(c: char) -> bool {
    c == '=' || c == ':' || c == '_' || c == '-'
}

/// A separator or a whitespace character: the characters that a run of
/// which reads as a single separator.
pub open spec fn is_gap(c: char) -> bool {
    is_separator(c) || is_ws(c)
}

/// `s` with every run of separators and whitespace read as one space.
pub open spec fn normalize_separators(s: Seq<char>) -> Seq<char>
    decreases s.len(),
{
    if s.len() == 0 {
        Seq::<char>::empty()
    } else {
        let p = normalize_separators(s.drop_last());
        if is_gap(s.last()) {
            if p.len() > 0 && p.last() == ' ' {
                p
            } else {
                p.push(' ')
            }
        } else {
            p.push(s.last())
        }
    }
}

/// A (lower-case) pattern matches a line when the line or its template contains
/// it, as written or once runs of separators and spaces are read as one space
/// on both sides.
pub open spec fn pattern_matches(raw: Seq<char>, tpl: Seq<char>, pat: Seq<char>) -> bool {
    contains(raw, pat) || contains(tpl, pat) || contains(
        normalize_separators(raw),
        normalize_separators(pat),
    ) || contains(normalize_separators(tpl), normalize_separators(pat))
}

fn normalize_exec(s: &[char]) -> (r: Vec<char>)
    ensures
        r@ == normalize_separators(s@),
{
    let mut r: Vec<char> = Vec::new();
    let mut i: usize = 0;
    while i < s.len()
        invariant
            i <= s.len(),
            r@ == normalize_separators(s@.take(i as int)),
        decreases s.len() - i,
    {
        let c = s[i];
        assert(s@.take(i + 1).drop_last() =~= s@.take(i as int));
        if c == '=' || c == ':' || c == '_' || c == '-' || is_ws_exec(c) {
            if !(r.len() > 0 && r[r.len() - 1] == ' ') {
                r.push(' ');
            }
        } else {
            r.push(c);
        }
        i = i + 1;
    }
    assert(s@.take(s.len() as int) =~= s@);
    r
}

/// Whether the lower-case pattern `pat` matches the lower-case line `raw` or
/// its lower-case template `tpl`.
pub fn matches_pattern(raw: &[char], tpl: &[char], pat: &[char]) -> (r: bool)
    ensures
        r == pattern_matches(raw@, tpl@, pat@),
{
    if contains_chars(raw, pat) || contains_chars(tpl, pat) {
        return true;
    }
    let nr = normalize_exec(raw);
    let nt = normalize_exec(tpl);
    let np = normalize_exec(pat);
    contains_chars(nr.as_slice(), np.as_slice()) || contains_chars(nt.as_slice(), np.as_slice())
}

// ──────────────────────────── word similarity ─────────────────────────────

/// The views of a list of character vectors.
pub open spec fn cviews(v: Seq<Vec<char>>) -> Seq<Seq<char>> {
    v.map_values(|w: Vec<char>| w@)
}

/// The distinct words of `s` longer than two bytes.
pub open spec fn significant_words(s: Seq<char>) -> Set<Seq<char>> {
    Set::new(|w: Seq<char>| split_ws(s).contains(w) && utf8_byte_len(w) > 2)
}

/// The Jaccard index of the significant words of two texts, as a fraction
/// (numerator, denominator): shared words over words of either; `0/1` when
/// either text has none.
pub open spec fn similarity(text: Seq<char>, pattern: Seq<char>) -> (nat, nat) {
    let a = significant_words(text);
    let b = significant_words(pattern);
    if a.len() == 0 || b.len() == 0 {
        (0, 1)
    } else {
        (a.intersect(b).len(), a.union(b).len())
    }
}

/// A similarity close enough for a fuzzy match: at least 7/10.
pub open spec fn close_enough(sim: (nat, nat)) -> bool {
    10 * sim.0 >= 7 * sim.1
}

fn copy_chars(w: &[char]) -> (r: Vec<char>)
    ensures
        r@ == w@,
{
    let r = slice_chars(w, 0, w.len());
    assert(w@.subrange(0, w@.len() as int) =~= w@);
    r
}

fn holds_word(v: &Vec<Vec<char>>, w: &[char]) -> (r: bool)
    ensures
        r == cviews(v@).contains(w@),
{
    let mut i: usize = 0;
    while i < v.len()
        invariant
            i <= v@.len(),
            forall|k: int| 0 <= k < i ==> cviews(v@)[k] != w@,
        decreases v@.len() - i,
    {
        if chars_eq(v[i].as_slice(), w) {
            assert(cviews(v@)[i as int] == w@);
            return true;
        }
        i = i + 1;
    }
    false
}

proof fn lemma_push_contains<A>(s: Seq<A>, x: A, w: A)
    ensures
        s.push(x).contains(w) <==> (s.contains(w) || w == x),
{
    if s.contains(w) {
        let j = choose|j: int| 0 <= j < s.len() && #[trigger] s[j] == w;
        assert(s.push(x)[j] == w);
    }
    if w == x {
        assert(s.push(x)[s.len() as int] == x);
    }
    if s.push(x).contains(w) {
        let j = choose|j: int| 0 <= j < s.push(x).len() && #[trigger] s.push(x)[j] == w;
        if j < s.len() {
            assert(s[j] == w);
        }
    }
}

proof fn lemma_push_no_duplicates<A>(s: Seq<A>, x: A)
    requires
        s.no_duplicates(),
        !s.contains(x),
    ensures
        s.push(x).no_duplicates(),
{
    assert forall|i: int, j: int|
        0 <= i < s.push(x).len() && 0 <= j < s.push(x).len() && i != j implies s.push(x)[i]
        != s.push(x)[j] by {
        if i < s.len() && j < s.len() {
        } else if i < s.len() {
            assert(s[i] == s.push(x)[i]);
        } else if j < s.len() {
            assert(s[j] == s.push(x)[j]);
        }
    }
}

fn significant_words_exec(s: &[char]) -> (r: Vec<Vec<char>>)
    ensures
        cviews(r@).no_duplicates(),
        cviews(r@).to_set() == significant_words(s@),
{
    let words = split_ws_chars(s);
    let ghost ws = split_ws(s@);
    let mut out: Vec<Vec<char>> = Vec::new();
    let mut i: usize = 0;
    assert(cviews(out@) =~= Seq::<Seq<char>>::empty());
    while i < words.len()
        invariant
            i <= words@.len(),
            words@.len() == ws.len(),
            ws == split_ws(s@),
            forall|k: int| 0 <= k < words@.len() ==> #[trigger] words@[k]@ == ws[k],
            cviews(out@).no_duplicates(),
            forall|w: Seq<char>|
                #[trigger] cviews(out@).contains(w) <==> (ws.take(i as int).contains(w)
                    && utf8_byte_len(w) > 2),
        decreases words@.len() - i,
    {
        let ghost before = cviews(out@);
        let w = words[i].as_slice();
        assert(w@ == ws[i as int]);
        let blen = utf8_byte_len_exec(w);
        assert(ws.take(i + 1) =~= ws.take(i as int).push(ws[i as int]));
        let significant = blen > 2;
        assert(significant == (utf8_byte_len(w@) > 2));
        let known = holds_word(&out, w);
        if significant && !known {
            let c = copy_chars(w);
            out.push(c);
            assert(cviews(out@) =~= before.push(w@));
            proof {
                lemma_push_no_duplicates(before, w@);
            }
            assert forall|w2: Seq<char>|
                #[trigger] cviews(out@).contains(w2) <==> (ws.take(i + 1).contains(w2)
                    && utf8_byte_len(w2) > 2) by {
                lemma_push_contains(before, w@, w2);
                lemma_push_contains(ws.take(i as int), ws[i as int], w2);
            }
        } else {
            assert forall|w2: Seq<char>|
                #[trigger] cviews(out@).contains(w2) <==> (ws.take(i + 1).contains(w2)
                    && utf8_byte_len(w2) > 2) by {
                lemma_push_contains(ws.take(i as int), ws[i as int], w2);
            }
        }
        i = i + 1;
    }
    assert(ws.take(ws.len() as int) =~= ws);
    assert(cviews(out@).to_set() =~= significant_words(s@));
    out
}

fn common_words(a: &Vec<Vec<char>>, b: &Vec<Vec<char>>) -> (r: Vec<Vec<char>>)
    requires
        cviews(a@).no_duplicates(),
    ensures
        cviews(r@).no_duplicates(),
        cviews(r@).to_set() == cviews(a@).to_set().intersect(cviews(b@).to_set()),
{
    let ghost av = cviews(a@);
    let ghost bv = cviews(b@);
    let mut out: Vec<Vec<char>> = Vec::new();
    let mut i: usize = 0;
    assert(cviews(out@) =~= Seq::<Seq<char>>::empty());
    while i < a.len()
        invariant
            i <= a@.len(),
            av == cviews(a@),
            bv == cviews(b@),
            av.no_duplicates(),
            cviews(out@).no_duplicates(),
            forall|w: Seq<char>|
                #[trigger] cviews(out@).contains(w) <==> (av.take(i as int).contains(w)
                    && bv.contains(w)),
        decreases a@.len() - i,
    {
        let ghost before = cviews(out@);
        let w = a[i].as_slice();
        assert(w@ == av[i as int]);
        assert(av.take(i + 1) =~= av.take(i as int).push(av[i as int]));
        let shared = holds_word(b, w);
        if shared {
            let c = copy_chars(w);
            out.push(c);
            assert(cviews(out@) =~= before.push(w@));
            assert(!before.contains(w@)) by {
                if before.contains(w@) {
                    let j = choose|j: int|
                        0 <= j < av.take(i as int).len() && #[trigger] av.take(i as int)[j] == w@;
                    assert(av[j] == av[i as int]);
                }
            }
            proof {
                lemma_push_no_duplicates(before, w@);
            }
            assert forall|w2: Seq<char>|
                #[trigger] cviews(out@).contains(w2) <==> (av.take(i + 1).contains(w2)
                    && bv.contains(w2)) by {
                lemma_push_contains(before, w@, w2);
                lemma_push_contains(av.take(i as int), av[i as int], w2);
            }
        } else {
            assert forall|w2: Seq<char>|
                #[trigger] cviews(out@).contains(w2) <==> (av.take(i + 1).contains(w2)
                    && bv.contains(w2)) by {
                lemma_push_contains(av.take(i as int), av[i as int], w2);
            }
        }
        i = i + 1;
    }
    assert(av.take(av.len() as int) =~= av);
    assert(cviews(out@).to_set() =~= av.to_set().intersect(bv.to_set()));
    out
}

fn all_words(a: &Vec<Vec<char>>, b: &Vec<Vec<char>>) -> (r: Vec<Vec<char>>)
    requires
        cviews(a@).no_duplicates(),
        cviews(b@).no_duplicates(),
    ensures
        cviews(r@).no_duplicates(),
        cviews(r@).to_set() == cviews(a@).to_set().union(cviews(b@).to_set()),
{
    let ghost av = cviews(a@);
    let ghost bv = cviews(b@);
    let mut out: Vec<Vec<char>> = Vec::new();
    let mut i: usize = 0;
    assert(cviews(out@) =~= av.take(0));
    while i < a.len()
        invariant
            i <= a@.len(),
            av == cviews(a@),
            av.no_duplicates(),
            cviews(out@) == av.take(i as int),
        decreases a@.len() - i,
    {
        let ghost before = cviews(out@);
        let c = copy_chars(a[i].as_slice());
        assert(c@ == av[i as int]);
        out.push(c);
        assert(cviews(out@) =~= before.push(av[i as int]));
        i = i + 1;
        assert(cviews(out@) =~= av.take(i as int));
    }
    assert(av.take(av.len() as int) =~= av);
    let mut k: usize = 0;
    assert(bv.take(0) =~= Seq::<Seq<char>>::empty());
    while k < b.len()
        invariant
            k <= b@.len(),
            av == cviews(a@),
            bv == cviews(b@),
            av.no_duplicates(),
            bv.no_duplicates(),
            cviews(out@).no_duplicates(),
            forall|w: Seq<char>|
                #[trigger] cviews(out@).contains(w) <==> (av.contains(w) || bv.take(
                    k as int,
                ).contains(w)),
        decreases b@.len() - k,
    {
        let ghost before = cviews(out@);
        let w = b[k].as_slice();
        assert(w@ == bv[k as int]);
        assert(bv.take(k + 1) =~= bv.take(k as int).push(bv[k as int]));
        let in_a = holds_word(a, w);
        if !in_a {
            assert(!before.contains(w@)) by {
                if before.contains(w@) {
                    if bv.take(k as int).contains(w@) {
                        let j = choose|j: int|
                            0 <= j < bv.take(k as int).len() && #[trigger] bv.take(k as int)[j]
                                == w@;
                        assert(bv[j] == bv[k as int]);
                    }
                }
            }
            let c = copy_chars(w);
            out.push(c);
            assert(cviews(out@) =~= before.push(w@));
            proof {
                lemma_push_no_duplicates(before, w@);
            }
            assert forall|w2: Seq<char>|
                #[trigger] cviews(out@).contains(w2) <==> (av.contains(w2) || bv.take(
                    k + 1,
                ).contains(w2)) by {
                lemma_push_contains(before, w@, w2);
                lemma_push_contains(bv.take(k as int), bv[k as int], w2);
            }
        } else {
            assert forall|w2: Seq<char>|
                #[trigger] cviews(out@).contains(w2) <==> (av.contains(w2) || bv.take(
                    k + 1,
                ).contains(w2)) by {
                lemma_push_contains(bv.take(k as int), bv[k as int], w2);
            }
        }
        k = k + 1;
    }
    assert(bv.take(bv.len() as int) =~= bv);
    assert(cviews(out@).to_set() =~= av.to_set().union(bv.to_set()));
    out
}

/// The similarity of the significant words of `text` and `pattern`, as a
/// fraction (numerator, denominator).
pub fn token_jaccard_similarity(text: &[char], pattern: &[char]) -> (r: (usize, usize))
    ensures
        r.0 == similarity(text@, pattern@).0,
        r.1 == similarity(text@, pattern@).1,
{
    let a = significant_words_exec(text);
    let b = significant_words_exec(pattern);
    proof {
        cviews(a@).unique_seq_to_set();
        cviews(b@).unique_seq_to_set();
    }
    if a.len() == 0 || b.len() == 0 {
        return (0, 1);
    }
    let common = common_words(&a, &b);
    let either = all_words(&a, &b);
    proof {
        cviews(common@).unique_seq_to_set();
        cviews(either@).unique_seq_to_set();
    }
    (common.len(), either.len())
}

// ─────────────────────────── rules and results ────────────────────────────

/// A dictionary rule: a pattern and how to explain the lines it matches.
pub struct TranslationRule {
    pub category: String,
    pub pattern: String,
    pub template_format: String,
    pub explanation: Option<String>,
    pub recommendation: Option<String>,
    /// "success", "error", "warning" or "info".
    pub status_level: String,
}

/// A dictionary rule as plain text.
pub struct RuleModel {
    pub category: Seq<char>,
    pub pattern: Seq<char>,
    pub template_format: Seq<char>,
    pub explanation: Option<Seq<char>>,
    pub recommendation: Option<Seq<char>>,
    pub status_level: Seq<char>,
}

impl View for TranslationRule {
    type V = RuleModel;

    open spec fn view(&self) -> RuleModel {
        RuleModel {
            category: self.category@,
            pattern: self.pattern@,
            template_format: self.template_format@,
            explanation: opt_view(self.explanation),
            recommendation: opt_view(self.recommendation),
            status_level: self.status_level@,
        }
    }
}

/// The reading of a log line.
pub struct TranslatedLog {
    pub meaning: String,
    pub explanation: Option<String>,
    pub recommendation: Option<String>,
    pub status_level: String,
    /// Whether a learned translation gave it.
    pub is_learned: bool,
}

/// The reading of a log line as plain text.
pub struct TranslationModel {
    pub meaning: Seq<char>,
    pub explanation: Option<Seq<char>>,
    pub recommendation: Option<Seq<char>>,
    pub status_level: Seq<char>,
    pub is_learned: bool,
}

impl View for TranslatedLog {
    type V = TranslationModel;

    open spec fn view(&self) -> TranslationModel {
        TranslationModel {
            meaning: self.meaning@,
            explanation: opt_view(self.explanation),
            recommendation: opt_view(self.recommendation),
            status_level: self.status_level@,
            is_learned: self.is_learned,
        }
    }
}

/// A learned translation: format, explanation, recommendation, status level.
pub type CachedTranslation = (String, Option<String>, Option<String>, String);

/// A learned translation with its pattern: pattern, format, explanation,
/// recommendation, status level.
pub type CustomTranslationTuple = (String, String, Option<String>, Option<String>, String);

/// A learned translation as plain text, under its (lower-case) pattern.
pub struct LearnedModel {
    pub pattern: Seq<char>,
    pub format: Seq<char>,
    pub explanation: Option<Seq<char>>,
    pub recommendation: Option<Seq<char>>,
    pub status_level: Seq<char>,
}

/// The plain-text view of a learned entry.
pub open spec fn learned_view(e: (String, CachedTranslation)) -> LearnedModel {
    LearnedModel {
        pattern: e.0@,
        format: (e.1).0@,
        explanation: opt_view((e.1).1),
        recommendation: opt_view((e.1).2),
        status_level: (e.1).3@,
    }
}

/// What a custom translation teaches: its pattern in lower case and the rest.
pub open spec fn custom_view(t: CustomTranslationTuple) -> LearnedModel {
    LearnedModel {
        pattern: lowercase_of(t.0@),
        format: t.1@,
        explanation: opt_view(t.2),
        recommendation: opt_view(t.3),
        status_level: t.4@,
    }
}

/// The position of the entry under `key`, if any.
pub open spec fn key_position(l: Seq<LearnedModel>, key: Seq<char>, k: int) -> Option<int>
    decreases l.len() - k,
{
    if k < 0 || k >= l.len() {
        None
    } else if l[k].pattern == key {
        Some(k)
    } else {
        key_position(l, key, k + 1)
    }
}

/// The learned translations after learning `e`: the entry under its pattern is
/// replaced, or `e` is added at the end.
pub open spec fn learn(l: Seq<LearnedModel>, e: LearnedModel) -> Seq<LearnedModel> {
    match key_position(l, e.pattern, 0) {
        Some(j) => l.update(j, e),
        None => l.push(e),
    }
}

/// The learned translations after learning each of `es` in turn.
pub open spec fn learn_all(l: Seq<LearnedModel>, es: Seq<LearnedModel>) -> Seq<LearnedModel>
    decreases es.len(),
{
    if es.len() == 0 {
        l
    } else {
        learn(learn_all(l, es.drop_last()), es.last())
    }
}

/// No two learned translations share a pattern.
pub open spec fn keys_distinct(l: Seq<LearnedModel>) -> bool {
    forall|i: int, j: int| 0 <= i < j < l.len() ==> #[trigger] l[i].pattern != #[trigger] l[j].pattern
}

// ─────────────────────────────── selection ───────────────────────────────

/// The first learned translation whose pattern matches, from position `k` on.
pub open spec fn first_learned_match(l: Seq<LearnedModel>, raw: Seq<char>, tpl: Seq<char>, k: int) -> Option<int>
    decreases l.len() - k,
{
    if k < 0 || k >= l.len() {
        None
    } else if pattern_matches(raw, tpl, l[k].pattern) {
        Some(k)
    } else {
        first_learned_match(l, raw, tpl, k + 1)
    }
}

/// The first rule whose lower-case pattern matches, from position `k` on.
pub open spec fn first_rule_match(rules: Seq<RuleModel>, raw: Seq<char>, tpl: Seq<char>, k: int) -> Option<int>
    decreases rules.len() - k,
{
    if k < 0 || k >= rules.len() {
        None
    } else if pattern_matches(raw, tpl, lowercase_of(rules[k].pattern)) {
        Some(k)
    } else {
        first_rule_match(rules, raw, tpl, k + 1)
    }
}

/// The rule most similar to `text` among those close enough, from position `k`
/// on, given the best so far (position and similarity); among equally similar
/// rules the first wins.
pub open spec fn fuzzy_pick(text: Seq<char>, rules: Seq<RuleModel>, k: int, best: Option<(int, nat, nat)>) -> Option<int>
    decreases rules.len() - k,
{
    if k < 0 || k >= rules.len() {
        match best {
            Some((i, _, _)) => Some(i),
            None => None,
        }
    } else {
        let sim = similarity(text, lowercase_of(rules[k].pattern));
        let better = close_enough(sim) && match best {
            Some((_, bn, bd)) => sim.0 * bd > bn * sim.1,
            None => true,
        };
        fuzzy_pick(text, rules, k + 1, if better { Some((k, sim.0, sim.1)) } else { best })
    }
}

/// A format with its optional texts filled in for a line.
pub open spec fn rendered(
    fmt: Seq<char>,
    expl: Option<Seq<char>>,
    reco: Option<Seq<char>>,
    level: Seq<char>,
    learned: bool,
    params: Seq<Seq<char>>,
    raw: Seq<char>,
) -> TranslationModel {
    TranslationModel {
        meaning: interpolation(fmt, params, raw),
        explanation: match expl {
            Some(x) => Some(interpolation(x, params, raw)),
            None => None,
        },
        recommendation: match reco {
            Some(x) => Some(interpolation(x, params, raw)),
            None => None,
        },
        status_level: level,
        is_learned: learned,
    }
}

// ─────────────────────────────── heuristics ───────────────────────────────

pub const ERROR_MEANING: &'static str = "🔴 Événement d'erreur ou d'échec détecté";
pub const ERROR_EXPLANATION: &'static str = "Ce journal signale une anomalie ou un rejet lors d'une opération système ou applicative.";
pub const ERROR_RECOMMENDATION: &'static str = "Vérifiez les paramètres de configuration ou les journaux adjacents pour diagnostiquer l'origine de l'échec.";
pub const WARNING_MEANING: &'static str = "⚠️ Avertissement de sécurité ou accès restreint : ";
pub const WARNING_EXPLANATION: &'static str = "Une tentative d'accès a été restreinte ou un avertissement de fonctionnement a été émis.";
pub const WARNING_RECOMMENDATION: &'static str = "Contrôlez si cette action émane d'un compte autorisé et vérifiez l'intégrité des permissions.";
pub const SUCCESS_MEANING: &'static str = "🟢 Opération ou authentification validée avec succès";
pub const SUCCESS_EXPLANATION: &'static str = "L'action demandée a été exécutée et autorisée normalement par le sous-système hôte.";
pub const SUCCESS_RECOMMENDATION: &'static str = "Aucune action requise (activité opérationnelle conforme).";
pub const INFO_MEANING: &'static str = "🔵 Activité opérationnelle : ";
pub const INFO_EXPLANATION: &'static str = "Journal système standard retraçant le cycle de vie normal d'un service ou processus hôte.";
pub const INFO_RECOMMENDATION: &'static str = "Information archivée pour la traçabilité et l'audit chronologique.";

/// The line reads as an error: it mentions an error, a failure or a fatal event.
pub open spec fn reads_as_error(lower: Seq<char>) -> bool {
    contains(lower, "error"@) || contains(lower, "fail"@) || contains(lower, "erreur"@) || contains(
        lower,
        "fatal"@,
    )
}

/// The line reads as a warning: a warning, an alert or a refusal.
pub open spec fn reads_as_warning(lower: Seq<char>) -> bool {
    contains(lower, "warn"@) || contains(lower, "alert"@) || contains(lower, "denied"@) || contains(
        lower,
        "refus"@,
    )
}

/// The line reads as a success: something accepted, successful or valid.
pub open spec fn reads_as_success(lower: Seq<char>) -> bool {
    contains(lower, "accepted"@) || contains(lower, "success"@) || contains(lower, "réussi"@)
        || contains(lower, "valid"@)
}

/// Who and where an error concerns, as far as the line tells.
pub open spec fn error_context(e: EntityModel) -> Seq<char> {
    match (e.user, e.ip) {
        (Some(u), Some(i)) => " (concernant l'utilisateur '"@ + u + "' depuis l'IP "@ + i + ")"@,
        (Some(u), None) => " (concernant l'utilisateur '"@ + u + "')"@,
        (None, Some(i)) => " (depuis l'adresse IP "@ + i + ")"@,
        (None, None) => Seq::<char>::empty(),
    }
}

/// The heuristic reading of a line that nothing in the dictionary explains:
/// meaning, explanation, recommendation and status level.
pub open spec fn heuristic_reading(raw: Seq<char>, template: Seq<char>) -> (Seq<char>, Seq<char>, Seq<char>, Seq<char>) {
    let lower = lowercase_of(raw);
    let e = entities_of(raw);
    if reads_as_error(lower) {
        (ERROR_MEANING@ + error_context(e), ERROR_EXPLANATION@, ERROR_RECOMMENDATION@, "error"@)
    } else if reads_as_warning(lower) {
        (WARNING_MEANING@ + template, WARNING_EXPLANATION@, WARNING_RECOMMENDATION@, "warning"@)
    } else if reads_as_success(lower) {
        (
            SUCCESS_MEANING@ + match e.user {
                Some(u) => " pour '"@ + u + "'"@,
                None => Seq::<char>::empty(),
            },
            SUCCESS_EXPLANATION@,
            SUCCESS_RECOMMENDATION@,
            "success"@,
        )
    } else {
        (INFO_MEANING@ + template, INFO_EXPLANATION@, INFO_RECOMMENDATION@, "info"@)
    }
}

fn error_context_exec(e: &NamedEntities) -> (r: Vec<char>)
    ensures
        r@ == error_context(e@),
{
    let mut r: Vec<char> = Vec::new();
    match (&e.user, &e.ip) {
        (Some(u), Some(i)) => {
            append_chars(&mut r, to_chars(" (concernant l'utilisateur '").as_slice());
            append_chars(&mut r, to_chars(u.as_str()).as_slice());
            append_chars(&mut r, to_chars("' depuis l'IP ").as_slice());
            append_chars(&mut r, to_chars(i.as_str()).as_slice());
            append_chars(&mut r, to_chars(")").as_slice());
        },
        (Some(u), None) => {
            append_chars(&mut r, to_chars(" (concernant l'utilisateur '").as_slice());
            append_chars(&mut r, to_chars(u.as_str()).as_slice());
            append_chars(&mut r, to_chars("')").as_slice());
        },
        (None, Some(i)) => {
            append_chars(&mut r, to_chars(" (depuis l'adresse IP ").as_slice());
            append_chars(&mut r, to_chars(i.as_str()).as_slice());
            append_chars(&mut r, to_chars(")").as_slice());
        },
        (None, None) => {},
    }
    assert(r@ =~= error_context(e@));
    r
}

fn joined(a: &str, b: &[char]) -> (r: String)
    ensures
        r@ == a@ + b@,
{
    let mut v = to_chars(a);
    append_chars(&mut v, b);
    from_chars(v.as_slice())
}

/// The heuristic reading of a line that nothing in the dictionary explains:
/// meaning, explanation, recommendation and status level.
pub fn heuristic_translation(raw: &str, template: &str, params: &[String]) -> (r: (
    String,
    String,
    String,
    String,
))
    ensures
        (r.0@, r.1@, r.2@, r.3@) == heuristic_reading(raw@, template@),
{
    let lower_s = to_lower(raw);
    let lower = to_chars(lower_s.as_str());
    let l = lower.as_slice();
    let entities = extract_all_named_entities(raw);
    if has_lit(l, "error") || has_lit(l, "fail") || has_lit(l, "erreur") || has_lit(l, "fatal") {
        let ctx = error_context_exec(&entities);
        (
            joined(ERROR_MEANING, ctx.as_slice()),
            owned(ERROR_EXPLANATION),
            owned(ERROR_RECOMMENDATION),
            owned("error"),
        )
    } else if has_lit(l, "warn") || has_lit(l, "alert") || has_lit(l, "denied") || has_lit(
        l,
        "refus",
    ) {
        let t = to_chars(template);
        (
            joined(WARNING_MEANING, t.as_slice()),
            owned(WARNING_EXPLANATION),
            owned(WARNING_RECOMMENDATION),
            owned("warning"),
        )
    } else if has_lit(l, "accepted") || has_lit(l, "success") || has_lit(l, "réussi") || has_lit(
        l,
        "valid",
    ) {
        let mut who: Vec<char> = Vec::new();
        match &entities.user {
            Some(u) => {
                append_chars(&mut who, to_chars(" pour '").as_slice());
                append_chars(&mut who, to_chars(u.as_str()).as_slice());
                append_chars(&mut who, to_chars("'").as_slice());
            },
            None => {},
        }
        assert(who@ =~= match entities@.user {
            Some(u) => " pour '"@ + u + "'"@,
            None => Seq::<char>::empty(),
        });
        (
            joined(SUCCESS_MEANING, who.as_slice()),
            owned(SUCCESS_EXPLANATION),
            owned(SUCCESS_RECOMMENDATION),
            owned("success"),
        )
    } else {
        let t = to_chars(template);
        (
            joined(INFO_MEANING, t.as_slice()),
            owned(INFO_EXPLANATION),
            owned(INFO_RECOMMENDATION),
            owned("info"),
        )
    }
}

// ─────────────────────────────── translation ───────────────────────────────

/// The reading of a line: by the first learned translation that matches, else
/// by the first dictionary rule that matches, else by the rule closest in
/// words, else by the heuristic reading. The line is trimmed first; patterns
/// are compared with the lower-case line and the lower-case template.
pub open spec fn translation(
    l: Seq<LearnedModel>,
    rules: Seq<RuleModel>,
    raw: Seq<char>,
    template: Seq<char>,
    params: Seq<Seq<char>>,
) -> TranslationModel {
    let clean = trim(raw);
    let lr = lowercase_of(clean);
    let lt = lowercase_of(template);
    match first_learned_match(l, lr, lt, 0) {
        Some(k) => rendered(
            l[k].format,
            l[k].explanation,
            l[k].recommendation,
            l[k].status_level,
            true,
            params,
            clean,
        ),
        None => match first_rule_match(rules, lr, lt, 0) {
            Some(k) => rendered(
                rules[k].template_format,
                rules[k].explanation,
                rules[k].recommendation,
                rules[k].status_level,
                false,
                params,
                clean,
            ),
            None => match fuzzy_pick(lr, rules, 0, None) {
                Some(k) => rendered(
                    rules[k].template_format,
                    rules[k].explanation,
                    rules[k].recommendation,
                    rules[k].status_level,
                    false,
                    params,
                    clean,
                ),
                None => {
                    let h = heuristic_reading(clean, template);
                    TranslationModel {
                        meaning: h.0,
                        explanation: Some(h.1),
                        recommendation: Some(h.2),
                        status_level: h.3,
                        is_learned: false,
                    }
                },
            },
        },
    }
}

fn copy_rule(r: &TranslationRule) -> (c: TranslationRule)
    ensures
        c@ == r@,
{
    TranslationRule {
        category: r.category.clone(),
        pattern: r.pattern.clone(),
        template_format: r.template_format.clone(),
        explanation: copy_opt(&r.explanation),
        recommendation: copy_opt(&r.recommendation),
        status_level: r.status_level.clone(),
    }
}

fn interpolate_opt(o: &Option<String>, params: &[String], raw: &str) -> (r: Option<String>)
    ensures
        opt_view(r) == match opt_view(*o) {
            Some(x) => Some(interpolation(x, views(params@), raw@)),
            None => None,
        },
{
    match o {
        Some(x) => Some(interpolate(x.as_str(), params, raw)),
        None => None,
    }
}

fn render(
    fmt: &str,
    expl: &Option<String>,
    reco: &Option<String>,
    level: &str,
    learned: bool,
    params: &[String],
    raw: &str,
) -> (r: TranslatedLog)
    ensures
        r@ == rendered(
            fmt@,
            opt_view(*expl),
            opt_view(*reco),
            level@,
            learned,
            views(params@),
            raw@,
        ),
{
    TranslatedLog {
        meaning: interpolate(fmt, params, raw),
        explanation: interpolate_opt(expl, params, raw),
        recommendation: interpolate_opt(reco, params, raw),
        status_level: owned(level),
        is_learned: learned,
    }
}

/// The views of a list of rules.
pub open spec fn rule_views(v: Seq<TranslationRule>) -> Seq<RuleModel> {
    v.map_values(|x: TranslationRule| x@)
}

/// The fuzzy choice so far, as plain numbers.
pub open spec fn best_view(b: Option<(usize, usize, usize)>) -> Option<(int, nat, nat)> {
    match b {
        Some((i, n, d)) => Some((i as int, n as nat, d as nat)),
        None => None,
    }
}

/// Translates log lines with learned translations and a dictionary of rules.
pub struct LogTranslator {
    cache: Vec<(String, CachedTranslation)>,
    file_rules: Vec<TranslationRule>,
}

impl Default for LogTranslator {
    /// A translator with nothing learned and an empty dictionary.
    fn default() -> (r: LogTranslator)
        ensures
            r.wf(),
            r.learned().len() == 0,
            r.rules().len() == 0,
    {
        LogTranslator::new()
    }
}

impl LogTranslator {
    /// The learned translations, in the order they were first learned.
    pub closed spec fn learned(&self) -> Seq<LearnedModel> {
        self.cache@.map_values(|e: (String, CachedTranslation)| learned_view(e))
    }

    /// The dictionary's rules, in order.
    pub closed spec fn rules(&self) -> Seq<RuleModel> {
        rule_views(self.file_rules@)
    }

    /// No two learned translations share a pattern.
    pub open spec fn wf(&self) -> bool {
        keys_distinct(self.learned())
    }

    /// A translator with nothing learned and an empty dictionary.
    pub fn new() -> (r: LogTranslator)
        ensures
            r.wf(),
            r.learned().len() == 0,
            r.rules().len() == 0,
    {
        let r = LogTranslator { cache: Vec::new(), file_rules: Vec::new() };
        assert(r.learned() =~= Seq::<LearnedModel>::empty());
        assert(r.rules() =~= Seq::<RuleModel>::empty());
        r
    }

    /// A translator with nothing learned and the given dictionary.
    pub fn with_rules(rules: Vec<TranslationRule>) -> (r: LogTranslator)
        ensures
            r.wf(),
            r.learned().len() == 0,
            r.rules() == rule_views(rules@),
    {
        let r = LogTranslator { cache: Vec::new(), file_rules: rules };
        assert(r.learned() =~= Seq::<LearnedModel>::empty());
        r
    }

    /// Replaces the dictionary; returns the number of rules now held.
    pub fn replace_rules(&mut self, rules: Vec<TranslationRule>) -> (n: usize)
        ensures
            final(self).rules() == rule_views(rules@),
            final(self).learned() == old(self).learned(),
            n == rules@.len(),
    {
        let n = rules.len();
        self.file_rules = rules;
        n
    }

    /// Replaces the dictionary by a downloaded one unless it is empty; returns
    /// the number of rules downloaded.
    pub fn sync_rules(&mut self, rules: Vec<TranslationRule>) -> (n: usize)
        ensures
            final(self).rules() == if rules@.len() > 0 {
                rule_views(rules@)
            } else {
                old(self).rules()
            },
            final(self).learned() == old(self).learned(),
            n == rules@.len(),
    {
        let n = rules.len();
        if n > 0 {
            self.file_rules = rules;
        }
        n
    }

    /// A copy of the dictionary's rules.
    pub fn get_all_rules(&self) -> (r: Vec<TranslationRule>)
        ensures
            rule_views(r@) == self.rules(),
    {
        let mut out: Vec<TranslationRule> = Vec::new();
        let mut i: usize = 0;
        while i < self.file_rules.len()
            invariant
                i <= self.file_rules@.len(),
                rule_views(out@) == self.rules().take(i as int),
            decreases self.file_rules@.len() - i,
        {
            let ghost before = out@;
            let c = copy_rule(&self.file_rules[i]);
            assert(c@ == self.rules()[i as int]);
            out.push(c);
            assert(rule_views(out@) =~= rule_views(before).push(c@));
            assert(self.rules().take(i + 1) =~= self.rules().take(i as int).push(self.rules()[i as int]));
            i = i + 1;
            assert(rule_views(out@) =~= self.rules().take(i as int));
        }
        assert(self.rules().take(self.file_rules@.len() as int) =~= self.rules());
        out
    }

    proof fn lemma_no_key_after(l: Seq<LearnedModel>, key: Seq<char>, k: int)
        requires
            0 <= k,
            key_position(l, key, k) is None,
        ensures
            forall|i: int| k <= i < l.len() ==> l[i].pattern != key,
        decreases l.len() - k,
    {
        if k < l.len() {
            Self::lemma_no_key_after(l, key, k + 1);
        }
    }

    proof fn lemma_key_found(l: Seq<LearnedModel>, key: Seq<char>, k: int)
        ensures
            key_position(l, key, k) matches Some(j) ==> 0 <= j < l.len() && l[j].pattern == key,
        decreases l.len() - k,
    {
        if 0 <= k < l.len() && l[k].pattern != key {
            Self::lemma_key_found(l, key, k + 1);
        }
    }

    fn key_index(&self, key: &str) -> (r: Option<usize>)
        ensures
            match r {
                Some(j) => j < self.cache@.len() && key_position(self.learned(), key@, 0) == Some(j as int),
                None => key_position(self.learned(), key@, 0) is None,
            },
    {
        let ghost l = self.learned();
        let mut j: usize = 0;
        while j < self.cache.len()
            invariant
                j <= self.cache@.len(),
                l == self.learned(),
                key_position(l, key@, 0) == key_position(l, key@, j as int),
            decreases self.cache@.len() - j,
        {
            assert(l[j as int].pattern == self.cache@[j as int].0@);
            if crate::text::str_eq(self.cache[j].0.as_str(), key) {
                return Some(j);
            }
            j = j + 1;
        }
        None
    }

    /// Learns a translation under the lower-case form of `pattern`, replacing
    /// what was learned under it before.
    pub fn insert_custom_translation(
        &mut self,
        pattern: &str,
        format: &str,
        explanation: Option<String>,
        recommendation: Option<String>,
        level: &str,
    )
        requires
            old(self).wf(),
        ensures
            final(self).wf(),
            final(self).learned() == learn(
                old(self).learned(),
                LearnedModel {
                    pattern: lowercase_of(pattern@),
                    format: format@,
                    explanation: opt_view(explanation),
                    recommendation: opt_view(recommendation),
                    status_level: level@,
                },
            ),
            final(self).rules() == old(self).rules(),
    {
        let ghost l = self.learned();
        let key = to_lower(pattern);
        let found = self.key_index(key.as_str());
        let entry: CachedTranslation = (owned(format), explanation, recommendation, owned(level));
        let pair = (key, entry);
        let ghost e = learned_view(pair);
        match found {
            Some(j) => {
                proof {
                    Self::lemma_key_found(l, e.pattern, 0);
                }
                assert(l[j as int].pattern == e.pattern);
                let ghost oc = self.cache@;
                self.cache.set(j, pair);
                assert forall|a: int| 0 <= a < self.cache@.len() implies #[trigger] self.learned()[a] == l.update(j as int, e)[a] by {
                    if a != j {
                        assert(self.cache@[a] == oc[a]);
                    }
                }
                assert(self.learned() =~= l.update(j as int, e));
                assert(keys_distinct(self.learned())) by {
                    assert forall|a: int, b: int| 0 <= a < b < self.learned().len() implies #[trigger] self.learned()[a].pattern != #[trigger] self.learned()[b].pattern by {
                        if a != j && b != j {
                            assert(l[a].pattern != l[b].pattern);
                        } else if a == j {
                            assert(l[b].pattern != l[a].pattern);
                        } else {
                            assert(l[a].pattern != l[b].pattern);
                        }
                    }
                }
            },
            None => {
                proof {
                    Self::lemma_no_key_after(l, e.pattern, 0);
                }
                self.cache.push(pair);
                assert(self.learned() =~= l.push(e));
                assert(keys_distinct(self.learned())) by {
                    assert forall|a: int, b: int| 0 <= a < b < self.learned().len() implies #[trigger] self.learned()[a].pattern != #[trigger] self.learned()[b].pattern by {
                        if b < l.len() {
                            assert(l[a].pattern != l[b].pattern);
                        } else {
                            assert(l[a].pattern != e.pattern);
                        }
                    }
                }
            },
        }
    }

    /// Learns each translation in turn, as `insert_custom_translation` does.
    pub fn load_custom_translations(&mut self, translations: Vec<CustomTranslationTuple>)
        requires
            old(self).wf(),
        ensures
            final(self).wf(),
            final(self).learned() == learn_all(
                old(self).learned(),
                translations@.map_values(|t: CustomTranslationTuple| custom_view(t)),
            ),
            final(self).rules() == old(self).rules(),
    {
        let ghost ts = translations@.map_values(|t: CustomTranslationTuple| custom_view(t));
        let mut rest = translations;
        let mut taken: Vec<CustomTranslationTuple> = Vec::new();
        let ghost all = rest@;
        // Consumed from the front: reverse first so that `pop` yields them in order.
        let mut rev: Vec<CustomTranslationTuple> = Vec::new();
        while rest.len() > 0
            invariant
                rev@ + rest@.reverse() == all.reverse(),
            decreases rest@.len(),
        {
            let ghost before_rest = rest@;
            let ghost before_rev = rev@;
            let t = rest.pop().unwrap();
            rev.push(t);
            assert(before_rest =~= rest@.push(t));
            assert(before_rest.reverse() =~= seq![t] + rest@.reverse());
            assert(rev@ + rest@.reverse() =~= before_rev + before_rest.reverse());
        }
        assert(rev@ =~= all.reverse());
        let mut i: usize = 0;
        let n = rev.len();
        while rev.len() > 0
            invariant
                self.wf(),
                self.rules() == old(self).rules(),
                n == all.len(),
                i + rev@.len() == n,
                rev@ == all.reverse().take(rev@.len() as int),
                ts == all.map_values(|t: CustomTranslationTuple| custom_view(t)),
                self.learned() == learn_all(old(self).learned(), ts.take(i as int)),
            decreases rev@.len(),
        {
            let ghost before_rev = rev@;
            let t = rev.pop().unwrap();
            assert(before_rev =~= rev@.push(t));
            assert(t == all[i as int]) by {
                assert(all.reverse()[before_rev.len() - 1] == all[all.len() - 1 - (before_rev.len() - 1)]);
            }
            assert(rev@ =~= all.reverse().take(rev@.len() as int));
            let (pattern, format, explanation, recommendation, level) = t;
            self.insert_custom_translation(pattern.as_str(), format.as_str(), explanation, recommendation, level.as_str());
            assert(ts.take(i + 1).drop_last() =~= ts.take(i as int));
            i = i + 1;
        }
        assert(ts.take(n as int) =~= ts);
    }

    fn find_learned(&self, raw: &[char], tpl: &[char]) -> (r: Option<usize>)
        ensures
            match r {
                Some(k) => k < self.cache@.len() && first_learned_match(self.learned(), raw@, tpl@, 0) == Some(k as int),
                None => first_learned_match(self.learned(), raw@, tpl@, 0) is None,
            },
    {
        let ghost l = self.learned();
        let mut k: usize = 0;
        while k < self.cache.len()
            invariant
                k <= self.cache@.len(),
                l == self.learned(),
                first_learned_match(l, raw@, tpl@, 0) == first_learned_match(l, raw@, tpl@, k as int),
            decreases self.cache@.len() - k,
        {
            let key = to_chars(self.cache[k].0.as_str());
            assert(key@ == l[k as int].pattern);
            if matches_pattern(raw, tpl, key.as_slice()) {
                return Some(k);
            }
            k = k + 1;
        }
        None
    }

    fn find_rule(&self, raw: &[char], tpl: &[char]) -> (r: Option<usize>)
        ensures
            match r {
                Some(k) => k < self.file_rules@.len() && first_rule_match(self.rules(), raw@, tpl@, 0) == Some(k as int),
                None => first_rule_match(self.rules(), raw@, tpl@, 0) is None,
            },
    {
        let ghost rules = self.rules();
        let mut k: usize = 0;
        while k < self.file_rules.len()
            invariant
                k <= self.file_rules@.len(),
                rules == self.rules(),
                first_rule_match(rules, raw@, tpl@, 0) == first_rule_match(rules, raw@, tpl@, k as int),
            decreases self.file_rules@.len() - k,
        {
            let low = to_lower(self.file_rules[k].pattern.as_str());
            let pat = to_chars(low.as_str());
            assert(pat@ == lowercase_of(rules[k as int].pattern));
            if matches_pattern(raw, tpl, pat.as_slice()) {
                return Some(k);
            }
            k = k + 1;
        }
        None
    }

    fn find_closest_rule(&self, text: &[char]) -> (r: Option<usize>)
        ensures
            match r {
                Some(k) => k < self.file_rules@.len() && fuzzy_pick(text@, self.rules(), 0, None) == Some(k as int),
                None => fuzzy_pick(text@, self.rules(), 0, None) is None,
            },
    {
        let ghost rules = self.rules();
        let mut best: Option<(usize, usize, usize)> = None;
        let mut k: usize = 0;
        while k < self.file_rules.len()
            invariant
                k <= self.file_rules@.len(),
                rules == self.rules(),
                best matches Some((i, _, _)) ==> i < k,
                fuzzy_pick(text@, rules, 0, None) == fuzzy_pick(text@, rules, k as int, best_view(best)),
            decreases self.file_rules@.len() - k,
        {
            let low = to_lower(self.file_rules[k].pattern.as_str());
            let pat = to_chars(low.as_str());
            assert(pat@ == lowercase_of(rules[k as int].pattern));
            let (n, d) = token_jaccard_similarity(text, pat.as_slice());
            let n128 = n as u128;
            let d128 = d as u128;
            assert(n128 * 10 <= 10 * 0xffff_ffff_ffff_ffffu128);
            let close = 10 * n128 >= 7 * d128;
            let better = close && match best {
                Some((_, bn, bd)) => {
                    proof {
                        assert(n128 * (bd as u128) <= 0xffff_ffff_ffff_ffffu128 * 0xffff_ffff_ffff_ffffu128) by (nonlinear_arith)
                            requires n128 <= 0xffff_ffff_ffff_ffffu128, (bd as u128) <= 0xffff_ffff_ffff_ffffu128;
                        assert((bn as u128) * d128 <= 0xffff_ffff_ffff_ffffu128 * 0xffff_ffff_ffff_ffffu128) by (nonlinear_arith)
                            requires (bn as u128) <= 0xffff_ffff_ffff_ffffu128, d128 <= 0xffff_ffff_ffff_ffffu128;
                    }
                    n128 * (bd as u128) > (bn as u128) * d128
                },
                None => true,
            };
            if better {
                best = Some((k, n, d));
            }
            k = k + 1;
        }
        match best {
            Some((i, _, _)) => Some(i),
            None => None,
        }
    }

    /// The reading of a log line (see `translation`).
    pub fn translate(&self, raw_message: &str, template: &str, params: &[String]) -> (r: TranslatedLog)
        ensures
            r@ == translation(self.learned(), self.rules(), raw_message@, template@, views(params@)),
    {
        let clean_v = trim_str(raw_message);
        let clean = from_chars(clean_v.as_slice());
        let lower_raw = to_lower(clean.as_str());
        let lr = to_chars(lower_raw.as_str());
        let lower_tpl = to_lower(template);
        let lt = to_chars(lower_tpl.as_str());
        match self.find_learned(lr.as_slice(), lt.as_slice()) {
            Some(k) => {
                let e = &self.cache[k];
                assert(learned_view(*e) == self.learned()[k as int]);
                return render(
                    (e.1).0.as_str(),
                    &(e.1).1,
                    &(e.1).2,
                    (e.1).3.as_str(),
                    true,
                    params,
                    clean.as_str(),
                );
            },
            None => {},
        }
        match self.find_rule(lr.as_slice(), lt.as_slice()) {
            Some(k) => {
                let rule = &self.file_rules[k];
                assert(rule@ == self.rules()[k as int]);
                return render(
                    rule.template_format.as_str(),
                    &rule.explanation,
                    &rule.recommendation,
                    rule.status_level.as_str(),
                    false,
                    params,
                    clean.as_str(),
                );
            },
            None => {},
        }
        match self.find_closest_rule(lr.as_slice()) {
            Some(k) => {
                let rule = &self.file_rules[k];
                assert(rule@ == self.rules()[k as int]);
                return render(
                    rule.template_format.as_str(),
                    &rule.explanation,
                    &rule.recommendation,
                    rule.status_level.as_str(),
                    false,
                    params,
                    clean.as_str(),
                );
            },
            None => {},
        }
        let h = heuristic_translation(clean.as_str(), template, params);
        TranslatedLog {
            meaning: h.0,
            explanation: Some(h.1),
            recommendation: Some(h.2),
            status_level: h.3,
            is_learned: false,
        }
    }
}

// ────────────────────────────────── laws ──────────────────────────────────

/// The significant words of a text are finitely many.
pub proof fn lemma_significant_words_finite(s: Seq<char>)
    ensures
        significant_words(s).finite(),
{
    let all = split_ws(s).to_set();
    assert(significant_words(s).subset_of(all));
    vstd::set_lib::lemma_len_subset(significant_words(s), all);
}

/// Word similarity does not depend on which text is the pattern.
pub proof fn law_similarity_symmetric(a: Seq<char>, b: Seq<char>)
    ensures
        similarity(a, b) == similarity(b, a),
{
    let sa = significant_words(a);
    let sb = significant_words(b);
    assert(sa.intersect(sb) =~= sb.intersect(sa));
    assert(sa.union(sb) =~= sb.union(sa));
}

/// Word similarity is a fraction between 0 and 1 with a positive denominator.
pub proof fn law_similarity_bounded(a: Seq<char>, b: Seq<char>)
    ensures
        similarity(a, b).1 > 0,
        similarity(a, b).0 <= similarity(a, b).1,
{
    let sa = significant_words(a);
    let sb = significant_words(b);
    lemma_significant_words_finite(a);
    lemma_significant_words_finite(b);
    if sa.len() > 0 && sb.len() > 0 {
        assert(sa.union(sb).finite());
        assert(sa.intersect(sb).subset_of(sa.union(sb)));
        vstd::set_lib::lemma_len_subset(sa.intersect(sb), sa.union(sb));
        assert(sa.subset_of(sa.union(sb)));
        vstd::set_lib::lemma_len_subset(sa, sa.union(sb));
    }
}

proof fn lemma_first_learned(l: Seq<LearnedModel>, raw: Seq<char>, tpl: Seq<char>, k: int)
    requires
        0 <= k,
    ensures
        first_learned_match(l, raw, tpl, k) matches Some(j) ==> k <= j < l.len() && pattern_matches(
            raw,
            tpl,
            l[j].pattern,
        ) && forall|i: int| k <= i < j ==> !pattern_matches(raw, tpl, #[trigger] l[i].pattern),
        first_learned_match(l, raw, tpl, k) is None ==> forall|i: int|
            k <= i < l.len() ==> !pattern_matches(raw, tpl, #[trigger] l[i].pattern),
    decreases l.len() - k,
{
    if k < l.len() && !pattern_matches(raw, tpl, l[k].pattern) {
        lemma_first_learned(l, raw, tpl, k + 1);
    }
}

proof fn lemma_first_learned_at(l: Seq<LearnedModel>, raw: Seq<char>, tpl: Seq<char>, p: int, k: int)
    requires
        0 <= k <= p < l.len(),
        pattern_matches(raw, tpl, l[p].pattern),
        forall|i: int| k <= i < p ==> !pattern_matches(raw, tpl, #[trigger] l[i].pattern),
    ensures
        first_learned_match(l, raw, tpl, k) == Some(p),
    decreases p - k,
{
    if k < p {
        lemma_first_learned_at(l, raw, tpl, p, k + 1);
    }
}

/// A line is read from the learned translations exactly when one of them
/// matches it; learned translations come before the dictionary.
pub proof fn law_learned_first(
    l: Seq<LearnedModel>,
    rules: Seq<RuleModel>,
    raw: Seq<char>,
    template: Seq<char>,
    params: Seq<Seq<char>>,
)
    ensures
        translation(l, rules, raw, template, params).is_learned <==> exists|i: int|
            0 <= i < l.len() && pattern_matches(
                lowercase_of(trim(raw)),
                lowercase_of(template),
                #[trigger] l[i].pattern,
            ),
{
    let lr = lowercase_of(trim(raw));
    let lt = lowercase_of(template);
    lemma_first_learned(l, lr, lt, 0);
    if let Some(j) = first_learned_match(l, lr, lt, 0) {
        assert(pattern_matches(lr, lt, l[j].pattern));
    }
}

/// What is taught is what is read: once a translation is learned under a
/// pattern that matches a line, and no other learned translation matches it,
/// the line reads as that translation, filled in for the line.
pub proof fn law_taught_translation_applies(
    l: Seq<LearnedModel>,
    e: LearnedModel,
    rules: Seq<RuleModel>,
    raw: Seq<char>,
    template: Seq<char>,
    params: Seq<Seq<char>>,
)
    requires
        pattern_matches(lowercase_of(trim(raw)), lowercase_of(template), e.pattern),
        forall|i: int|
            0 <= i < l.len() ==> !pattern_matches(
                lowercase_of(trim(raw)),
                lowercase_of(template),
                #[trigger] l[i].pattern,
            ),
    ensures
        translation(learn(l, e), rules, raw, template, params) == rendered(
            e.format,
            e.explanation,
            e.recommendation,
            e.status_level,
            true,
            params,
            trim(raw),
        ),
{
    let lr = lowercase_of(trim(raw));
    let lt = lowercase_of(template);
    let l2 = learn(l, e);
    match key_position(l, e.pattern, 0) {
        Some(j) => {
            LogTranslator::lemma_key_found(l, e.pattern, 0);
            assert forall|i: int| 0 <= i < j implies !pattern_matches(lr, lt, #[trigger] l2[i].pattern) by {
                assert(l2[i] == l[i]);
            }
            lemma_first_learned_at(l2, lr, lt, j, 0);
        },
        None => {
            assert forall|i: int| 0 <= i < l.len() implies !pattern_matches(lr, lt, #[trigger] l2[i].pattern) by {
                assert(l2[i] == l[i]);
            }
            lemma_first_learned_at(l2, lr, lt, l.len() as int, 0);
        },
    }
}

/// A line that no learned translation and no rule explains, with no rule
/// close in words, gets the heuristic reading, which always explains and
/// recommends, at one of the four levels.
pub proof fn law_heuristic_fallback(
    l: Seq<LearnedModel>,
    rules: Seq<RuleModel>,
    raw: Seq<char>,
    template: Seq<char>,
    params: Seq<Seq<char>>,
)
    requires
        first_learned_match(l, lowercase_of(trim(raw)), lowercase_of(template), 0) is None,
        first_rule_match(rules, lowercase_of(trim(raw)), lowercase_of(template), 0) is None,
        fuzzy_pick(lowercase_of(trim(raw)), rules, 0, None) is None,
    ensures
        ({
            let t = translation(l, rules, raw, template, params);
            let h = heuristic_reading(trim(raw), template);
            &&& t.meaning == h.0
            &&& t.explanation == Some(h.1)
            &&& t.recommendation == Some(h.2)
            &&& t.status_level == h.3
            &&& !t.is_learned
            &&& (h.3 == "error"@ || h.3 == "warning"@ || h.3 == "success"@ || h.3 == "info"@)
        }),
{
}

/// The level of the heuristic reading by the words of the lower-case line:
/// an error, failure, "erreur" or fatal event reads as an error; otherwise a
/// warning, alert, denial or refusal as a warning; otherwise something
/// accepted, successful, "réussi" or valid as a success; anything else as
/// information. Warnings and information read as their sign and title
/// followed by the template.
pub proof fn law_heuristic_levels(raw: Seq<char>, template: Seq<char>)
    ensures
        ({
            let l = lowercase_of(raw);
            let h = heuristic_reading(raw, template);
            let error = contains(l, "error"@) || contains(l, "fail"@) || contains(l, "erreur"@)
                || contains(l, "fatal"@);
            let warning = contains(l, "warn"@) || contains(l, "alert"@) || contains(l, "denied"@)
                || contains(l, "refus"@);
            let success = contains(l, "accepted"@) || contains(l, "success"@) || contains(
                l,
                "réussi"@,
            ) || contains(l, "valid"@);
            &&& error ==> h.3 == "error"@
            &&& (!error && warning) ==> h.3 == "warning"@ && h.0
                == "⚠️ Avertissement de sécurité ou accès restreint : "@ + template
            &&& (!error && !warning && success) ==> h.3 == "success"@
            &&& (!error && !warning && !success) ==> h.3 == "info"@ && h.0
                == "🔵 Activité opérationnelle : "@ + template
        }),
{
}

} // verus!
