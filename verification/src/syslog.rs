//! Reading of lines received by the syslog listener: the `<PRI>` header is
//! dropped; an RFC 5424 line (version `1` after the header) gives its
//! HOSTNAME (third field) and the fields after it; an RFC 3164 line gives its
//! host name (fourth word) and message (the words after it); anything else is
//! taken whole from the sending address.
use vstd::prelude::*;
use crate::engine::{hash_log, hex_lower, sha256_of};
use crate::models::{RawLog, Timestamp};
use crate::translator::cviews;
use crate::text::{
    concat2, find_char, find_first, from_chars, join, join_chars, owned, slice_chars, split_ws,
    split_ws_chars, trim, trim_str, ws_split_acc,
};

verus! {

/// `t` without its leading `<PRI>` header: when it opens with `<`, everything
/// up to the first `>` is dropped (nothing when there is no `>`).
pub open spec fn strip_pri(t: Seq<char>) -> Seq<char> {
    if t.len() > 0 && t[0] == '<' {
        match find_first(t, seq!['>']) {
            Some(p) => t.skip(p + 1),
            None => t,
        }
    } else {
        t
    }
}

/// Whether a line opens with a `<PRI>` header: `<`, then a `>` later on.
pub open spec fn has_pri(t: Seq<char>) -> bool {
    t.len() > 0 && t[0] == '<' && find_first(t, seq!['>']) is Some
}

/// Whether a line is in RFC 5424 form: a `<PRI>` header followed by the
/// version `1` as first field.
pub open spec fn rfc5424_header(t: Seq<char>) -> bool {
    has_pri(t) && split_ws(strip_pri(t)).len() > 0 && split_ws(strip_pri(t))[0] == seq!['1']
}

/// The host name and message of a received line. An RFC 5424 line with a
/// HOSTNAME and something after it gives the third field and the fields after
/// it joined by spaces; otherwise, with at least four words and a non-empty
/// rest, the fourth word and the words after it joined by spaces; otherwise
/// the sender's address and the whole content.
pub open spec fn syslog_fields(peer_ip: Seq<char>, raw: Seq<char>) -> (Seq<char>, Seq<char>) {
    let t = trim(raw);
    let content = strip_pri(t);
    let parts = split_ws(content);
    if rfc5424_header(t) && parts.len() >= 3 && join(parts.skip(3), seq![' ']).len() > 0 {
        (parts[2], join(parts.skip(3), seq![' ']))
    } else if parts.len() >= 4 && join(parts.skip(4), seq![' ']).len() > 0 {
        (parts[3], join(parts.skip(4), seq![' ']))
    } else {
        (peer_ip, content)
    }
}

/// The words from position `start` on, joined by single spaces.
fn words_from(parts: &Vec<Vec<char>>, start: usize) -> (r: Vec<char>)
    requires
        start <= parts@.len(),
    ensures
        r@ == join(cviews(parts@).skip(start as int), seq![' ']),
{
    let ghost ps = cviews(parts@);
    let mut rest: Vec<Vec<char>> = Vec::new();
    let mut i: usize = start;
    while i < parts.len()
        invariant
            start <= i <= parts@.len(),
            ps == cviews(parts@),
            cviews(rest@) == ps.subrange(start as int, i as int),
        decreases parts@.len() - i,
    {
        let ghost before = rest@;
        let c = slice_chars(parts[i].as_slice(), 0, parts[i].len());
        assert(c@ =~= ps[i as int]);
        rest.push(c);
        assert(cviews(rest@) =~= cviews(before).push(c@));
        assert(ps.subrange(start as int, i + 1) =~= ps.subrange(start as int, i as int).push(ps[i as int]));
        i = i + 1;
    }
    assert(ps.subrange(start as int, ps.len() as int) =~= ps.skip(start as int));
    let sep: Vec<char> = vec![' '];
    assert(sep@ =~= seq![' ']);
    join_chars(rest.as_slice(), sep.as_slice())
}

fn strip_pri_exec(t: Vec<char>) -> (r: Vec<char>)
    ensures
        r@ == strip_pri(t@),
{
    if t.len() > 0 && t[0] == '<' {
        match find_char(t.as_slice(), '>') {
            Some(p) => {
                let r = slice_chars(t.as_slice(), p + 1, t.len());
                assert(r@ =~= t@.skip(p + 1));
                r
            },
            None => t,
        }
    } else {
        t
    }
}

/// The host name and the message of a line received from `peer_ip`.
pub fn parse_syslog_line(peer_ip: &str, raw: &str) -> (r: (String, String))
    ensures
        (r.0@, r.1@) == syslog_fields(peer_ip@, raw@),
{
    let t = trim_str(raw);
    let pri = t.len() > 0 && t[0] == '<' && find_char(t.as_slice(), '>').is_some();
    let ghost tv = t@;
    let content = strip_pri_exec(t);
    let parts = split_ws_chars(content.as_slice());
    let ghost ps = split_ws(content@);
    assert(cviews(parts@) =~= ps);
    let version = parts.len() > 0 && parts[0].len() == 1 && parts[0][0] == '1';
    assert(version == (ps.len() > 0 && ps[0] == seq!['1'])) by {
        if ps.len() > 0 && parts[0]@.len() == 1 {
            assert(ps[0] == parts@[0]@);
            if parts@[0]@[0] == '1' {
                assert(ps[0] =~= seq!['1']);
            }
        }
        if ps.len() > 0 && ps[0] == seq!['1'] {
            assert(parts@[0]@ == ps[0]);
        }
    }
    assert(pri == has_pri(tv));
    assert((pri && version) == rfc5424_header(tv));
    if pri && version && parts.len() >= 3 {
        let msg = words_from(&parts, 3);
        if msg.len() > 0 {
            assert(parts@[2]@ == ps[2]);
            return (from_chars(parts[2].as_slice()), from_chars(msg.as_slice()));
        }
    }
    if parts.len() >= 4 {
        let msg = words_from(&parts, 4);
        if msg.len() > 0 {
            assert(parts@[3]@ == ps[3]);
            return (from_chars(parts[3].as_slice()), from_chars(msg.as_slice()));
        }
    }
    (owned(peer_ip), from_chars(content.as_slice()))
}

/// The source under which lines from a network host are stored.
pub open spec fn network_source_id(peer_ip: Seq<char>) -> Seq<char> {
    "network_syslog_"@ + peer_ip
}

/// The source under which lines from `peer_ip` are stored.
pub fn syslog_source_id(peer_ip: &str) -> (r: String)
    ensures
        r@ == network_source_id(peer_ip@),
{
    concat2("network_syslog_", peer_ip)
}

/// The raw log stored for a line received from `peer_ip`: its host name and
/// message as read from the line, the message's SHA-256 in hexadecimal, the
/// host's source, no meaning yet, received at `now`.
pub fn syslog_record(peer_ip: &str, raw: &str, id: String, now: Timestamp) -> (r: RawLog)
    ensures
        (r.hostname@, r.raw_message@) == syslog_fields(peer_ip@, raw@),
        r.id@ == id@,
        r.source_id@ == network_source_id(peer_ip@),
        r.log_hash@ == hex_lower(sha256_of(vstd::utf8::encode_utf8(r.raw_message@))),
        r.meaning is None,
        r.explanation is None,
        r.recommendation is None,
        r.timestamp == now,
        r.ingested_at == now,
{
    let (hostname, message) = parse_syslog_line(peer_ip, raw);
    let log_hash = hash_log(message.as_str());
    RawLog {
        id,
        source_id: syslog_source_id(peer_ip),
        hostname,
        raw_message: message,
        log_hash,
        meaning: None,
        explanation: None,
        recommendation: None,
        timestamp: now,
        ingested_at: now,
    }
}

// ─────────────────────────────────── laws ───────────────────────────────────

proof fn lemma_ws_acc_nonempty(s: Seq<char>)
    ensures
        forall|i: int|
            0 <= i < ws_split_acc(s).0.len() ==> #[trigger] ws_split_acc(s).0[i].len() > 0,
    decreases s.len(),
{
    if s.len() > 0 {
        lemma_ws_acc_nonempty(s.drop_last());
        let p = ws_split_acc(s.drop_last());
        if crate::text::is_ws(s.last()) && p.1.len() > 0 {
            assert(ws_split_acc(s).0 == p.0.push(p.1));
            assert forall|i: int| 0 <= i < ws_split_acc(s).0.len() implies #[trigger] ws_split_acc(s).0[i].len() > 0 by {
                if i < p.0.len() {
                    assert(ws_split_acc(s).0[i] == p.0[i]);
                }
            }
        } else {
            assert(ws_split_acc(s).0 == p.0);
        }
    }
}

/// Every word of a whitespace split is non-empty.
pub proof fn lemma_split_ws_words_nonempty(s: Seq<char>)
    ensures
        forall|i: int| 0 <= i < split_ws(s).len() ==> #[trigger] split_ws(s)[i].len() > 0,
{
    lemma_ws_acc_nonempty(s);
}

proof fn lemma_join_nonempty(p: Seq<Seq<char>>, sep: Seq<char>)
    requires
        p.len() > 0,
        p.last().len() > 0,
    ensures
        join(p, sep).len() > 0,
{
}

/// An RFC 3164 line (not in RFC 5424 form) with at least five words after
/// its header gives its fourth word as host name and the words after it,
/// joined by single spaces, as message, whatever address sent it.
pub proof fn law_rfc3164_fields(peer_ip: Seq<char>, raw: Seq<char>)
    requires
        !rfc5424_header(trim(raw)),
        split_ws(strip_pri(trim(raw))).len() >= 5,
    ensures
        syslog_fields(peer_ip, raw) == (
            split_ws(strip_pri(trim(raw)))[3],
            join(split_ws(strip_pri(trim(raw))).skip(4), seq![' ']),
        ),
{
    let parts = split_ws(strip_pri(trim(raw)));
    lemma_split_ws_words_nonempty(strip_pri(trim(raw)));
    assert(parts.skip(4).last() == parts[parts.len() - 1]);
    lemma_join_nonempty(parts.skip(4), seq![' ']);
}

/// A line of four words or fewer after its header, not in RFC 5424 form, is
/// kept whole, under the sender's address.
pub proof fn law_short_line_from_sender(peer_ip: Seq<char>, raw: Seq<char>)
    requires
        !rfc5424_header(trim(raw)),
        split_ws(strip_pri(trim(raw))).len() <= 4,
    ensures
        syslog_fields(peer_ip, raw) == (peer_ip, strip_pri(trim(raw))),
{
    let parts = split_ws(strip_pri(trim(raw)));
    if parts.len() == 4 {
        assert(parts.skip(4) =~= Seq::<Seq<char>>::empty());
    }
}

/// An RFC 5424 line with at least four fields after its header gives its
/// third field (HOSTNAME) as host name and the fields after it, joined by
/// single spaces, as message, whatever address sent it.
pub proof fn law_rfc5424_fields(peer_ip: Seq<char>, raw: Seq<char>)
    requires
        rfc5424_header(trim(raw)),
        split_ws(strip_pri(trim(raw))).len() >= 4,
    ensures
        syslog_fields(peer_ip, raw) == (
            split_ws(strip_pri(trim(raw)))[2],
            join(split_ws(strip_pri(trim(raw))).skip(3), seq![' ']),
        ),
{
    let parts = split_ws(strip_pri(trim(raw)));
    lemma_split_ws_words_nonempty(strip_pri(trim(raw)));
    assert(parts.skip(3).last() == parts[parts.len() - 1]);
    lemma_join_nonempty(parts.skip(3), seq![' ']);
}

} // verus!
