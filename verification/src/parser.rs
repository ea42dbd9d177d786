//! Drain-like structural parser: a log line is cut into literal text and
//! parameters (addresses, identifiers, hashes, dates, numbers, paths); the
//! literal text with a placeholder for each parameter is the line's template,
//! and templates are catalogued with their frequency and a classification.
use vstd::prelude::*;
use crate::patterns::{regex_find, regex_find_chars};
use crate::text::{contains, from_chars, has_lit, lowercase_of, occurs_at, to_chars, to_lower};

verus! {

/// Number of parameter patterns, tried in order.
pub const PARAM_PATTERN_COUNT: usize = 8;

/// The parameter patterns and their placeholders, in the order they are tried.
pub open spec fn param_pattern(k: int) -> (Seq<char>, Seq<char>) {
    if k == 0 {
        (r"\b\d{1,3}\.\d{1,3}\.\d{1,3}\.\d{1,3}\b"@, "<IP>"@)
    } else if k == 1 {
        (r"\b[0-9a-fA-F]{8}-[0-9a-fA-F]{4}-[0-9a-fA-F]{4}-[0-9a-fA-F]{4}-[0-9a-fA-F]{12}\b"@, "<UUID>"@)
    } else if k == 2 {
        (r"\b[0-9a-fA-F]{40,128}\b"@, "<HASH>"@)
    } else if k == 3 {
        (r"\b\d{4}-\d{2}-\d{2}T\d{2}:\d{2}:\d{2}(?:\.\d+)?(?:Z|[+-]\d{2}:\d{2})?"@, "<DATETIME>"@)
    } else if k == 4 {
        (r"\b\d{4}-\d{2}-\d{2}\b"@, "<DATE>"@)
    } else if k == 5 {
        (r"\b\d{2}:\d{2}:\d{2}\b"@, "<TIME>"@)
    } else if k == 6 {
        (r"\b\d+\b"@, "<NUM>"@)
    } else {
        (r"/[a-zA-Z0-9_\.\-]+(?:/[a-zA-Z0-9_\.\-]+)*"@, "<PATH>"@)
    }
}

fn param_pattern_exec(k: usize) -> (r: (&'static str, &'static str))
    requires
        k < PARAM_PATTERN_COUNT,
    ensures
        r.0@ == param_pattern(k as int).0,
        r.1@ == param_pattern(k as int).1,
{
    if k == 0 {
        (r"\b\d{1,3}\.\d{1,3}\.\d{1,3}\.\d{1,3}\b", "<IP>")
    } else if k == 1 {
        (r"\b[0-9a-fA-F]{8}-[0-9a-fA-F]{4}-[0-9a-fA-F]{4}-[0-9a-fA-F]{4}-[0-9a-fA-F]{12}\b", "<UUID>")
    } else if k == 2 {
        (r"\b[0-9a-fA-F]{40,128}\b", "<HASH>")
    } else if k == 3 {
        (r"\b\d{4}-\d{2}-\d{2}T\d{2}:\d{2}:\d{2}(?:\.\d+)?(?:Z|[+-]\d{2}:\d{2})?", "<DATETIME>")
    } else if k == 4 {
        (r"\b\d{4}-\d{2}-\d{2}\b", "<DATE>")
    } else if k == 5 {
        (r"\b\d{2}:\d{2}:\d{2}\b", "<TIME>")
    } else if k == 6 {
        (r"\b\d+\b", "<NUM>")
    } else {
        (r"/[a-zA-Z0-9_\.\-]+(?:/[a-zA-Z0-9_\.\-]+)*", "<PATH>")
    }
}

/// The earliest non-empty match among the patterns `k..8` in `msg`, given the
/// best found among the patterns before `k`; a later pattern wins only with a
/// strictly earlier start. Every placeholder pattern matches at least one
/// character, so only non-empty matches can advance the tokenizer.
pub open spec fn earliest_from(msg: Seq<char>, k: int, best: Option<(usize, usize, int)>) -> Option<
    (usize, usize, int),
>
    decreases 8 - k,
{
    if k >= 8 {
        best
    } else {
        let next = match regex_find_chars(param_pattern(k).0, msg) {
            Some((s, e)) => if s < e && e <= msg.len() && match best {
                Some((bs, _, _)) => s < bs,
                None => true,
            } {
                Some((s, e, k))
            } else {
                best
            },
            None => best,
        };
        earliest_from(msg, k + 1, next)
    }
}

/// The earliest parameter in `msg`: its start, its end and its pattern.
pub open spec fn earliest_param(msg: Seq<char>) -> Option<(usize, usize, int)> {
    earliest_from(msg, 0, None)
}

/// A piece of a log line: literal text, or a parameter with its placeholder
/// and the text it stands for.
pub enum TokenModel {
    Literal(Seq<char>),
    Param(Seq<char>, Seq<char>),
}

/// The pieces of `msg` before consecutive literals are merged.
pub open spec fn raw_tokens(msg: Seq<char>) -> Seq<TokenModel>
    decreases msg.len(),
{
    if msg.len() == 0 {
        Seq::<TokenModel>::empty()
    } else {
        match earliest_param(msg) {
            None => seq![TokenModel::Literal(msg)],
            Some((s, e, k)) => if s < e && e <= msg.len() {
                (if s > 0 {
                    seq![TokenModel::Literal(msg.take(s as int))]
                } else {
                    Seq::<TokenModel>::empty()
                }) + seq![TokenModel::Param(param_pattern(k).1, msg.subrange(s as int, e as int))]
                    + raw_tokens(msg.skip(e as int))
            } else {
                seq![TokenModel::Literal(msg)]
            },
        }
    }
}

/// Appends a piece to already merged pieces, merging it into the last one when
/// both are literal.
pub open spec fn merge_step(m: Seq<TokenModel>, t: TokenModel) -> Seq<TokenModel> {
    match t {
        TokenModel::Literal(cur) => if m.len() > 0 && m.last() is Literal {
            m.update(m.len() - 1, TokenModel::Literal(m.last()->Literal_0 + cur))
        } else {
            m.push(t)
        },
        TokenModel::Param(_, _) => m.push(t),
    }
}

/// The pieces with every run of consecutive literals merged into one.
pub open spec fn merge_literals(t: Seq<TokenModel>) -> Seq<TokenModel>
    decreases t.len(),
{
    if t.len() == 0 {
        t
    } else {
        merge_step(merge_literals(t.drop_last()), t.last())
    }
}

/// The pieces of a log line.
pub open spec fn tokens_of(msg: Seq<char>) -> Seq<TokenModel> {
    merge_literals(raw_tokens(msg))
}

/// The text a piece shows in a template: literal text, or a placeholder.
pub open spec fn template_piece(t: TokenModel) -> Seq<char> {
    match t {
        TokenModel::Literal(s) => s,
        TokenModel::Param(p, _) => p,
    }
}

/// The text a piece stood for in the parsed line.
pub open spec fn source_piece(t: TokenModel) -> Seq<char> {
    match t {
        TokenModel::Literal(s) => s,
        TokenModel::Param(_, v) => v,
    }
}

/// The concatenation of the template text of the pieces.
pub open spec fn template_text(t: Seq<TokenModel>) -> Seq<char>
    decreases t.len(),
{
    if t.len() == 0 {
        Seq::<char>::empty()
    } else {
        template_text(t.drop_last()) + template_piece(t.last())
    }
}

/// The concatenation of the source text of the pieces.
pub open spec fn source_text(t: Seq<TokenModel>) -> Seq<char>
    decreases t.len(),
{
    if t.len() == 0 {
        Seq::<char>::empty()
    } else {
        source_text(t.drop_last()) + source_piece(t.last())
    }
}

/// The values of the parameter pieces, in order.
pub open spec fn param_values(t: Seq<TokenModel>) -> Seq<Seq<char>>
    decreases t.len(),
{
    if t.len() == 0 {
        Seq::<Seq<char>>::empty()
    } else {
        match t.last() {
            TokenModel::Literal(_) => param_values(t.drop_last()),
            TokenModel::Param(_, v) => param_values(t.drop_last()).push(v),
        }
    }
}

/// The template of a log line.
pub open spec fn template_of(msg: Seq<char>) -> Seq<char> {
    template_text(tokens_of(msg))
}

/// The parameters of a log line, in order.
pub open spec fn params_of(msg: Seq<char>) -> Seq<Seq<char>> {
    param_values(tokens_of(msg))
}

// ─────────────────────────── structural lemmas ───────────────────────────

proof fn lemma_template_text_add(a: Seq<TokenModel>, b: Seq<TokenModel>)
    ensures
        template_text(a + b) == template_text(a) + template_text(b),
        source_text(a + b) == source_text(a) + source_text(b),
        param_values(a + b) == param_values(a) + param_values(b),
    decreases b.len(),
{
    if b.len() == 0 {
        assert(a + b =~= a);
        assert(template_text(a) + template_text(b) =~= template_text(a));
        assert(source_text(a) + source_text(b) =~= source_text(a));
        assert(param_values(a) + param_values(b) =~= param_values(a));
    } else {
        assert((a + b).drop_last() =~= a + b.drop_last());
        lemma_template_text_add(a, b.drop_last());
        assert(template_text(a + b) =~= template_text(a) + template_text(b));
        assert(source_text(a + b) =~= source_text(a) + source_text(b));
        assert(param_values(a + b) =~= param_values(a) + param_values(b));
    }
}

proof fn lemma_single(t: TokenModel)
    ensures
        source_text(seq![t]) == source_piece(t),
        template_text(seq![t]) == template_piece(t),
{
    let one = seq![t];
    assert(one.drop_last() =~= Seq::<TokenModel>::empty());
    assert(one.last() == t);
    assert(source_text(one) == source_text(one.drop_last()) + source_piece(one.last()));
    assert(template_text(one) == template_text(one.drop_last()) + template_piece(one.last()));
    assert(source_text(Seq::<TokenModel>::empty()) == Seq::<char>::empty());
    assert(template_text(Seq::<TokenModel>::empty()) == Seq::<char>::empty());
    assert(Seq::<char>::empty() + source_piece(t) =~= source_piece(t));
    assert(Seq::<char>::empty() + template_piece(t) =~= template_piece(t));
}

proof fn lemma_merge_push(p: Seq<TokenModel>, t: TokenModel)
    ensures
        merge_literals(p.push(t)) == merge_step(merge_literals(p), t),
{
    assert(p.push(t).drop_last() =~= p);
}

proof fn lemma_raw_tokens_source(msg: Seq<char>)
    ensures
        source_text(raw_tokens(msg)) == msg,
    decreases msg.len(),
{
    if msg.len() == 0 {
    } else {
        match earliest_param(msg) {
            None => {
                lemma_single(TokenModel::Literal(msg));
            },
            Some((s, e, k)) => {
                if s < e && e <= msg.len() {
                    let pre = if s > 0 {
                        seq![TokenModel::Literal(msg.take(s as int))]
                    } else {
                        Seq::<TokenModel>::empty()
                    };
                    let mid = seq![TokenModel::Param(param_pattern(k).1, msg.subrange(s as int, e as int))];
                    lemma_raw_tokens_source(msg.skip(e as int));
                    lemma_template_text_add(pre + mid, raw_tokens(msg.skip(e as int)));
                    lemma_template_text_add(pre, mid);
                    if s > 0 {
                        lemma_single(TokenModel::Literal(msg.take(s as int)));
                    }
                    assert(source_text(pre) =~= msg.take(s as int));
                    lemma_single(TokenModel::Param(param_pattern(k).1, msg.subrange(s as int, e as int)));
                    assert(msg =~= msg.take(s as int) + msg.subrange(s as int, e as int) + msg.skip(
                        e as int,
                    ));
                } else {
                    lemma_single(TokenModel::Literal(msg));
                }
            },
        }
    }
}

proof fn lemma_merge_preserves(t: Seq<TokenModel>)
    ensures
        source_text(merge_literals(t)) == source_text(t),
        template_text(merge_literals(t)) == template_text(t),
        param_values(merge_literals(t)) == param_values(t),
    decreases t.len(),
{
    if t.len() > 0 {
        lemma_merge_preserves(t.drop_last());
        let m = merge_literals(t.drop_last());
        match t.last() {
            TokenModel::Literal(cur) => {
                if m.len() > 0 && m.last() is Literal {
                    let m2 = m.update(m.len() - 1, TokenModel::Literal(m.last()->Literal_0 + cur));
                    assert(m2.drop_last() =~= m.drop_last());
                    assert(source_text(m2) =~= source_text(t));
                    assert(template_text(m2) =~= template_text(t));
                    assert(param_values(m2) =~= param_values(t));
                } else {
                    assert(m.push(t.last()).drop_last() =~= m);
                }
            },
            TokenModel::Param(_, _) => {
                assert(m.push(t.last()).drop_last() =~= m);
            },
        }
    }
}

/// The pieces of a line, with each parameter put back in place of its
/// placeholder, give the line back: parsing loses no text.
pub proof fn law_tokens_reconstruct(msg: Seq<char>)
    ensures
        source_text(tokens_of(msg)) == msg,
{
    lemma_raw_tokens_source(msg);
    lemma_merge_preserves(raw_tokens(msg));
}

/// Every piece carries text: a literal is not empty, nor is a parameter's
/// value.
pub open spec fn pieces_nonempty(t: Seq<TokenModel>) -> bool {
    forall|i: int| 0 <= i < t.len() ==> #[trigger] source_piece(t[i]).len() > 0
}

/// No two literals stand next to each other.
pub open spec fn literals_apart(t: Seq<TokenModel>) -> bool {
    forall|i: int| 0 <= i < t.len() - 1 ==> !(#[trigger] t[i] is Literal && t[i + 1] is Literal)
}

proof fn lemma_raw_tokens_nonempty(msg: Seq<char>)
    ensures
        pieces_nonempty(raw_tokens(msg)),
    decreases msg.len(),
{
    if msg.len() > 0 {
        match earliest_param(msg) {
            None => {},
            Some((s, e, k)) => {
                if s < e && e <= msg.len() {
                    lemma_raw_tokens_nonempty(msg.skip(e as int));
                    let pre = if s > 0 {
                        seq![TokenModel::Literal(msg.take(s as int))]
                    } else {
                        Seq::<TokenModel>::empty()
                    };
                    let mid = seq![TokenModel::Param(param_pattern(k).1, msg.subrange(s as int, e as int))];
                    let rest = raw_tokens(msg.skip(e as int));
                    let all = pre + mid + rest;
                    assert forall|i: int| 0 <= i < all.len() implies #[trigger] source_piece(all[i]).len() > 0 by {
                        if i >= pre.len() + 1 {
                            assert(all[i] == rest[i - pre.len() - 1]);
                        } else if i == pre.len() {
                            assert(all[i] == mid[0]);
                        } else {
                            assert(all[i] == pre[i]);
                        }
                    }
                }
            },
        }
    }
}

proof fn lemma_merge_shape(t: Seq<TokenModel>)
    requires
        pieces_nonempty(t),
    ensures
        pieces_nonempty(merge_literals(t)),
        literals_apart(merge_literals(t)),
    decreases t.len(),
{
    if t.len() > 0 {
        let p = t.drop_last();
        assert(pieces_nonempty(p)) by {
            assert forall|i: int| 0 <= i < p.len() implies #[trigger] source_piece(p[i]).len() > 0 by {
                assert(p[i] == t[i]);
            }
        }
        lemma_merge_shape(p);
        let m = merge_literals(p);
        assert(source_piece(t[t.len() - 1]).len() > 0);
        match t.last() {
            TokenModel::Literal(cur) => {
                if m.len() > 0 && m.last() is Literal {
                    let m2 = m.update(m.len() - 1, TokenModel::Literal(m.last()->Literal_0 + cur));
                    assert(source_piece(m[m.len() - 1]).len() > 0);
                    assert forall|i: int| 0 <= i < m2.len() implies #[trigger] source_piece(m2[i]).len() > 0 by {
                        if i < m.len() - 1 {
                            assert(m2[i] == m[i]);
                        }
                    }
                    assert forall|i: int| 0 <= i < m2.len() - 1 implies !(#[trigger] m2[i] is Literal && m2[i + 1] is Literal) by {
                        assert(m2[i] == m[i]);
                        if i + 1 < m.len() - 1 {
                            assert(m2[i + 1] == m[i + 1]);
                        } else {
                            assert(!(m[i] is Literal && m[i + 1] is Literal));
                        }
                    }
                } else {
                    let m2 = m.push(t.last());
                    assert forall|i: int| 0 <= i < m2.len() implies #[trigger] source_piece(m2[i]).len() > 0 by {
                        if i < m.len() {
                            assert(m2[i] == m[i]);
                        }
                    }
                    assert forall|i: int| 0 <= i < m2.len() - 1 implies !(#[trigger] m2[i] is Literal && m2[i + 1] is Literal) by {
                        assert(m2[i] == m[i]);
                        if i + 1 < m.len() {
                            assert(m2[i + 1] == m[i + 1]);
                        }
                    }
                }
            },
            TokenModel::Param(_, _) => {
                let m2 = m.push(t.last());
                assert forall|i: int| 0 <= i < m2.len() implies #[trigger] source_piece(m2[i]).len() > 0 by {
                    if i < m.len() {
                        assert(m2[i] == m[i]);
                    }
                }
                assert forall|i: int| 0 <= i < m2.len() - 1 implies !(#[trigger] m2[i] is Literal && m2[i + 1] is Literal) by {
                    assert(m2[i] == m[i]);
                    if i + 1 < m.len() {
                        assert(m2[i + 1] == m[i + 1]);
                    }
                }
            },
        }
    }
}

proof fn lemma_param_values_nonempty(t: Seq<TokenModel>)
    requires
        pieces_nonempty(t),
    ensures
        forall|k: int| 0 <= k < param_values(t).len() ==> #[trigger] param_values(t)[k].len() > 0,
    decreases t.len(),
{
    if t.len() > 0 {
        let p = t.drop_last();
        assert forall|i: int| 0 <= i < p.len() implies #[trigger] source_piece(p[i]).len() > 0 by {
            assert(p[i] == t[i]);
        }
        lemma_param_values_nonempty(p);
        assert(source_piece(t[t.len() - 1]).len() > 0);
        let pv = param_values(t);
        assert forall|k: int| 0 <= k < pv.len() implies #[trigger] pv[k].len() > 0 by {
            match t.last() {
                TokenModel::Literal(_) => {
                    assert(pv[k] == param_values(p)[k]);
                },
                TokenModel::Param(_, v) => {
                    if k < param_values(p).len() {
                        assert(pv[k] == param_values(p)[k]);
                    } else {
                        assert(pv[k] == v);
                    }
                },
            }
        }
    }
}

/// The pieces of a line are never empty and no two literals stand next to
/// each other; every parameter taken from the line is non-empty text.
pub proof fn law_tokens_well_formed(msg: Seq<char>)
    ensures
        pieces_nonempty(tokens_of(msg)),
        literals_apart(tokens_of(msg)),
        forall|k: int| 0 <= k < params_of(msg).len() ==> #[trigger] params_of(msg)[k].len() > 0,
{
    lemma_raw_tokens_nonempty(msg);
    lemma_merge_shape(raw_tokens(msg));
    lemma_param_values_nonempty(tokens_of(msg));
}

// ─────────────────────────── executable tokenizer ───────────────────────────

/// A piece of a log line.
pub enum Token {
    Literal(Vec<char>),
    Param { placeholder: Vec<char>, raw_value: Vec<char> },
}

/// The model of a piece.
pub open spec fn token_view(t: Token) -> TokenModel {
    match t {
        Token::Literal(s) => TokenModel::Literal(s@),
        Token::Param { placeholder, raw_value } => TokenModel::Param(placeholder@, raw_value@),
    }
}

/// The models of a list of pieces.
pub open spec fn tokens_view(t: Seq<Token>) -> Seq<TokenModel> {
    t.map_values(|x: Token| token_view(x))
}

fn sub_chars(v: &[char], i: usize, j: usize) -> (r: Vec<char>)
    requires
        i <= j <= v.len(),
    ensures
        r@ == v@.subrange(i as int, j as int),
{
    let mut r: Vec<char> = Vec::new();
    let mut k: usize = i;
    while k < j
        invariant
            i <= k <= j <= v.len(),
            r@ == v@.subrange(i as int, k as int),
        decreases j - k,
    {
        r.push(v[k]);
        k = k + 1;
        assert(r@ =~= v@.subrange(i as int, k as int));
    }
    r
}

fn earliest_param_exec(rem: &str) -> (r: Option<(usize, usize, usize)>)
    ensures
        match r {
            Some((s, e, k)) => earliest_param(rem@) == Some((s, e, k as int)) && k < 8,
            None => earliest_param(rem@) is None,
        },
{
    let mut best: Option<(usize, usize, usize)> = None;
    let mut k: usize = 0;
    while k < PARAM_PATTERN_COUNT
        invariant
            k <= 8,
            earliest_param(rem@) == earliest_from(
                rem@,
                k as int,
                match best {
                    Some((s, e, kk)) => Some((s, e, kk as int)),
                    None => None,
                },
            ),
            best matches Some((s, e, kk)) ==> kk < 8,
        decreases 8 - k,
    {
        let (pat, _ph) = param_pattern_exec(k);
        let found = regex_find(pat, rem);
        match found {
            Some((s, e)) => {
                let better = match best {
                    None => true,
                    Some((bs, _, _)) => s < bs,
                };
                if s < e && better {
                    best = Some((s, e, k));
                }
            },
            None => {},
        }
        k = k + 1;
    }
    best
}

fn push_merged(result: &mut Vec<Token>, tok: Token)
    ensures
        tokens_view(final(result)@) == merge_step(tokens_view(old(result)@), token_view(tok)),
{
    let ghost m = tokens_view(result@);
    match tok {
        Token::Literal(cur) => {
            let n = result.len();
            let last_is_lit = n > 0 && match &result[n - 1] {
                Token::Literal(_) => true,
                _ => false,
            };
            if last_is_lit {
                let last = result.pop().unwrap();
                match last {
                    Token::Literal(mut prev) => {
                        crate::text::append_chars(&mut prev, cur.as_slice());
                        result.push(Token::Literal(prev));
                    },
                    Token::Param { placeholder, raw_value } => {
                        result.push(Token::Param { placeholder, raw_value });
                    },
                }
                assert(tokens_view(result@) =~= m.update(
                    m.len() - 1,
                    TokenModel::Literal(m.last()->Literal_0 + cur@),
                ));
            } else {
                result.push(Token::Literal(cur));
                assert(tokens_view(result@) =~= m.push(TokenModel::Literal(cur@)));
            }
        },
        Token::Param { placeholder, raw_value } => {
            result.push(Token::Param { placeholder, raw_value });
            assert(tokens_view(result@) =~= m.push(TokenModel::Param(placeholder@, raw_value@)));
        },
    }
}


/// A match kept by `earliest_from` is non-empty and lies inside the line.
proof fn earliest_bounds(msg: Seq<char>, k: int, best: Option<(usize, usize, int)>)
    requires
        k >= 0,
        best matches Some((s, e, kk)) ==> s < e && e <= msg.len() && 0 <= kk < 8,
    ensures
        earliest_from(msg, k, best) matches Some((s, e, kk)) ==> s < e && e <= msg.len() && 0 <= kk
            < 8,
    decreases 8 - k,
{
    if k < 8 {
        let next = match regex_find_chars(param_pattern(k).0, msg) {
            Some((s, e)) => if s < e && e <= msg.len() && match best {
                Some((bs, _, _)) => s < bs,
                None => true,
            } {
                Some((s, e, k))
            } else {
                best
            },
            None => best,
        };
        earliest_bounds(msg, k + 1, next);
    }
}

} // verus!

verus! {

// ───────────────────────────── classification ─────────────────────────────

/// The structural class of a template.
#[derive(Clone, Copy, Debug, PartialEq, Eq, Structural)]
pub enum TemplateClass {
    CriticalThreat,
    WarningAnomaly,
    StandardOperational,
}

/// The class of a template, read from its lower-case text: leak and
/// exfiltration markers, and `sudo` with a dangerous command, are critical;
/// authentication failures, crashes and denials are warnings.
pub open spec fn spec_classify(template: Seq<char>) -> TemplateClass {
    let t = lowercase_of(template);
    if contains(t, "exfiltration"@) || contains(t, "data_leak"@) || contains(t, "dump.csv"@)
        || contains(t, "customer records"@) || contains(t, "export <NUM>"@) || (contains(t, "sudo"@)
        && (contains(t, "chmod 777"@) || contains(t, "/bin/bash"@) || contains(t, "/etc/shadow"@))) {
        TemplateClass::CriticalThreat
    } else if contains(t, "failed password"@) || contains(t, "authentication failure"@) || contains(
        t,
        "out of memory"@,
    ) || contains(t, "status=500"@) || contains(t, "segfault"@) || contains(t, "panic"@)
        || contains(t, "denied"@) {
        TemplateClass::WarningAnomaly
    } else {
        TemplateClass::StandardOperational
    }
}


// ─────────────────────────────── catalogue ───────────────────────────────

/// A catalogued template.
#[derive(Debug)]
pub struct TemplateInfo {
    pub id: u64,
    pub template: String,
    pub count: u64,
    pub classification: TemplateClass,
    pub is_new: bool,
}

/// The model of a catalogued template.
pub struct TemplateEntry {
    pub template: Seq<char>,
    pub id: u64,
    pub count: u64,
    pub class: TemplateClass,
}

/// The model of a catalogued template.
pub open spec fn entry_of(t: TemplateInfo) -> TemplateEntry {
    TemplateEntry { template: t.template@, id: t.id, count: t.count, class: t.classification }
}

/// The number of templates a catalogue of capacity `cap` can hold.
pub open spec fn room(cap: nat) -> nat {
    if cap == 0 {
        1
    } else {
        cap
    }
}

/// No template is catalogued twice.
pub open spec fn distinct_templates(es: Seq<TemplateEntry>) -> bool {
    forall|i: int, j: int|
        0 <= i < es.len() && 0 <= j < es.len() && i != j ==> es[i].template != es[j].template
}

/// A well-formed catalogue: distinct templates, no more than it has room for.
pub open spec fn catalogue_wf(es: Seq<TemplateEntry>, cap: nat) -> bool {
    distinct_templates(es) && es.len() <= room(cap)
}

/// `es1` is `es` after making room for a new template: when `es` is full, one
/// template with the lowest count has left.
pub open spec fn evicted(es: Seq<TemplateEntry>, cap: nat, es1: Seq<TemplateEntry>) -> bool {
    if es.len() >= cap && es.len() > 0 {
        exists|j: int|
            0 <= j < es.len() && (forall|k: int| 0 <= k < es.len() ==> es[j].count <= #[trigger] es[k].count)
                && es1 == es.remove(j)
    } else {
        es1 == es
    }
}

/// A count increased by one, saturating.
pub open spec fn bump(c: u64) -> u64 {
    if c < u64::MAX {
        (c + 1) as u64
    } else {
        c
    }
}

/// The catalogue `es2` and the answer `r` = (id, class, new) after template `t`
/// was looked up in `es`: a known template has its count increased and keeps
/// its id and class; an unknown one is classified and added, with the id one
/// more than the number of templates left after making room.
pub open spec fn registered(
    es: Seq<TemplateEntry>,
    cap: nat,
    t: Seq<char>,
    r: (u64, TemplateClass, bool),
    es2: Seq<TemplateEntry>,
) -> bool {
    if exists|i: int| 0 <= i < es.len() && es[i].template == t {
        exists|i: int|
            0 <= i < es.len() && es[i].template == t && r == (es[i].id, es[i].class, false) && es2
                == es.update(
                i,
                TemplateEntry { count: bump(es[i].count), ..es[i] },
            )
    } else {
        exists|es1: Seq<TemplateEntry>|
            evicted(es, cap, es1) && r == ((es1.len() + 1) as u64, spec_classify(t), true) && es2
                == es1.push(
                TemplateEntry {
                    template: t,
                    id: (es1.len() + 1) as u64,
                    count: 1,
                    class: spec_classify(t),
                },
            )
    }
}

/// The result of parsing one log line.
#[derive(Debug)]
pub struct ParsedResult {
    pub template: String,
    pub template_id: u64,
    pub parameters: Vec<String>,
    pub cleaned_log: String,
    pub classification: TemplateClass,
    pub is_new: bool,
}

/// A catalogue of log templates with a capacity; when full, a least frequent
/// template makes room for a new one.
pub struct LogParser {
    templates: Vec<TemplateInfo>,
    max_templates: usize,
}

impl LogParser {
    /// The catalogued templates.
    pub closed spec fn entries(&self) -> Seq<TemplateEntry> {
        self.templates@.map_values(|t: TemplateInfo| entry_of(t))
    }

    /// The capacity the catalogue was made with.
    pub closed spec fn capacity(&self) -> nat {
        self.max_templates as nat
    }

    /// The catalogue is well formed.
    pub open spec fn wf(&self) -> bool {
        catalogue_wf(self.entries(), self.capacity())
    }

    /// An empty catalogue with room for `max_templates` templates.
    pub fn new(max_templates: usize) -> (r: LogParser)
        ensures
            r.wf(),
            r.entries().len() == 0,
            r.capacity() == max_templates,
    {
        let r = LogParser { templates: Vec::new(), max_templates };
        assert(r.entries() =~= Seq::<TemplateEntry>::empty());
        r
    }

    /// The pieces of a log line.
    pub fn tokenize(message: &str) -> (r: Vec<Token>)
        ensures
            tokens_view(r@) == tokens_of(message@),
    {
        let mut result: Vec<Token> = Vec::new();
        let ghost mut pushed: Seq<TokenModel> = Seq::empty();
        let mut remaining: Vec<char> = to_chars(message);
        while remaining.len() > 0
            invariant
                pushed + raw_tokens(remaining@) == raw_tokens(message@),
                tokens_view(result@) == merge_literals(pushed),
            decreases remaining@.len(),
        {
            let rem_str = from_chars(remaining.as_slice());
            let ghost rem = remaining@;
            let ghost p0 = pushed;
            match earliest_param_exec(rem_str.as_str()) {
                Some((s, e, k)) => {
                    assert(s < e && e <= rem.len()) by {
                        earliest_bounds(rem, 0, None);
                    }
                    let (_pat, ph) = param_pattern_exec(k);
                    if s > 0 {
                        let lit = sub_chars(remaining.as_slice(), 0, s);
                        proof {
                            lemma_merge_push(pushed, TokenModel::Literal(lit@));
                            pushed = pushed.push(TokenModel::Literal(lit@));
                        }
                        push_merged(&mut result, Token::Literal(lit));
                    }
                    let raw_val = sub_chars(remaining.as_slice(), s, e);
                    let tok = Token::Param { placeholder: to_chars(ph), raw_value: raw_val };
                    proof {
                        lemma_merge_push(pushed, token_view(tok));
                        pushed = pushed.push(token_view(tok));
                    }
                    push_merged(&mut result, tok);
                    let next = sub_chars(remaining.as_slice(), e, remaining.len());
                    assert(pushed =~= p0 + (if s > 0 {
                        seq![TokenModel::Literal(rem.take(s as int))]
                    } else {
                        Seq::<TokenModel>::empty()
                    }) + seq![TokenModel::Param(param_pattern(k as int).1, rem.subrange(s as int, e as int))]);
                    assert(rem.subrange(0, s as int) =~= rem.take(s as int));
                    assert(next@ =~= rem.skip(e as int));
                    remaining = next;
                },
                None => {
                    let tok = Token::Literal(remaining);
                    proof {
                        lemma_merge_push(pushed, token_view(tok));
                        pushed = pushed.push(token_view(tok));
                    }
                    push_merged(&mut result, tok);
                    remaining = Vec::new();
                    assert(pushed =~= p0 + seq![TokenModel::Literal(rem)]);
                },
            }
        }
        assert(pushed + raw_tokens(remaining@) =~= pushed);
        result
    }

    /// The template of a line from its pieces: literal text as it is, each
    /// parameter by its placeholder.
    pub fn build_template_string(tokens: &[Token]) -> (r: String)
        ensures
            r@ == template_text(tokens_view(tokens@)),
    {
        let ghost tv = tokens_view(tokens@);
        let mut tpl: Vec<char> = Vec::new();
        let mut i: usize = 0;
        while i < tokens.len()
            invariant
                i <= tokens@.len(),
                tv == tokens_view(tokens@),
                tpl@ == template_text(tv.take(i as int)),
            decreases tokens@.len() - i,
        {
            assert(tv.take(i + 1).drop_last() =~= tv.take(i as int));
            assert(tv.take(i + 1).last() == token_view(tokens@[i as int]));
            match &tokens[i] {
                Token::Literal(s) => {
                    crate::text::append_chars(&mut tpl, s.as_slice());
                },
                Token::Param { placeholder, .. } => {
                    crate::text::append_chars(&mut tpl, placeholder.as_slice());
                },
            }
            i = i + 1;
        }
        assert(tv.take(tokens@.len() as int) =~= tv);
        from_chars(tpl.as_slice())
    }

    fn parameter_values(tokens: &[Token]) -> (r: Vec<String>)
        ensures
            crate::text::views(r@) == param_values(tokens_view(tokens@)),
    {
        let ghost tv = tokens_view(tokens@);
        let mut params: Vec<String> = Vec::new();
        let mut i: usize = 0;
        while i < tokens.len()
            invariant
                i <= tokens@.len(),
                tv == tokens_view(tokens@),
                crate::text::views(params@) == param_values(tv.take(i as int)),
            decreases tokens@.len() - i,
        {
            assert(tv.take(i + 1).drop_last() =~= tv.take(i as int));
            assert(tv.take(i + 1).last() == token_view(tokens@[i as int]));
            match &tokens[i] {
                Token::Literal(_) => {},
                Token::Param { raw_value, .. } => {
                    let ghost pv = crate::text::views(params@);
                    params.push(from_chars(raw_value.as_slice()));
                    assert(crate::text::views(params@) =~= pv.push(raw_value@));
                },
            }
            i = i + 1;
        }
        assert(tv.take(tokens@.len() as int) =~= tv);
        params
    }

    /// Classifies a template by its content.
    pub fn classify_template_content(template: &str) -> (r: TemplateClass)
        ensures
            r == spec_classify(template@),
            !contains(lowercase_of(template@), "export <NUM>"@),
    {
        let lower = to_lower(template);
        proof {
            reveal_strlit("export <NUM>");
            if contains(lower@, "export <NUM>"@) {
                let i = choose|i: int| occurs_at(lower@, "export <NUM>"@, i);
                assert(lower@.subrange(i, i + 12)[8] == "export <NUM>"@[8]);
                assert(lower@[i + 8] == 'N');
            }
        }
        let t = to_chars(lower.as_str());
        let t = t.as_slice();
        if has_lit(t, "exfiltration") || has_lit(t, "data_leak") || has_lit(t, "dump.csv") || has_lit(
            t,
            "customer records",
        ) || has_lit(t, "export <NUM>") || (has_lit(t, "sudo") && (has_lit(t, "chmod 777") || has_lit(
            t,
            "/bin/bash",
        ) || has_lit(t, "/etc/shadow"))) {
            TemplateClass::CriticalThreat
        } else if has_lit(t, "failed password") || has_lit(t, "authentication failure") || has_lit(
            t,
            "out of memory",
        ) || has_lit(t, "status=500") || has_lit(t, "segfault") || has_lit(t, "panic") || has_lit(
            t,
            "denied",
        ) {
            TemplateClass::WarningAnomaly
        } else {
            TemplateClass::StandardOperational
        }
    }

    /// The number of catalogued templates.
    pub fn template_count(&self) -> (r: usize)
        ensures
            r == self.entries().len(),
    {
        self.templates.len()
    }

    fn find_template(&self, template: &str) -> (r: Option<usize>)
        ensures
            match r {
                Some(i) => i < self.entries().len() && self.entries()[i as int].template == template@,
                None => forall|i: int|
                    0 <= i < self.entries().len() ==> self.entries()[i].template != template@,
            },
    {
        let mut i: usize = 0;
        while i < self.templates.len()
            invariant
                i <= self.templates@.len(),
                forall|k: int| 0 <= k < i ==> self.entries()[k].template != template@,
            decreases self.templates@.len() - i,
        {
            if crate::text::str_eq(self.templates[i].template.as_str(), template) {
                return Some(i);
            }
            i = i + 1;
        }
        None
    }

    fn least_used(&self) -> (r: usize)
        requires
            self.templates@.len() > 0,
        ensures
            r < self.entries().len(),
            forall|k: int|
                0 <= k < self.entries().len() ==> self.entries()[r as int].count <= #[trigger] self.entries()[k].count,
    {
        let mut best: usize = 0;
        let mut i: usize = 1;
        while i < self.templates.len()
            invariant
                1 <= i <= self.templates@.len(),
                best < i,
                forall|k: int| 0 <= k < i ==> self.entries()[best as int].count <= #[trigger] self.entries()[k].count,
            decreases self.templates@.len() - i,
        {
            if self.templates[i].count < self.templates[best].count {
                best = i;
            }
            i = i + 1;
        }
        best
    }

    /// Looks a template up in the catalogue, counting one more occurrence, or
    /// registers it (making room first when the catalogue is full): its id,
    /// its class, and whether it is new.
    pub fn get_or_register_template(&mut self, template: &str) -> (r: (u64, TemplateClass, bool))
        requires
            old(self).wf(),
        ensures
            final(self).wf(),
            final(self).capacity() == old(self).capacity(),
            registered(old(self).entries(), old(self).capacity(), template@, r, final(self).entries()),
    {
        let ghost es = self.entries();
        match self.find_template(template) {
            Some(i) => {
                let id = self.templates[i].id;
                let class = self.templates[i].classification;
                let count = self.templates[i].count;
                let new_count = if count < u64::MAX {
                    count + 1
                } else {
                    count
                };
                let info = TemplateInfo {
                    id,
                    template: self.templates[i].template.clone(),
                    count: new_count,
                    classification: class,
                    is_new: self.templates[i].is_new,
                };
                self.templates.set(i, info);
                assert(self.entries() =~= es.update(
                    i as int,
                    TemplateEntry { count: bump(es[i as int].count), ..es[i as int] },
                ));
                assert(distinct_templates(self.entries()));
                (id, class, false)
            },
            None => {
                if self.templates.len() >= self.max_templates && self.templates.len() > 0 {
                    let j = self.least_used();
                    let _removed = self.templates.remove(j);
                    assert(self.entries() =~= es.remove(j as int));
                } else {
                    assert(self.entries() =~= es);
                }
                let ghost es1 = self.entries();
                assert(evicted(es, self.max_templates as nat, es1));
                let id = (self.templates.len() + 1) as u64;
                let classification = Self::classify_template_content(template);
                let info = TemplateInfo {
                    id,
                    template: crate::text::owned(template),
                    count: 1,
                    classification,
                    is_new: true,
                };
                self.templates.push(info);
                assert(self.entries() =~= es1.push(
                    TemplateEntry { template: template@, id, count: 1, class: classification },
                ));
                assert(distinct_templates(self.entries()));
                (id, classification, true)
            },
        }
    }

    /// Extracts the template of a log line and records it in the catalogue.
    pub fn parse(&mut self, raw_message: &str) -> (r: ParsedResult)
        requires
            old(self).wf(),
        ensures
            final(self).wf(),
            final(self).capacity() == old(self).capacity(),
            r.template@ == template_of(raw_message@),
            r.cleaned_log@ == template_of(raw_message@),
            crate::text::views(r.parameters@) == params_of(raw_message@),
            registered(
                old(self).entries(),
                old(self).capacity(),
                template_of(raw_message@),
                (r.template_id, r.classification, r.is_new),
                final(self).entries(),
            ),
    {
        let tokens = Self::tokenize(raw_message);
        let template = Self::build_template_string(tokens.as_slice());
        let params = Self::parameter_values(tokens.as_slice());
        let cleaned_log = template.clone();
        let (template_id, classification, is_new) = self.get_or_register_template(template.as_str());
        ParsedResult { template, template_id, parameters: params, cleaned_log, classification, is_new }
    }
}

/// A template that has just been looked up is known the next time: it comes
/// back with the same id and class and is no longer new.
pub proof fn law_template_recognised(
    es0: Seq<TemplateEntry>,
    cap: nat,
    t: Seq<char>,
    r1: (u64, TemplateClass, bool),
    es1: Seq<TemplateEntry>,
    r2: (u64, TemplateClass, bool),
    es2: Seq<TemplateEntry>,
)
    requires
        catalogue_wf(es0, cap),
        registered(es0, cap, t, r1, es1),
        registered(es1, cap, t, r2, es2),
    ensures
        r2.0 == r1.0,
        r2.1 == r1.1,
        !r2.2,
{
    if exists|i: int| 0 <= i < es0.len() && es0[i].template == t {
        let i = choose|i: int|
            0 <= i < es0.len() && es0[i].template == t && r1 == (es0[i].id, es0[i].class, false) && es1
                == es0.update(i, TemplateEntry { count: bump(es0[i].count), ..es0[i] });
        assert(es1[i].template == t);
        let i2 = choose|i2: int|
            0 <= i2 < es1.len() && es1[i2].template == t && r2 == (es1[i2].id, es1[i2].class, false)
                && es2 == es1.update(i2, TemplateEntry { count: bump(es1[i2].count), ..es1[i2] });
        if i2 != i {
            assert(es0[i2].template == t);
        }
    } else {
        let e1 = choose|e1: Seq<TemplateEntry>|
            evicted(es0, cap, e1) && r1 == ((e1.len() + 1) as u64, spec_classify(t), true) && es1
                == e1.push(
                TemplateEntry {
                    template: t,
                    id: (e1.len() + 1) as u64,
                    count: 1,
                    class: spec_classify(t),
                },
            );
        let last = e1.len() as int;
        assert(es1[last].template == t);
        assert(exists|i: int| 0 <= i < es1.len() && es1[i].template == t);
        let i2 = choose|i2: int|
            0 <= i2 < es1.len() && es1[i2].template == t && r2 == (es1[i2].id, es1[i2].class, false)
                && es2 == es1.update(i2, TemplateEntry { count: bump(es1[i2].count), ..es1[i2] });
        if i2 != last {
            // every template of e1 came from es0, where t does not occur
            if es0.len() >= cap && es0.len() > 0 {
                let j = choose|j: int|
                    0 <= j < es0.len() && (forall|k: int|
                        0 <= k < es0.len() ==> es0[j].count <= #[trigger] es0[k].count) && e1
                        == es0.remove(j);
                if i2 < j {
                    assert(es0[i2].template == t);
                } else {
                    assert(es0[i2 + 1].template == t);
                }
            } else {
                assert(es0[i2].template == t);
            }
        }
    }
}

/// Below capacity nothing is evicted: a lookup keeps every catalogued
/// template where it was, and the catalogue grows by one exactly when the
/// template is new.
pub proof fn law_no_eviction_below_capacity(
    es: Seq<TemplateEntry>,
    cap: nat,
    t: Seq<char>,
    r: (u64, TemplateClass, bool),
    es2: Seq<TemplateEntry>,
)
    requires
        es.len() < cap,
        registered(es, cap, t, r, es2),
    ensures
        es2.len() == es.len() + if r.2 {
            1int
        } else {
            0int
        },
        forall|i: int| 0 <= i < es.len() ==> (#[trigger] es2[i]).template == es[i].template,
{
    if exists|i: int| 0 <= i < es.len() && es[i].template == t {
        let i = choose|i: int|
            0 <= i < es.len() && es[i].template == t && r == (es[i].id, es[i].class, false) && es2
                == es.update(i, TemplateEntry { count: bump(es[i].count), ..es[i] });
        assert(es2.len() == es.len());
    } else {
        let e1 = choose|e1: Seq<TemplateEntry>|
            evicted(es, cap, e1) && r == ((e1.len() + 1) as u64, spec_classify(t), true) && es2
                == e1.push(
                TemplateEntry { template: t, id: (e1.len() + 1) as u64, count: 1, class: spec_classify(t) },
            );
        assert(e1 == es);
    }
}

/// The classes of templates by their markers, in the lower-case template: an
/// exfiltration or leak marker (exfiltration, data_leak, dump.csv, customer
/// records, export <NUM>), or sudo with chmod 777, /bin/bash or /etc/shadow, makes it a
/// critical threat; otherwise a failure marker (failed password,
/// authentication failure, out of memory, status=500, segfault, panic,
/// denied) makes it a warning; a template with none of them is operational.
pub proof fn law_template_markers(template: Seq<char>)
    ensures
        ({
            let t = lowercase_of(template);
            let critical = contains(t, "exfiltration"@) || contains(t, "data_leak"@) || contains(
                t,
                "dump.csv"@,
            ) || contains(t, "customer records"@) || contains(t, "export <NUM>"@) || (contains(
                t,
                "sudo"@,
            ) && (contains(t, "chmod 777"@) || contains(t, "/bin/bash"@) || contains(
                t,
                "/etc/shadow"@,
            )));
            let warning = contains(t, "failed password"@) || contains(t, "authentication failure"@)
                || contains(t, "out of memory"@) || contains(t, "status=500"@) || contains(
                t,
                "segfault"@,
            ) || contains(t, "panic"@) || contains(t, "denied"@);
            &&& critical ==> spec_classify(template) == TemplateClass::CriticalThreat
            &&& (!critical && warning) ==> spec_classify(template) == TemplateClass::WarningAnomaly
            &&& (!critical && !warning) ==> spec_classify(template) == TemplateClass::StandardOperational
        }),
{
}

/// The catalogue never holds more templates than it has room for.
pub proof fn law_catalogue_bounded(
    es0: Seq<TemplateEntry>,
    cap: nat,
    t: Seq<char>,
    r: (u64, TemplateClass, bool),
    es1: Seq<TemplateEntry>,
)
    requires
        catalogue_wf(es0, cap),
        registered(es0, cap, t, r, es1),
    ensures
        es1.len() <= room(cap),
{
    if exists|i: int| 0 <= i < es0.len() && es0[i].template == t {
    } else {
        let e1 = choose|e1: Seq<TemplateEntry>|
            evicted(es0, cap, e1) && r == ((e1.len() + 1) as u64, spec_classify(t), true) && es1
                == e1.push(
                TemplateEntry {
                    template: t,
                    id: (e1.len() + 1) as u64,
                    count: 1,
                    class: spec_classify(t),
                },
            );
        if es0.len() >= cap && es0.len() > 0 {
            let j = choose|j: int|
                0 <= j < es0.len() && (forall|k: int| 0 <= k < es0.len() ==> es0[j].count <= #[trigger] es0[k].count)
                    && e1 == es0.remove(j);
            assert(e1.len() == es0.len() - 1);
        }
    }
}

} // verus!
