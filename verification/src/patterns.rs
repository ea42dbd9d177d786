//! Regular-expression searches, made with the `regex` crate.
use vstd::prelude::*;

verus! {

/// What the `regex` crate reports for the leftmost-first match of `pattern` in
/// `hay`: its start and end, counted in characters, or `None` when the pattern
/// does not compile or does not match.
pub uninterp spec fn regex_find_chars(pattern: Seq<char>, hay: Seq<char>) -> Option<(usize, usize)>;

/// Compiles `pattern` with `regex::Regex::new` and searches `hay` with
/// `Regex::find`. The contract names the result, and states what the crate's
/// documentation gives for every match: it lies inside the haystack, its start
/// not after its end. A pattern that does not compile yields `None`.
#[verifier::external_body]
pub(crate) fn regex_find(pattern: &str, hay: &str) -> (r: Option<(usize, usize)>)
    ensures
        r == regex_find_chars(pattern@, hay@),
        r matches Some((s, e)) ==> s <= e && e <= hay@.len(),
{
    let re = match regex::Regex::new(pattern) {
        Ok(re) => re,
        Err(_) => return None,
    };
    match re.find(hay) {
        Some(m) => Some((hay[..m.start()].chars().count(), hay[..m.end()].chars().count())),
        None => None,
    }
}

/// Whether `pattern` compiles and matches somewhere in `hay`
/// (`Regex::is_match`, which reports whether `Regex::find` finds a match).
pub open spec fn regex_matches(pattern: Seq<char>, hay: Seq<char>) -> bool {
    regex_find_chars(pattern, hay) is Some
}

/// Whether `pattern` compiles and matches somewhere in `hay`.
pub fn regex_is_match(pattern: &str, hay: &str) -> (r: bool)
    ensures
        r == regex_matches(pattern@, hay@),
{
    regex_find(pattern, hay).is_some()
}

/// What the `regex` crate reports for the capture groups of the leftmost-first
/// match of `pattern` in `hay`: for each group (group 0 being the whole match)
/// its span in characters, or `None` where the group did not take part; `None`
/// as a whole when the pattern does not compile or does not match.
pub uninterp spec fn regex_captures_chars(pattern: Seq<char>, hay: Seq<char>) -> Option<
    Seq<Option<(usize, usize)>>,
>;

/// Compiles `pattern` with `regex::Regex::new` and reads the capture groups of
/// the first match with `Regex::captures`. The contract names the result and
/// states that every group that took part lies inside the haystack.
#[verifier::external_body]
pub(crate) fn regex_captures(pattern: &str, hay: &str) -> (r: Option<Vec<Option<(usize, usize)>>>)
    ensures
        r matches Some(v) ==> regex_captures_chars(pattern@, hay@) == Some(v@),
        r is None ==> regex_captures_chars(pattern@, hay@) is None,
        r matches Some(v) ==> forall|i: int|
            0 <= i < v@.len() ==> (#[trigger] v@[i] matches Some((s, e)) ==> s <= e && e
                <= hay@.len()),
{
    let re = match regex::Regex::new(pattern) {
        Ok(re) => re,
        Err(_) => return None,
    };
    let caps = re.captures(hay)?;
    let to_chars = |i: usize| hay[..i].chars().count();
    Some(caps.iter().map(|g| g.map(|m| (to_chars(m.start()), to_chars(m.end())))).collect())
}

/// What `Regex::replace_all` returns for `hay` with every match of `pattern`
/// replaced by the literal `rep`; `hay` unchanged when the pattern does not
/// compile.
pub uninterp spec fn regex_replace_all_chars(pattern: Seq<char>, hay: Seq<char>, rep: Seq<char>) -> Seq<char>;

/// Compiles `pattern` with `regex::Regex::new` and replaces every match in
/// `hay` by `rep` with `Regex::replace_all`, `rep` taken literally. The
/// contract names the result only.
#[verifier::external_body]
pub(crate) fn regex_replace_all(pattern: &str, hay: &str, rep: &str) -> (r: String)
    ensures
        r@ == regex_replace_all_chars(pattern@, hay@, rep@),
{
    match regex::Regex::new(pattern) {
        Ok(re) => re.replace_all(hay, regex::NoExpand(rep)).to_string(),
        Err(_) => hay.to_string(),
    }
}

} // verus!
