//! Cleaning of extracted text: every character outside a fixed whitelist
//! (ASCII letters, digits, punctuation and the space) is deleted.
use vstd::prelude::*;

verus! {

/// Whether a character survives cleaning: an ASCII letter, digit,
/// punctuation symbol, or the space character.
pub open spec fn is_kept(c: char) -> bool {
    ('a' <= c && c <= 'z') || ('A' <= c && c <= 'Z') || ('0' <= c && c <= '9') || ('!' <= c
        && c <= '/') || (':' <= c && c <= '@') || ('[' <= c && c <= '`') || ('{' <= c && c
        <= '~') || c == ' '
}

/// `is_kept` as a predicate value.
pub open spec fn kept() -> spec_fn(char) -> bool {
    |c: char| is_kept(c)
}

/// The cleaned form of a text: its kept characters, in their order.
pub open spec fn sanitized(s: Seq<char>) -> Seq<char> {
    s.filter(kept())
}

/// The pattern of one character that is not kept, in the syntax of the
/// `regex` crate.
pub const STRIP_PATTERN: &'static str = "[^a-zA-Z0-9[:punct:] ]";

/// Relies on `regex::Regex::new` and `regex::Regex::replace_all`: deletes
/// every match of `pattern` in `text`. For `STRIP_PATTERN` the crate's
/// documentation gives the class `[:punct:]` as `[!-/:-@\[-`{-~]`, so each
/// match is one character outside the whitelist, and replacing all of them
/// by the empty string keeps exactly the kept characters, in order.
#[verifier::external_body]
fn delete_matches(pattern: &str, text: &str) -> (r: Option<String>)
    ensures
        pattern@ == STRIP_PATTERN@ ==> r is Some && r->0@ == sanitized(text@),
{
    match regex::Regex::new(pattern) {
        Ok(re) => Some(re.replace_all(text, "").into_owned()),
        Err(_) => None,
    }
}

/// Deletes every character of `text` that is not an ASCII letter, digit,
/// punctuation symbol or space.
pub fn sanitize(text: &str) -> (r: String)
    ensures
        r@ == sanitized(text@),
{
    match delete_matches(STRIP_PATTERN, text) {
        Some(clean) => clean,
        None => {
            proof {
                // `delete_matches` always succeeds on `STRIP_PATTERN`.
                assert(false);
            }
            String::new()
        },
    }
}

/// Every character of a cleaned text is kept by the whitelist.
pub proof fn lemma_sanitized_only_kept(s: Seq<char>)
    ensures
        forall|i: int| 0 <= i < sanitized(s).len() ==> is_kept(#[trigger] sanitized(s)[i]),
{
    broadcast use vstd::seq_lib::group_filter_ensures;

    assert forall|i: int| 0 <= i < sanitized(s).len() implies is_kept(
        #[trigger] sanitized(s)[i],
    ) by {
        s.lemma_filter_pred(kept(), i);
    }
}

/// Cleaning keeps the order of what it keeps: the kept characters of `a`
/// followed by those of `b` are those of `a + b`.
pub proof fn lemma_sanitized_keeps_order(a: Seq<char>, b: Seq<char>)
    ensures
        sanitized(a + b) == sanitized(a) + sanitized(b),
{
    Seq::filter_distributes_over_add(a, b, kept());
}

/// A text without removed characters is its own cleaned form.
pub proof fn lemma_sanitized_of_clean(s: Seq<char>)
    requires
        forall|i: int| 0 <= i < s.len() ==> is_kept(#[trigger] s[i]),
    ensures
        sanitized(s) == s,
    decreases s.len(),
{
    reveal(Seq::filter);
    if s.len() > 0 {
        lemma_sanitized_of_clean(s.drop_last());
        assert(s.drop_last().push(s.last()) =~= s);
    }
}

/// Cleaning twice gives what cleaning once gives.
pub proof fn lemma_sanitize_idempotent(s: Seq<char>)
    ensures
        sanitized(sanitized(s)) == sanitized(s),
{
    lemma_sanitized_only_kept(s);
    lemma_sanitized_of_clean(sanitized(s));
}

} // verus!
