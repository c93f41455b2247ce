//! Turning an HTML fragment into plain text: tags become spaces, character
//! references are decoded, surrounding whitespace is trimmed.
use vstd::prelude::*;
use crate::text::{trim, trim_str};

verus! {

/// Whether `regex::Regex::new(pattern)` succeeds.
pub uninterp spec fn regex_compiles(pattern: Seq<char>) -> bool;

/// The text that `Regex::new(pattern)?.replace_all(haystack, replacement)`
/// gives: every leftmost non-overlapping match replaced.
pub uninterp spec fn regex_replaced(
    pattern: Seq<char>,
    haystack: Seq<char>,
    replacement: Seq<char>,
) -> Seq<char>;

/// The text that `html_escape::decode_html_entities(text)` gives.
pub uninterp spec fn entities_decoded(text: Seq<char>) -> Seq<char>;

/// Calls `regex::Regex::new(pattern)` and reports whether it compiled.
/// Claimed: the answer depends on the pattern alone.
#[verifier::external_body]
pub(crate) fn pattern_compiles(pattern: &str) -> (b: bool)
    ensures
        b == regex_compiles(pattern@),
{
    regex::Regex::new(pattern).is_ok()
}

/// Calls `regex::Regex::replace_all` with the compiled `pattern`. Claimed:
/// the text depends on the three arguments alone, and with the tag pattern a
/// haystack without `<` comes back unchanged (every match of `<[^>]+>`
/// starts with `<`, and `replace_all` returns its haystack when nothing
/// matches). `requires` leaves out patterns that do not compile.
#[verifier::external_body]
pub(crate) fn replace_all(pattern: &str, haystack: &str, replacement: &str) -> (r: String)
    requires
        regex_compiles(pattern@),
    ensures
        r@ == regex_replaced(pattern@, haystack@, replacement@),
        pattern@ == tag_pattern() && !haystack@.contains('<') ==> r@ == haystack@,
{
    match regex::Regex::new(pattern) {
        Ok(re) => re.replace_all(haystack, replacement).into_owned(),
        Err(_) => String::new(),
    }
}

/// Calls `html_escape::decode_html_entities`. Claimed: the text depends on
/// `text` alone, and a text without `&` comes back unchanged (the crate
/// returns its input when it finds no `&`).
#[verifier::external_body]
pub(crate) fn decode_entities(text: &str) -> (r: String)
    ensures
        r@ == entities_decoded(text@),
        !text@.contains('&') ==> r@ == text@,
{
    html_escape::decode_html_entities(text).into_owned()
}

/// The pattern of an HTML tag: `<`, at least one character other than `>`, `>`.
pub open spec fn tag_pattern() -> Seq<char> {
    "<[^>]+>"@
}

/// `s` with every tag replaced by a space, character references decoded and
/// surrounding whitespace trimmed.
pub open spec fn stripped(s: Seq<char>) -> Seq<char> {
    trim(entities_decoded(regex_replaced(tag_pattern(), s, " "@)))
}

/// The plain text of a fragment never starts or ends with whitespace.
pub proof fn lemma_stripped_is_trimmed(s: Seq<char>)
    ensures
        crate::text::is_trimmed(stripped(s)),
{
    crate::text::lemma_trim_is_trimmed(entities_decoded(regex_replaced(tag_pattern(), s, " "@)));
}

/// Whether the tag pattern compiles (it is a fixed pattern; `Regex::new`
/// decides).
pub fn tag_pattern_compiles() -> (b: bool)
    ensures
        b == regex_compiles(tag_pattern()),
{
    pattern_compiles("<[^>]+>")
}

/// The plain text of an HTML fragment, for a pattern engine that accepts
/// the tag pattern. Tags are removed from the fragment as received and
/// character references decoded only afterwards, so escaped markup such as
/// `&lt;b&gt;` (which holds no `<`) is kept as text, decoded.
pub fn strip_tags(s: &str) -> (r: String)
    requires
        regex_compiles(tag_pattern()),
    ensures
        r@ == stripped(s@),
        !s@.contains('<') ==> r@ == trim(entities_decoded(s@)),
        !s@.contains('<') && !s@.contains('&') ==> r@ == trim(s@),
{
    let spaced = replace_all("<[^>]+>", s, " ");
    let decoded = decode_entities(spaced.as_str());
    trim_str(decoded.as_str())
}

/// The plain text of an HTML fragment: tags replaced by spaces, character
/// references decoded, surrounding whitespace trimmed. `None` when the
/// pattern engine refuses the tag pattern.
pub fn strip_html(s: &str) -> (r: Option<String>)
    ensures
        r is None <==> !regex_compiles(tag_pattern()),
        r matches Some(t) ==> t@ == stripped(s@),
        r matches Some(t) ==> (!s@.contains('<') ==> t@ == trim(entities_decoded(s@))),
{
    if tag_pattern_compiles() {
        Some(strip_tags(s))
    } else {
        None
    }
}

} // verus!
