use vstd::prelude::*;

verus! {

/// What `{:?}` shows for a text: the text between double quotes, with the
/// characters escaped that the standard library escapes.
pub uninterp spec fn debug_text(text: Seq<char>) -> Seq<char>;

/// The text that the first group of the regular expression `pattern` has
/// captured in the leftmost match within `text`. None where there is no match,
/// where the group took no part in it, and where `pattern` is no regular
/// expression.
pub uninterp spec fn first_group(pattern: Seq<char>, text: Seq<char>) -> Option<Seq<char>>;

/// `str::ends_with` with a text as the pattern: whether `text` ends in
/// `suffix`.
#[verifier::external_body]
pub(crate) fn ends_with(text: &str, suffix: &str) -> (r: bool)
    ensures
        r == suffix@.is_suffix_of(text@),
{
    text.ends_with(suffix)
}

/// Formats `text` with `{:?}`, that is by `<str as std::fmt::Debug>::fmt`. The
/// result is given its name, [`debug_text`]; nothing more is stated of it.
#[verifier::external_body]
pub(crate) fn debug_quoted(text: &str) -> (r: String)
    ensures
        r@ == debug_text(text@),
{
    format!("{text:?}")
}

/// Compiles `pattern` with `regex::Regex::new`, searches `text` with
/// `Regex::captures` and takes group 1 of what was found with `Captures::get`.
/// The result is given its name, [`first_group`]; nothing more is stated of it.
#[verifier::external_body]
pub(crate) fn capture_first_group(pattern: &str, text: &str) -> (r: Option<String>)
    ensures
        match r {
            Some(found) => first_group(pattern@, text@) == Some(found@),
            None => first_group(pattern@, text@).is_none(),
        },
{
    let regex = regex::Regex::new(pattern).ok()?;
    let captures = regex.captures(text)?;
    captures.get(1).map(|found| found.as_str().to_string())
}

} // verus!
