use vstd::prelude::*;

verus! {

/// What `str`'s `Debug` writes for a text: the text quoted, with escapes.
pub uninterp spec fn debug_quoted(s: Seq<char>) -> Seq<char>;

/// Relies on `<str as Debug>::fmt`: the quoted, escaped form of `s`, which
/// depends on the characters of `s` alone.
#[verifier::external_body]
pub(crate) fn quoted(s: &str) -> (r: String)
    ensures
        r@ == debug_quoted(s@),
{
    format!("{:?}", s)
}

/// The text that stands in for a secret field: the `Debug` form of `"..."`.
pub open spec fn redaction_marker() -> Seq<char> {
    debug_quoted("\"...\""@)
}

/// The redaction marker.
pub(crate) fn marker() -> (r: String)
    ensures
        r@ == redaction_marker(),
{
    quoted("\"...\"")
}

/// How an optional text is shown: `Some(..)` around its quoted form, or `None`.
pub open spec fn opt_debug(o: Option<Seq<char>>) -> Seq<char> {
    match o {
        Some(s) => "Some("@ + debug_quoted(s) + ")"@,
        None => "None"@,
    }
}

/// Shows an optional text.
pub(crate) fn show_opt(o: &Option<String>) -> (r: String)
    ensures
        r@ == opt_debug(crate::payload::opt_text(*o)),
{
    match o {
        Some(s) => {
            let mut r = String::from_str("Some(");
            let q = quoted(s.as_str());
            r.append(q.as_str());
            r.append(")");
            r
        },
        None => String::from_str("None"),
    }
}

/// `t` stands somewhere in `s` as a run of consecutive characters.
pub open spec fn occurs_in(t: Seq<char>, s: Seq<char>) -> bool {
    exists|i: int| 0 <= i && i + t.len() <= s.len() && #[trigger] s.subrange(i, i + t.len()) == t
}

} // verus!
