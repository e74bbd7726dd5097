use vstd::prelude::*;

verus! {

/// Whether `char::is_alphanumeric` holds of `c` (Unicode `Alphabetic` or `Numeric`).
pub uninterp spec fn is_alnum(c: char) -> bool;

/// Relies on `char::is_alphanumeric`: it answers by the Unicode tables, and
/// for an ASCII character exactly when it is a letter or a digit.
#[verifier::external_body]
fn is_alphanumeric(c: char) -> (r: bool)
    ensures
        r == is_alnum(c),
        (c as u32) < 128 ==> (r <==> is_ascii_alnum(c)),
{
    c.is_alphanumeric()
}

/// Relies on `String::push`: appends one character at the end.
#[verifier::external_body]
pub(crate) fn push_char(s: &mut String, c: char)
    ensures
        final(s)@ == old(s)@.push(c),
{
    s.push(c)
}

pub open spec fn is_ascii_alnum(c: char) -> bool {
    ('a' <= c && c <= 'z') || ('A' <= c && c <= 'Z') || ('0' <= c && c <= '9')
}

/// A character that may stand in a stored file name as it is.
pub open spec fn is_safe_char(c: char) -> bool {
    is_alnum(c) || c == '_' || c == '-'
}

pub open spec fn sanitize_char(c: char) -> char {
    if is_safe_char(c) {
        c
    } else {
        '_'
    }
}

/// Every character outside the safe set replaced by `_`.
pub open spec fn sanitized(s: Seq<char>) -> Seq<char> {
    s.map_values(|c: char| sanitize_char(c))
}

/// Whether `c` may stand in a stored file name as it is: a letter or digit
/// (in the Unicode sense), `_` or `-`.
pub fn is_safe_id_char(c: char) -> (r: bool)
    ensures
        r == is_safe_char(c),
        (c as u32) < 128 ==> (r <==> (is_ascii_alnum(c) || c == '_' || c == '-')),
{
    is_alphanumeric(c) || c == '_' || c == '-'
}

/// No path separator, no dot (so no `..`) and no NUL character.
pub open spec fn has_no_path_syntax(s: Seq<char>) -> bool {
    forall|i: int|
        0 <= i < s.len() ==> {
            let c = #[trigger] s[i];
            c != '/' && c != '\\' && c != '.' && c != '\0'
        }
}

/// Makes a caller-supplied identifier safe to use as a file name: every
/// character that is not alphanumeric, `_` or `-` becomes `_`. The result
/// can therefore not name a parent directory or a subdirectory.
pub fn sanitize_id(s: &str) -> (r: String)
    ensures
        r@ == sanitized(s@),
        has_no_path_syntax(r@),
{
    let mut r = String::new();
    for c in it: s.chars()
        invariant
            it.seq() == s@,
            r@ == sanitized(it.seq().take(it.index() as int)),
            has_no_path_syntax(r@),
    {
        let ghost before = r@;
        if is_safe_id_char(c) {
            push_char(&mut r, c);
        } else {
            push_char(&mut r, '_');
        }
        assert(it.seq().take(it.index() + 1) =~= it.seq().take(it.index() as int).push(c));
        assert(r@ =~= sanitized(it.seq().take(it.index() + 1)));
    }
    assert(s@.take(s@.len() as int) =~= s@);
    r
}

/// Sanitizing twice gives what sanitizing once gives.
pub proof fn lemma_sanitize_idempotent(s: Seq<char>)
    ensures
        sanitized(sanitized(s)) == sanitized(s),
{
    assert(sanitized(sanitized(s)) =~= sanitized(s));
}

} // verus!
