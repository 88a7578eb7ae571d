//! Object paths: parsing a string into a path and encoding a key as one,
//! as `object_store::path::Path` does.

use vstd::prelude::*;

verus! {

/// The path parsing error of `object_store`.
#[verifier::external_type_specification]
#[verifier::external_body]
pub struct ExPathError(object_store::path::Error);

/// `s` without one leading `/`, if it has one.
pub open spec fn strip_leading_slash(s: Seq<char>) -> Seq<char> {
    if s.len() > 0 && s[0] == '/' {
        s.drop_first()
    } else {
        s
    }
}

/// `s` without one trailing `/`, if it has one.
pub open spec fn strip_trailing_slash(s: Seq<char>) -> Seq<char> {
    if s.len() > 0 && s.last() == '/' {
        s.drop_last()
    } else {
        s
    }
}

/// `s` without any of its leading `/`.
pub open spec fn trim_leading_slashes(s: Seq<char>) -> Seq<char>
    decreases s.len(),
{
    if s.len() > 0 && s[0] == '/' {
        trim_leading_slashes(s.drop_first())
    } else {
        s
    }
}

/// An ASCII control character (U+0000 to U+001F, and U+007F).
pub open spec fn is_ascii_control(c: char) -> bool {
    (c as u32) < 0x20 || (c as u32) == 0x7f
}

/// A path segment of `q` starts at index `i`.
pub open spec fn starts_segment(q: Seq<char>, i: int) -> bool {
    i == 0 || q[i - 1] == '/'
}

/// A path segment of `q` ends just before index `i`.
pub open spec fn ends_segment(q: Seq<char>, i: int) -> bool {
    i == q.len() || q[i] == '/'
}

/// `q` is a well-formed non-empty path: `/`-separated segments that are
/// neither empty nor `.` nor `..`, with no ASCII control character.
pub open spec fn valid_path_text(q: Seq<char>) -> bool {
    &&& q.len() > 0
    &&& q[0] != '/'
    &&& q.last() != '/'
    &&& forall|i: int| 0 <= i < q.len() - 1 ==> !(#[trigger] q[i] == '/' && q[i + 1] == '/')
    &&& forall|i: int| 0 <= i < q.len() ==> !is_ascii_control(#[trigger] q[i])
    &&& forall|i: int|
        0 <= i < q.len() && #[trigger] q[i] == '.' && starts_segment(q, i) ==> !ends_segment(q, i + 1)
    &&& forall|i: int|
        0 <= i < q.len() - 1 && #[trigger] q[i] == '.' && q[i + 1] == '.' && starts_segment(q, i)
            ==> !ends_segment(q, i + 2)
}

/// What parsing `s` as an object path gives: `s` without one leading and one
/// trailing `/` when the rest is a well-formed path, the empty path for `""`
/// and `"/"`, and `None` otherwise.
pub open spec fn path_parse(s: Seq<char>) -> Option<Seq<char>> {
    let p = strip_leading_slash(s);
    if p.len() == 0 {
        Some(Seq::empty())
    } else {
        let q = strip_trailing_slash(p);
        if valid_path_text(q) {
            Some(q)
        } else {
            None
        }
    }
}

/// The number of characters of `q` before its first `/` (all of them where
/// there is none).
pub open spec fn chars_before_slash(q: Seq<char>) -> nat
    decreases q.len(),
{
    if q.len() == 0 || q[0] == '/' {
        0
    } else {
        1 + chars_before_slash(q.drop_first())
    }
}

/// The index of the first ASCII control character of `q` (its length where
/// there is none).
pub open spec fn first_control_char(q: Seq<char>) -> nat
    decreases q.len(),
{
    if q.len() == 0 || is_ascii_control(q[0]) {
        0
    } else {
        1 + first_control_char(q.drop_first())
    }
}

/// The text of the error for a path `path` with an empty segment.
pub open spec fn empty_segment_text(path: Seq<char>) -> Seq<char> {
    "Path \""@ + path + "\" contained empty path segment"@
}

/// The text of the error for a path `path` whose segment `segment` holds
/// the illegal sequence `illegal`.
pub open spec fn bad_segment_text(path: Seq<char>, illegal: Seq<char>, segment: Seq<char>) -> Seq<char> {
    "Error parsing Path \""@ + path + "\": Encountered illegal character sequence \""@ + illegal
        + "\" whilst parsing path segment \""@ + segment + "\""@
}

/// The text of the error for the first rejected segment of `q`, the rest of
/// the path `path` once its outer `/` are stripped (empty where no segment
/// is rejected). A segment is rejected when it is empty, when it is `.` or
/// `..` (the illegal sequence is the segment), or at its first ASCII control
/// character (the illegal sequence is that character).
pub open spec fn segment_error_text(path: Seq<char>, q: Seq<char>) -> Seq<char>
    decreases q.len(),
{
    let k = chars_before_slash(q);
    let segment = q.take(k as int);
    if segment.len() == 0 {
        empty_segment_text(path)
    } else if segment == seq!['.'] || segment == seq!['.', '.'] {
        bad_segment_text(path, segment, segment)
    } else if first_control_char(segment) < segment.len() {
        bad_segment_text(path, seq![segment[first_control_char(segment) as int]], segment)
    } else if k < q.len() {
        segment_error_text(path, q.skip(k as int + 1))
    } else {
        Seq::empty()
    }
}

/// The text of the error that parsing `s` as an object path gives.
pub open spec fn path_parse_error_text(s: Seq<char>) -> Seq<char> {
    segment_error_text(s, strip_trailing_slash(strip_leading_slash(s)))
}

/// `object_store::path::Path::parse`, with the resulting path as its text,
/// or the error with its text (its `Display`).
///
/// Trusted: the contract restates what `Path::parse` and its error's
/// `Display` do in the source of `object_store`: strip one leading `/`; an
/// empty rest is the empty path; strip one trailing `/`; every `/`-separated
/// segment must be non-empty, must not be `.` or `..` and must hold no ASCII
/// control character; the first segment that breaks a rule gives the error,
/// whose text `path_parse_error_text` spells out.
#[verifier::external_body]
pub(crate) fn parse_object_path(s: &str) -> (r: Result<String, (object_store::path::Error, String)>)
    ensures
        match r {
            Ok(p) => path_parse(s@) == Some(p@),
            Err((_, text)) => path_parse(s@) is None && text@ == path_parse_error_text(s@),
        },
{
    match object_store::path::Path::parse(s) {
        Ok(path) => Ok(String::from(path)),
        Err(e) => {
            let text = e.to_string();
            Err((e, text))
        },
    }
}

/// The text of the path that `object_store::path::Path::from` makes of `s`
/// (each `/`-separated segment percent-encoded, empty segments dropped).
pub uninterp spec fn spec_path_from(s: Seq<char>) -> Seq<char>;

/// `object_store::path::Path::from`, with the resulting path as its text.
///
/// Trusted: the result is named `spec_path_from` of the argument; the
/// encoding itself is not restated.
#[verifier::external_body]
pub(crate) fn encode_object_path(s: &str) -> (r: String)
    ensures
        r@ == spec_path_from(s@),
{
    String::from(object_store::path::Path::from(s))
}

} // verus!
