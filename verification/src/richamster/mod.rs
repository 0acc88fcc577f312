//! The services of the exchange, and what they share.

pub mod auth;
pub mod common;
pub mod exchange;
pub mod feedback;
pub mod payments;
pub mod replenish;
pub mod request;
pub mod response;
pub mod transfer;
pub mod user;
pub mod withdraw;

use vstd::prelude::*;
use vstd::string::*;
use percent_encoding::percent_decode_str;
use crate::text::same_text;

verus! {

/// What `percent_decode_str` makes of a text, read as UTF-8 with the
/// replacement character where it is none: the text with each `%` and two
/// hexadecimal digits turned into the byte they write.
pub uninterp spec fn percent_decoded(text: Seq<char>) -> Seq<char>;

/// Calls `percent_decode_str` and `decode_utf8_lossy` on what it returns;
/// the contract only names the result.
#[verifier::external_body]
pub(crate) fn percent_decode(text: &str) -> (decoded: String)
    ensures
        decoded@ == percent_decoded(text@),
{
    percent_decode_str(text).decode_utf8_lossy().into_owned()
}

/// The text with every occurrence of `from` replaced by `to`, found from
/// left to right and not overlapping.
pub open spec fn replace_all(text: Seq<char>, from: Seq<char>, to: Seq<char>) -> Seq<char>
    recommends
        from.len() > 0,
    decreases text.len(),
{
    if from.len() == 0 || text.len() < from.len() {
        text
    } else if text.take(from.len() as int) == from {
        to + replace_all(text.skip(from.len() as int), from, to)
    } else {
        seq![text[0]] + replace_all(text.skip(1), from, to)
    }
}

/// Calls `str::replace`, which replaces all matches of a pattern.
#[verifier::external_body]
pub(crate) fn replace(text: &str, from: &str, to: &str) -> (replaced: String)
    requires
        from@.len() > 0,
    ensures
        replaced@ == replace_all(text@, from@, to@),
{
    text.replace(from, to)
}

/// The segments joined with slashes between them.
pub open spec fn joined(segments: Seq<Seq<char>>) -> Seq<char>
    decreases segments.len(),
{
    if segments.len() == 0 {
        Seq::empty()
    } else if segments.len() == 1 {
        segments[0]
    } else {
        joined(segments.drop_last()) + seq!['/'] + segments.last()
    }
}

/// A path's segment with `value` in its place where, percent-decoded, it is
/// the placeholder.
pub open spec fn filled(segment: Seq<char>, value: Seq<char>, placeholder: Seq<char>) -> Seq<
    char,
> {
    if percent_decoded(segment) == placeholder {
        value
    } else {
        segment
    }
}

/// The segment, or `value` in its place where `decoded`, the segment
/// percent-decoded, is the placeholder.
pub fn fill<'a>(segment: &'a str, decoded: &str, value: &'a str, placeholder: &str) -> (part:
    &'a str)
    ensures
        part@ == if decoded@ == placeholder@ {
            value@
        } else {
            segment@
        },
{
    if same_text(decoded, placeholder) {
        value
    } else {
        segment
    }
}

/// Joins the segments with slashes between them.
pub fn join_segments(segments: &Vec<&str>) -> (path: String)
    ensures
        path@ == joined(Seq::new(segments@.len(), |i: int| segments@[i]@)),
{
    let ghost all = Seq::new(segments@.len(), |i: int| segments@[i]@);
    let mut path = String::new();
    let mut i: usize = 0;
    assert(all.take(0) =~= Seq::empty());
    while i < segments.len()
        invariant
            i <= segments@.len(),
            all == Seq::new(segments@.len(), |i: int| segments@[i]@),
            path@ == joined(all.take(i as int)),
        decreases segments@.len() - i,
    {
        proof {
            reveal_strlit("/");
            assert(all.take(i as int + 1).drop_last() =~= all.take(i as int));
            assert(all.take(i as int + 1).last() == all[i as int]);
        }
        if i > 0 {
            path.append("/");
        }
        path.append(segments[i]);
        assert(path@ =~= joined(all.take(i as int + 1)));
        i = i + 1;
    }
    assert(all.take(segments@.len() as int) =~= all);
    path
}

/// The path of the given segments with `value` in the place of every
/// segment that, percent-decoded, is the placeholder.
pub fn replace_placeholder(path_segments: Vec<&str>, value: String, placeholder: &str) -> (path:
    String)
    ensures
        path@ == joined(
            Seq::new(
                path_segments@.len(),
                |i: int| filled(path_segments@[i]@, value@, placeholder@),
            ),
        ),
{
    let mut parts: Vec<&str> = Vec::new();
    let mut i: usize = 0;
    while i < path_segments.len()
        invariant
            i <= path_segments@.len(),
            parts@.len() == i,
            forall|j: int|
                0 <= j < i ==> (#[trigger] parts@[j])@ == filled(
                    path_segments@[j]@,
                    value@,
                    placeholder@,
                ),
        decreases path_segments@.len() - i,
    {
        let segment = path_segments[i];
        let decoded = percent_decode(segment);
        parts.push(fill(segment, decoded.as_str(), value.as_str(), placeholder));
        i = i + 1;
    }
    assert(Seq::new(parts@.len(), |i: int| parts@[i]@) =~= Seq::new(
        path_segments@.len(),
        |i: int| filled(path_segments@[i]@, value@, placeholder@),
    ));
    join_segments(&parts)
}

} // verus!
