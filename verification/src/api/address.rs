//! Addresses: the `url` crate's `Url`, as far as the library handles it.
//!
//! A `Url` is opaque here. The contracts speak of its text, the serialization
//! that `Url::as_str` returns, and name what the crate's parser and its query
//! serializer make of a text. Nothing is proved of those results: the
//! functions marked `external_body` are believed, not verified.

use vstd::prelude::*;
use vstd::utf8::encode_utf8;
use url::{ParseError, Url};

verus! {

#[verifier::external_type_specification]
#[verifier::external_body]
pub struct ExUrl(Url);

#[verifier::external_type_specification]
pub struct ExParseError(ParseError);

/// The text of an address: what `Url::as_str` returns for it.
pub uninterp spec fn url_text(url: Url) -> Seq<char>;

/// `Url::clone`, which copies the address with its text.
pub assume_specification[ <Url as Clone>::clone ](url: &Url) -> (copy: Url)
    ensures
        url_text(copy) == url_text(*url),
;

/// What `Url::parse` makes of a text: the text of the address it returns, or
/// its error.
pub uninterp spec fn url_parsed(text: Seq<char>) -> Result<Seq<char>, ParseError>;

/// What `Url::join` makes of a reference, for a base address with the given
/// text: the text of the address it returns, or its error.
pub uninterp spec fn url_joined(base: Seq<char>, reference: Seq<char>) -> Result<
    Seq<char>,
    ParseError,
>;

/// The text of an address after `append_pair` has added a name and a value to
/// the query of the address with the given text.
pub uninterp spec fn url_with_pair(url: Seq<char>, name: Seq<char>, value: Seq<char>) -> Seq<
    char,
>;

/// The longest text, in bytes, in which the `url` crate can keep positions.
pub const URL_LIMIT: u64 = 0xFFFF_FFFF;

/// Whether a pair can be added to an address without its text outgrowing
/// `URL_LIMIT`. The serializer writes at most three bytes for each byte of
/// the name and of the value, and two separators.
pub open spec fn pair_fits(url: Seq<char>, name: Seq<char>, value: Seq<char>) -> bool {
    encode_utf8(url).len() + 3 * (encode_utf8(name).len() + encode_utf8(value).len()) + 2
        <= URL_LIMIT
}

/// Calls `Url::parse`; the contract names what it returns.
#[verifier::external_body]
pub(crate) fn parse_url(text: &str) -> (parsed: Result<Url, ParseError>)
    ensures
        match parsed {
            Ok(url) => url_parsed(text@) == Ok::<Seq<char>, ParseError>(url_text(url)),
            Err(e) => url_parsed(text@) == Err::<Seq<char>, ParseError>(e),
        },
{
    Url::parse(text)
}

/// Calls `Url::join`; the contract names what it returns.
#[verifier::external_body]
pub(crate) fn join_url(base: &Url, reference: &str) -> (joined: Result<Url, ParseError>)
    ensures
        match joined {
            Ok(url) => url_joined(url_text(*base), reference@) == Ok::<Seq<char>, ParseError>(
                url_text(url),
            ),
            Err(e) => url_joined(url_text(*base), reference@) == Err::<Seq<char>, ParseError>(e),
        },
{
    base.join(reference)
}

/// Calls `Url::query_pairs_mut` and `append_pair` on what it returns. The
/// crate panics where a position does not fit in 32 bits, which `requires`
/// rules out; the contract names the text of the address afterwards.
#[verifier::external_body]
pub(crate) fn append_query_pair(url: &mut Url, name: &str, value: &str)
    requires
        pair_fits(url_text(*old(url)), name@, value@),
    ensures
        url_text(*final(url)) == url_with_pair(url_text(*old(url)), name@, value@),
{
    url.query_pairs_mut().append_pair(name, value);
}

/// Calls `Url::as_str`, which returns the address's text.
#[verifier::external_body]
pub(crate) fn url_as_str(url: &Url) -> (text: &str)
    ensures
        text@ == url_text(*url),
{
    url.as_str()
}

/// The text of an address as an owned string.
pub fn url_string(url: &Url) -> (text: String)
    ensures
        text@ == url_text(*url),
{
    url_as_str(url).to_owned()
}

/// Tests whether a pair can be added to `url`.
pub fn pair_fits_url(url: &Url, name: &str, value: &str) -> (fits: bool)
    ensures
        fits == pair_fits(url_text(*url), name@, value@),
{
    let text = url_as_str(url).as_bytes();
    let name_bytes = name.as_bytes();
    let value_bytes = value.as_bytes();
    let added: u128 = 3 * (name_bytes.len() as u128 + value_bytes.len() as u128) + 2;
    text.len() as u128 + added <= URL_LIMIT as u128
}

/// The names and values of a list of query pairs.
pub open spec fn pair_views(pairs: Seq<(String, String)>) -> Seq<(Seq<char>, Seq<char>)> {
    Seq::new(pairs.len(), |i: int| (pairs[i].0@, pairs[i].1@))
}

/// The text of an address after the pairs have been added to its query, one
/// after the other.
pub open spec fn with_pairs(url: Seq<char>, pairs: Seq<(Seq<char>, Seq<char>)>) -> Seq<char>
    decreases pairs.len(),
{
    if pairs.len() == 0 {
        url
    } else {
        url_with_pair(with_pairs(url, pairs.drop_last()), pairs.last().0, pairs.last().1)
    }
}

/// Whether each of the pairs can be added in its turn.
pub open spec fn pairs_fit(url: Seq<char>, pairs: Seq<(Seq<char>, Seq<char>)>) -> bool
    decreases pairs.len(),
{
    if pairs.len() == 0 {
        true
    } else {
        pairs_fit(url, pairs.drop_last()) && pair_fits(
            with_pairs(url, pairs.drop_last()),
            pairs.last().0,
            pairs.last().1,
        )
    }
}

/// Adds the pairs to the query of `url`, in their order.
pub fn append_pairs(url: &mut Url, pairs: &Vec<(String, String)>)
    requires
        pairs_fit(url_text(*old(url)), pair_views(pairs@)),
    ensures
        url_text(*final(url)) == with_pairs(url_text(*old(url)), pair_views(pairs@)),
{
    let ghost start = url_text(*url);
    let ghost all = pair_views(pairs@);
    let mut i: usize = 0;
    assert(all.take(0) =~= Seq::empty());
    while i < pairs.len()
        invariant
            i <= pairs@.len(),
            all == pair_views(pairs@),
            pairs_fit(start, all),
            url_text(*url) == with_pairs(start, all.take(i as int)),
        decreases pairs@.len() - i,
    {
        proof {
            lemma_fit_prefix(start, all, i as int + 1);
            assert(all.take(i as int + 1).drop_last() =~= all.take(i as int));
        }
        append_query_pair(url, pairs[i].0.as_str(), pairs[i].1.as_str());
        i = i + 1;
    }
    assert(all.take(pairs@.len() as int) =~= all);
}

/// Adds the pairs to the query of `url` if each of them can be added in its
/// turn, and says whether it did. Where one cannot, `url` is left as it was.
pub fn try_append_pairs(url: &mut Url, pairs: &Vec<(String, String)>) -> (done: bool)
    ensures
        done == pairs_fit(url_text(*old(url)), pair_views(pairs@)),
        done ==> url_text(*final(url)) == with_pairs(url_text(*old(url)), pair_views(pairs@)),
        !done ==> *final(url) == *old(url),
{
    let ghost start = url_text(*url);
    let ghost all = pair_views(pairs@);
    let mut grown = url.clone();
    let mut i: usize = 0;
    assert(all.take(0) =~= Seq::empty());
    while i < pairs.len()
        invariant
            i <= pairs@.len(),
            all == pair_views(pairs@),
            start == url_text(*url),
            *url == *old(url),
            pairs_fit(start, all.take(i as int)),
            url_text(grown) == with_pairs(start, all.take(i as int)),
        decreases pairs@.len() - i,
    {
        proof {
            assert(all.take(i as int + 1).drop_last() =~= all.take(i as int));
        }
        if !pair_fits_url(&grown, pairs[i].0.as_str(), pairs[i].1.as_str()) {
            proof {
                if pairs_fit(start, all) {
                    lemma_fit_prefix(start, all, i as int + 1);
                }
            }
            return false;
        }
        append_query_pair(&mut grown, pairs[i].0.as_str(), pairs[i].1.as_str());
        i = i + 1;
    }
    assert(all.take(pairs@.len() as int) =~= all);
    *url = grown;
    true
}

/// Where all the pairs fit, so do the first `n` of them.
pub proof fn lemma_fit_prefix(url: Seq<char>, pairs: Seq<(Seq<char>, Seq<char>)>, n: int)
    requires
        0 <= n <= pairs.len(),
        pairs_fit(url, pairs),
    ensures
        pairs_fit(url, pairs.take(n)),
    decreases pairs.len(),
{
    if n == pairs.len() {
        assert(pairs.take(n) =~= pairs);
    } else {
        lemma_fit_prefix(url, pairs.drop_last(), n);
        assert(pairs.drop_last().take(n) =~= pairs.take(n));
    }
}

} // verus!
