//! Reading the authorization code out of the address the browser was sent
//! back to, for when the user pastes that address by hand.
use vstd::prelude::*;
use vstd::string::*;
use crate::text::same_text;

verus! {

/// The query pairs of `s` when `url` parses it as an absolute URL, `None`
/// when it does not.
pub uninterp spec fn url_query_pairs(s: Seq<char>) -> Option<Seq<(Seq<char>, Seq<char>)>>;

/// The character sequences of a list of string pairs.
pub open spec fn pair_texts(v: Seq<(String, String)>) -> Seq<(Seq<char>, Seq<char>)> {
    v.map_values(|p: (String, String)| (p.0@, p.1@))
}

/// Relies on `url::Url::parse`, and on `Url::query_pairs` of the parsed URL
/// (its query read as form data, names and values decoded): the pairs in
/// order when the text parses, the parser's message when it does not.
#[verifier::external_body]
fn parse_query_pairs(s: &str) -> (r: Result<Vec<(String, String)>, String>)
    ensures
        match r {
            Ok(v) => url_query_pairs(s@) == Some(pair_texts(v@)),
            Err(_) => url_query_pairs(s@) is None,
        },
{
    match url::Url::parse(s) {
        Ok(u) => Ok(u.query_pairs().into_owned().collect()),
        Err(e) => Err(e.to_string()),
    }
}

/// The value of the last pair named `key`: a later pair of the same name
/// replaces an earlier one.
pub open spec fn last_value(pairs: Seq<(Seq<char>, Seq<char>)>, key: Seq<char>) -> Option<Seq<char>>
    decreases pairs.len(),
{
    if pairs.len() == 0 {
        None
    } else if pairs.last().0 == key {
        Some(pairs.last().1)
    } else {
        last_value(pairs.drop_last(), key)
    }
}

/// Why no code could be read from a pasted address.
#[derive(Debug, Clone, PartialEq, Eq)]
pub enum RedirectError {
    /// The text is no URL; the parser's message.
    Parse(String),
    /// The URL has no `code` parameter.
    MissingCode,
}

/// The value of the `code` parameter among the query pairs of a URL.
pub fn code_param(pairs: &Vec<(String, String)>) -> (r: Option<String>)
    ensures
        match last_value(pair_texts(pairs@), "code"@) {
            Some(v) => r matches Some(c) && c@ == v,
            None => r is None,
        },
{
    let mut i: usize = pairs.len();
    assert(pairs@.take(i as int) =~= pairs@);
    while i > 0
        invariant
            i <= pairs@.len(),
            last_value(pair_texts(pairs@), "code"@) == last_value(
                pair_texts(pairs@.take(i as int)),
                "code"@,
            ),
        decreases i,
    {
        let ghost before = pair_texts(pairs@.take(i as int));
        assert(before.drop_last() =~= pair_texts(pairs@.take(i - 1)));
        assert(before.last() == (pairs@[i - 1].0@, pairs@[i - 1].1@));
        if same_text(pairs[i - 1].0.as_str(), "code") {
            return Some(pairs[i - 1].1.clone());
        }
        i = i - 1;
    }
    None
}

/// The authorization code in the address the browser was sent back to.
pub fn code_from_redirect_url(url: &str) -> (r: Result<String, RedirectError>)
    ensures
        match url_query_pairs(url@) {
            None => r matches Err(RedirectError::Parse(_)),
            Some(pairs) => match last_value(pairs, "code"@) {
                Some(v) => r matches Ok(c) && c@ == v,
                None => r == Err::<String, RedirectError>(RedirectError::MissingCode),
            },
        },
{
    match parse_query_pairs(url) {
        Ok(pairs) => match code_param(&pairs) {
            Some(c) => Ok(c),
            None => Err(RedirectError::MissingCode),
        },
        Err(m) => Err(RedirectError::Parse(m)),
    }
}

} // verus!
