use vstd::prelude::*;

verus! {

/// The result of percent-decoding a piece of text: the decoded text, or
/// nothing when the decoded bytes are not valid text.
pub uninterp spec fn url_decoded(s: Seq<char>) -> Option<Seq<char>>;

/// Relies on urlencoding::decode: percent-decoding depends on the input's
/// characters alone, and fails exactly when the decoded bytes are not valid
/// UTF-8 (a malformed escape is kept literally, never an error).
#[verifier::external_body]
fn percent_decode(s: &str) -> (r: Option<String>)
    ensures
        r matches Some(d) ==> url_decoded(s@) == Some(d@),
        r is None ==> url_decoded(s@) is None,
{
    match urlencoding::decode(s) {
        Ok(d) => Some(d.into_owned()),
        Err(_) => None,
    }
}

/// What the query-string deserializer is handed for a given raw query
/// component: the percent-decoded text, or the empty string when the
/// component is absent or its decoding fails.
pub open spec fn decoded_query_spec(raw: Option<Seq<char>>) -> Seq<char> {
    match raw {
        Option::Some(q) => match url_decoded(q) {
            Option::Some(d) => d,
            Option::None => Seq::empty(),
        },
        Option::None => Seq::empty(),
    }
}

/// Percent-decodes the raw query component of a request URI. An absent
/// component counts as an empty query; so, by the leniency policy, does one
/// whose percent-decoding fails.
pub fn decoded_query(raw: Option<&str>) -> (r: String)
    ensures
        r@ == decoded_query_spec(raw.deep_view()),
{
    match raw {
        Option::Some(q) => match percent_decode(q) {
            Option::Some(d) => d,
            Option::None => String::new(),
        },
        Option::None => String::new(),
    }
}

/// A request without a query component is treated as one with an empty query.
pub proof fn lemma_absent_query_is_empty()
    ensures
        decoded_query_spec(Option::<Seq<char>>::None) == Seq::<char>::empty(),
{
}

/// Decode-failure leniency: a query component whose percent-decoding fails
/// is treated as an empty query rather than reported as an error.
pub proof fn lemma_decode_failure_is_empty(q: Seq<char>)
    ensures
        url_decoded(q) is None ==> decoded_query_spec(Some(q)) == Seq::<char>::empty(),
{
}

} // verus!
