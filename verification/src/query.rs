use vstd::prelude::*;

verus! {

use crate::decode::decoded_query;
use crate::rejection::QueryRejection;

/// A value extracted from a request's query string: a transparent wrapper
/// owning one value of the caller-chosen type. Once constructed by
/// extraction, the wrapped value is exactly the deserialization of the
/// request's (decoded) query string; callers read and write it through the
/// public field.
#[derive(Debug, Clone, PartialEq, Eq)]
pub struct Query<T>(pub T);

/// Relies on serde_qs::from_str: deserializes an (already percent-decoded)
/// query string into T under the extended convention (repeated keys, bracket
/// notation for nested objects and arrays); on failure, the error's rendered
/// message is handed back instead.
#[verifier::external_body]
fn parse_query_str<T: serde::de::DeserializeOwned>(s: &str) -> (r: Result<T, String>) {
    match serde_qs::from_str::<T>(s) {
        Ok(v) => Ok(v),
        Err(e) => Err(format!("{}", e)),
    }
}

/// Wraps the outcome of query-string deserialization: a parsed value becomes
/// a `Query`, a failure message becomes a `Deserialize` rejection carrying
/// that message.
pub fn query_from_parse_result<T>(parsed: Result<T, String>) -> (r: Result<
    Query<T>,
    QueryRejection,
>)
    ensures
        parsed matches Ok(v) ==> r == Ok::<Query<T>, QueryRejection>(Query(v)),
        parsed matches Err(m) ==> r == Err::<Query<T>, QueryRejection>(
            QueryRejection::Deserialize(m),
        ),
{
    match parsed {
        Ok(v) => Ok(Query(v)),
        Err(m) => Err(QueryRejection::Deserialize(m)),
    }
}

impl<T> Query<T> {
    /// Read access to the wrapped value.
    pub fn get(&self) -> (r: &T)
        ensures
            r == self.0,
    {
        &self.0
    }

    /// Write access to the wrapped value: replaces it.
    pub fn set(&mut self, value: T)
        ensures
            final(self).0 == value,
    {
        self.0 = value;
    }

    /// Consumes the wrapper, yielding the wrapped value.
    pub fn into_inner(self) -> (r: T)
        ensures
            r == self.0,
    {
        self.0
    }
}

/// The container is transparent: wrapping a value and reading it back
/// through the field yields that value unchanged, so extraction alters a
/// successfully deserialized value in no way.
pub proof fn lemma_wrapper_transparent<T>(v: T)
    ensures
        Query(v).0 == v,
{
}

impl<T: serde::de::DeserializeOwned> Query<T> {
    /// Deserializes an already percent-decoded query string. The only error
    /// is a `Deserialize` rejection, raised when the deserializer cannot map
    /// the string onto `T`.
    pub fn try_from(query: &str) -> (r: Result<Query<T>, QueryRejection>)
        ensures
            r matches Err(e) ==> e is Deserialize,
    {
        query_from_parse_result(parse_query_str::<T>(query))
    }

    /// Extracts a value from the raw query component of a request URI:
    /// percent-decodes it (an absent or undecodable component counts as an
    /// empty query) and deserializes the result into `T`.
    pub fn from_query(raw: Option<&str>) -> (r: Result<Query<T>, QueryRejection>)
        ensures
            r matches Err(e) ==> e is Deserialize,
    {
        let decoded = decoded_query(raw);
        Query::<T>::try_from(decoded.as_str())
    }
}

} // verus!
