use vstd::prelude::*;

verus! {

use vstd::string::StringExecFns;

/// The one way extraction can fail: the decoded query string could not be
/// deserialized into the requested type. The payload is the deserializer's
/// rendered message.
#[derive(Debug, Clone, PartialEq, Eq)]
pub enum QueryRejection {
    Deserialize(String),
}

impl QueryRejection {
    /// The deserializer's message carried by this rejection, without the label.
    pub open spec fn spec_detail(&self) -> Seq<char> {
        match self {
            QueryRejection::Deserialize(m) => m@,
        }
    }

    /// The HTTP status code under which this rejection is reported:
    /// 400, Bad Request.
    pub fn status(&self) -> (code: u16)
        ensures
            code == 400,
    {
        400
    }

    /// The human-readable rendering: a fixed label naming the error source,
    /// followed by the deserializer's message.
    pub fn message(&self) -> (m: String)
        ensures
            m@ == "Deserialize querystring: "@ + self.spec_detail(),
    {
        match self {
            QueryRejection::Deserialize(detail) => String::from_str(
                "Deserialize querystring: ",
            ).concat(detail.as_str()),
        }
    }
}

} // verus!
