//! Version reconciliation: decide from a release-endpoint response body
//! whether the running version is current. Retrieval failures and malformed
//! bodies never surface as errors; they collapse into the `Unknown` status,
//! with the cause kept alongside for diagnostics.

use vstd::prelude::*;

verus! {

/// The tri-state outcome of an update check.
#[derive(Clone, Copy, PartialEq, Eq, Structural, Debug)]
pub enum UpdateStatus {
    /// the running version equals the latest released tag
    UpToDate,
    /// the running version differs from the latest released tag
    OutOfDate,
    /// no check has succeeded yet
    Unknown,
}

/// A failure that prevented a response body from arriving at all. The caller
/// performing the request reports which kind it saw.
#[derive(Clone, Copy, PartialEq, Eq, Structural, Debug)]
pub enum TransportFailure {
    /// the connection could not be established or broke
    Connection,
    /// the request outlived the configured timeout
    Timeout,
}

/// The cause behind an `Unknown` status, kept for diagnostic logging only.
#[derive(Clone, Copy, PartialEq, Eq, Structural, Debug)]
pub enum CheckFailure {
    /// the request failed at the transport level
    Network,
    /// the request outlived the configured timeout
    Timeout,
    /// the body was not a JSON document
    Deserialization,
    /// the document carried no string field named `tag_name`
    MissingField,
}

/// Why no tag could be taken from a body.
#[derive(Clone, Copy, PartialEq, Eq, Structural, Debug)]
pub enum TagError {
    /// the body does not parse as JSON
    NotJson,
    /// the document has no string field named `tag_name`
    MissingTag,
}

/// Whether the text parses as a JSON document. A pure function of the text.
pub uninterp spec fn json_wf(body: Seq<char>) -> bool;

/// The string field `tag_name` of the JSON document behind the text, or
/// nothing where the text does not parse or the field is absent or not a
/// string. A pure function of the text.
pub uninterp spec fn json_tag_name(body: Seq<char>) -> Option<Seq<char>>;

/// Relies on serde_json::from_str and serde_json::Value::{get, as_str}:
/// whether a text parses as JSON, and the content of its `tag_name` string
/// field, are functions of the text alone.
#[verifier::external_body]
pub fn extract_tag_name(body: &str) -> (r: Result<String, TagError>)
    ensures
        r matches Ok(tag) ==> json_wf(body@) && json_tag_name(body@) == Some(tag@),
        r matches Err(e) ==> json_tag_name(body@) is None && (e == TagError::NotJson <==> !json_wf(
            body@,
        )),
{
    let parsed: serde_json::Value = match serde_json::from_str(body) {
        Ok(v) => v,
        Err(_) => {
            return Err(TagError::NotJson);
        },
    };
    match parsed.get("tag_name") {
        Some(tag) => match tag.as_str() {
            Some(s) => Ok(s.to_string()),
            None => Err(TagError::MissingTag),
        },
        None => Err(TagError::MissingTag),
    }
}

/// `tag` with one leading `v` removed if present; the comparison key of a
/// release tag.
pub open spec fn strip_v(tag: Seq<char>) -> Seq<char> {
    if tag.len() > 0 && tag[0] == 'v' {
        tag.skip(1)
    } else {
        tag
    }
}

/// Strip one leading `v` from a release tag.
pub fn strip_leading_v(tag: &str) -> (r: String)
    ensures
        r@ == strip_v(tag@),
{
    let n = tag.unicode_len();
    if n > 0 && tag.get_char(0) == 'v' {
        let rest = tag.substring_char(1, n);
        proof {
            assert(rest@ =~= strip_v(tag@));
        }
        rest.to_owned()
    } else {
        tag.to_owned()
    }
}

/// The status that a retrieved tag determines: equal to the running version
/// after stripping one leading `v` means up to date, different means out of
/// date, and no usable tag means unknown.
pub open spec fn status_for_tag(tag: Option<Seq<char>>, running: Seq<char>) -> UpdateStatus {
    match tag {
        Some(t) => if strip_v(t) == running {
            UpdateStatus::UpToDate
        } else {
            UpdateStatus::OutOfDate
        },
        None => UpdateStatus::Unknown,
    }
}

/// The status that a whole check outcome determines: a transport failure or a
/// body without a usable tag resolves to unknown.
pub open spec fn status_of_response(
    response: Result<Seq<char>, TransportFailure>,
    running: Seq<char>,
) -> UpdateStatus {
    match response {
        Ok(body) => status_for_tag(json_tag_name(body), running),
        Err(_) => UpdateStatus::Unknown,
    }
}

/// The diagnostic cause a check outcome leaves behind: nothing on a
/// determined status, the precise failure otherwise.
pub open spec fn diag_of_response(response: Result<Seq<char>, TransportFailure>) -> Option<
    CheckFailure,
> {
    match response {
        Ok(body) => match json_tag_name(body) {
            Some(_) => None,
            None => if json_wf(body) {
                Some(CheckFailure::MissingField)
            } else {
                Some(CheckFailure::Deserialization)
            },
        },
        Err(TransportFailure::Connection) => Some(CheckFailure::Network),
        Err(TransportFailure::Timeout) => Some(CheckFailure::Timeout),
    }
}

/// Every failed retrieval and every malformed body resolves to `Unknown`, and
/// `Unknown` arises from nothing else: a check outcome leaves a diagnostic
/// cause exactly when it leaves the status undetermined.
pub proof fn lemma_failure_resolves_unknown(
    response: Result<Seq<char>, TransportFailure>,
    running: Seq<char>,
)
    ensures
        diag_of_response(response) is Some <==> status_of_response(response, running)
            is Unknown,
{
}

/// Decide the update status from a check outcome: the response body where one
/// arrived, or the transport failure that prevented one. Returns the status
/// and, where it is undetermined, the diagnostic cause.
pub fn decide_update_status(response: Result<&str, TransportFailure>, running: &str) -> (r: (
    UpdateStatus,
    Option<CheckFailure>,
))
    ensures
        r.0 == status_of_response(body_view(response), running@),
        r.1 == diag_of_response(body_view(response)),
{
    match response {
        Ok(body) => {
            match extract_tag_name(body) {
                Ok(tag) => {
                    let key = strip_leading_v(tag.as_str());
                    let running_owned = running.to_owned();
                    if key == running_owned {
                        (UpdateStatus::UpToDate, None)
                    } else {
                        (UpdateStatus::OutOfDate, None)
                    }
                },
                Err(TagError::NotJson) => (
                    UpdateStatus::Unknown,
                    Some(CheckFailure::Deserialization),
                ),
                Err(TagError::MissingTag) => (
                    UpdateStatus::Unknown,
                    Some(CheckFailure::MissingField),
                ),
            }
        },
        Err(TransportFailure::Connection) => (UpdateStatus::Unknown, Some(CheckFailure::Network)),
        Err(TransportFailure::Timeout) => (UpdateStatus::Unknown, Some(CheckFailure::Timeout)),
    }
}

/// The character sequences behind a check outcome.
pub open spec fn body_view(response: Result<&str, TransportFailure>) -> Result<
    Seq<char>,
    TransportFailure,
> {
    match response {
        Ok(body) => Ok(body@),
        Err(t) => Err(t),
    }
}

} // verus!
