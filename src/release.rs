//! Interpretation of the release-metadata response.
//!
//! The HTTP exchange happens elsewhere; this module turns its outcome (a
//! status code and the body bytes) into version information or a typed error.
use vstd::prelude::*;
use vstd::string::StringExecFns;
use crate::text::concat_str;

verus! {

/// Whether serde_json accepts `doc` as one well-formed JSON document.
pub uninterp spec fn json_accepts(doc: Seq<u8>) -> bool;

/// The string held by member `key` of the JSON document `doc`, or `None`
/// where `doc` is not an object, lacks the member, or the member is no string.
pub uninterp spec fn json_string_member(doc: Seq<u8>, key: Seq<char>) -> Option<Seq<char>>;

/// The characters of an optional string.
pub open spec fn opt_chars(o: Option<String>) -> Option<Seq<char>> {
    match o {
        Some(s) => Some(s@),
        None => None,
    }
}

/// Relies on serde_json::from_slice into a serde_json::Value, on indexing a
/// Value by a key (which yields Null for a missing member or a non-object),
/// and on Value::as_str: parses `doc` once and reads each key's string member.
/// A rejected document gives serde_json::Error's Display text, which for an
/// error of from_slice always names the line and column where parsing failed.
#[verifier::external_body]
fn json_string_members(doc: &[u8], keys: &Vec<String>) -> (r: Result<Vec<Option<String>>, String>)
    ensures
        r is Ok <==> json_accepts(doc@),
        r is Ok ==> r->Ok_0.len() == keys.len(),
        r is Ok ==> forall|i: int| 0 <= i < keys.len()
            ==> #[trigger] opt_chars(r->Ok_0[i]) == json_string_member(doc@, keys[i]@),
        r is Err ==> r->Err_0@.len() > 0,
{
    let v: serde_json::Value = serde_json::from_slice(doc).map_err(|e| e.to_string())?;
    Ok(keys.iter().map(|k| v[k.as_str()].as_str().map(|s| s.to_string())).collect())
}

/// An HTTP status code: one of 100 to 999.
pub open spec fn is_http_status(code: u16) -> bool {
    100 <= code && code <= 999
}

/// How the HTTP crate prints status `code`: the code followed by its reason
/// phrase, such as `404 Not Found`.
pub uninterp spec fn status_text(code: u16) -> Seq<char>;

/// Relies on reqwest::StatusCode::from_u16, which accepts exactly the codes
/// 100 to 999, and on StatusCode's Display impl for the printed form.
#[verifier::external_body]
fn status_display(code: u16) -> (r: Option<String>)
    ensures
        r is Some <==> is_http_status(code),
        r is Some ==> r->Some_0@ == status_text(code),
{
    reqwest::StatusCode::from_u16(code).ok().map(|s| s.to_string())
}

/// Version and release notes of the latest published release.
#[derive(Debug, PartialEq, Eq)]
pub struct VersionInfo {
    pub version: String,
    pub release_notes: String,
}

/// Why the latest release could not be learned.
#[derive(Debug, PartialEq, Eq)]
pub enum FetchError {
    /// The request did not complete; the transport's description.
    RequestFailed(String),
    /// The server answered with a status outside the success range; the
    /// status as the HTTP crate prints it.
    ApiStatus(String),
    /// The body was not well-formed JSON; the parser's description, which
    /// is never empty.
    JsonParse(String),
}

pub const TAG_NAME_KEY: &'static str = "tag_name";
pub const BODY_KEY: &'static str = "body";
pub const MISSING_VERSION: &'static str = "Missing version";
pub const MISSING_NOTES: &'static str = "No release notes available";

/// A status code in the success range `200..=299`.
pub open spec fn is_success_status(code: u16) -> bool {
    200 <= code && code <= 299
}

/// The string, or the placeholder where there is none.
pub open spec fn or_placeholder(o: Option<Seq<char>>, placeholder: Seq<char>) -> Seq<char> {
    match o {
        Some(s) => s,
        None => placeholder,
    }
}

/// The version reported by a well-formed release document.
pub open spec fn release_version(doc: Seq<u8>) -> Seq<char> {
    or_placeholder(json_string_member(doc, TAG_NAME_KEY@), MISSING_VERSION@)
}

/// The release notes reported by a well-formed release document.
pub open spec fn release_notes(doc: Seq<u8>) -> Seq<char> {
    or_placeholder(json_string_member(doc, BODY_KEY@), MISSING_NOTES@)
}

fn or_placeholder_exec(o: Option<String>, placeholder: &str) -> (r: String)
    ensures
        r@ == or_placeholder(opt_chars(o), placeholder@),
{
    match o {
        Some(s) => s,
        None => String::from_str(placeholder),
    }
}

/// Interprets a release-metadata response with HTTP status `status` and body
/// `body`. A success status with a well-formed body gives the document's
/// `tag_name` and `body` strings, each replaced by its placeholder where it is
/// missing or not a string; any other status gives `ApiStatus` with the
/// status's printed form; a body that is not JSON gives `JsonParse` with a
/// description that is not empty.
pub fn release_info_from_response(status: u16, body: &[u8]) -> (r: Result<VersionInfo, FetchError>)
    requires
        is_http_status(status),
    ensures
        !is_success_status(status) ==> (r is Err && r->Err_0 is ApiStatus
            && r->Err_0->ApiStatus_0@ == status_text(status)),
        is_success_status(status) && !json_accepts(body@) ==> (r is Err && r->Err_0 is JsonParse
            && r->Err_0->JsonParse_0@.len() > 0),
        is_success_status(status) && json_accepts(body@) ==> (r is Ok
            && r->Ok_0.version@ == release_version(body@)
            && r->Ok_0.release_notes@ == release_notes(body@)),
{
    if status < 200 || status > 299 {
        let text = status_display(status).unwrap();
        return Err(FetchError::ApiStatus(text));
    }
    let mut keys: Vec<String> = Vec::new();
    keys.push(String::from_str(TAG_NAME_KEY));
    keys.push(String::from_str(BODY_KEY));
    match json_string_members(body, &keys) {
        Ok(mut vals) => {
            assert(opt_chars(vals[0]) == json_string_member(body@, keys[0]@));
            assert(opt_chars(vals[1]) == json_string_member(body@, keys[1]@));
            let notes = vals.pop().unwrap();
            let version = vals.pop().unwrap();
            Ok(VersionInfo {
                version: or_placeholder_exec(version, MISSING_VERSION),
                release_notes: or_placeholder_exec(notes, MISSING_NOTES),
            })
        },
        Err(message) => Err(FetchError::JsonParse(message)),
    }
}

pub const REQUEST_FAILED_TITLE: &'static str = "Request Failed";
pub const API_ERROR_TITLE: &'static str = "API Error";
pub const JSON_ERROR_TITLE: &'static str = "JSON Parse Error";
pub const REQUEST_FAILED_PREFIX: &'static str = "Network error: ";
pub const API_ERROR_PREFIX: &'static str = "API returned status: ";
pub const JSON_ERROR_PREFIX: &'static str = "Error parsing response: ";

impl FetchError {
    /// The headline shown in place of a version.
    pub open spec fn title(self) -> Seq<char> {
        match self {
            FetchError::RequestFailed(_) => REQUEST_FAILED_TITLE@,
            FetchError::ApiStatus(_) => API_ERROR_TITLE@,
            FetchError::JsonParse(_) => JSON_ERROR_TITLE@,
        }
    }

    /// The explanation shown in place of release notes.
    pub open spec fn message(self) -> Seq<char> {
        match self {
            FetchError::RequestFailed(m) => REQUEST_FAILED_PREFIX@ + m@,
            FetchError::ApiStatus(t) => API_ERROR_PREFIX@ + t@,
            FetchError::JsonParse(m) => JSON_ERROR_PREFIX@ + m@,
        }
    }

    /// The headline and the explanation, for display in place of a version
    /// and its release notes.
    pub fn describe(&self) -> (r: (String, String))
        ensures
            r.0@ == self.title(),
            r.1@ == self.message(),
    {
        match self {
            FetchError::RequestFailed(m) => (
                String::from_str(REQUEST_FAILED_TITLE),
                concat_str(REQUEST_FAILED_PREFIX, m.as_str()),
            ),
            FetchError::ApiStatus(t) => (
                String::from_str(API_ERROR_TITLE),
                concat_str(API_ERROR_PREFIX, t.as_str()),
            ),
            FetchError::JsonParse(m) => (
                String::from_str(JSON_ERROR_TITLE),
                concat_str(JSON_ERROR_PREFIX, m.as_str()),
            ),
        }
    }
}

/// The pair shown to the user for a fetch outcome: the version and notes on
/// success, else the error's headline and explanation.
pub open spec fn shown_pair(r: Result<VersionInfo, FetchError>) -> (Seq<char>, Seq<char>) {
    match r {
        Ok(info) => (info.version@, info.release_notes@),
        Err(e) => (e.title(), e.message()),
    }
}

/// The version and notes to display for a fetch outcome.
pub fn display_pair(r: Result<VersionInfo, FetchError>) -> (p: (String, String))
    ensures
        (p.0@, p.1@) == shown_pair(r),
{
    match r {
        Ok(info) => (info.version, info.release_notes),
        Err(e) => e.describe(),
    }
}

/// The version and notes to display for a release-metadata response with
/// status `status` and body `body`.
pub fn fetch_latest_version_info(status: u16, body: &[u8]) -> (p: (String, String))
    requires
        is_http_status(status),
    ensures
        is_success_status(status) && json_accepts(body@)
            ==> p.0@ == release_version(body@) && p.1@ == release_notes(body@),
        is_success_status(status) && json_accepts(body@) && json_string_member(body@, TAG_NAME_KEY@) is Some
            ==> p.0@ == json_string_member(body@, TAG_NAME_KEY@)->Some_0,
        is_success_status(status) && json_accepts(body@) && json_string_member(body@, TAG_NAME_KEY@) is None
            ==> p.0@ == MISSING_VERSION@,
        is_success_status(status) && json_accepts(body@) && json_string_member(body@, BODY_KEY@) is Some
            ==> p.1@ == json_string_member(body@, BODY_KEY@)->Some_0,
        is_success_status(status) && json_accepts(body@) && json_string_member(body@, BODY_KEY@) is None
            ==> p.1@ == MISSING_NOTES@,
        is_success_status(status) && !json_accepts(body@)
            ==> p.0@ == JSON_ERROR_TITLE@ && exists|m: Seq<char>| m.len() > 0 && p.1@ == JSON_ERROR_PREFIX@ + m,
        !is_success_status(status)
            ==> p.0@ == API_ERROR_TITLE@ && p.1@ == API_ERROR_PREFIX@ + status_text(status),
{
    display_pair(release_info_from_response(status, body))
}

} // verus!
