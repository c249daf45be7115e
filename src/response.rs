use vstd::prelude::*;
use vstd::utf8::*;
use crate::results::DeltaError;

verus! {

#[verifier::external_type_specification]
#[verifier::external_body]
pub struct ExJsonValue(serde_json::Value);

/// Whether the structured-format parser accepts these bytes as one JSON document.
pub uninterp spec fn json_accepts(b: Seq<u8>) -> bool;

/// Relies on serde_json's `from_slice`: whether it parses depends on the bytes alone.
#[verifier::external_body]
fn parse_json(data: &[u8]) -> (r: Result<serde_json::Value, serde_json::Error>)
    ensures
        r is Ok <==> json_accepts(data@),
{
    serde_json::from_slice(data)
}

/// Relies on std's `String::from_utf8`: it succeeds exactly on valid UTF-8 and then
/// holds the decoded characters.
#[verifier::external_body]
fn utf8_text(bytes: Vec<u8>) -> (r: Result<String, std::string::FromUtf8Error>)
    ensures
        valid_utf8(bytes@) ==> r is Ok && r->Ok_0@ == decode_utf8(bytes@),
        !valid_utf8(bytes@) ==> r is Err,
{
    String::from_utf8(bytes)
}

/// Which way a response goes, from its status alone.
pub enum Switch {
    /// The empty (null) result.
    Null,
    /// The body, to be decoded.
    Parse(Seq<u8>),
    /// A failure; the body, to be read as text.
    Failure(Seq<u8>),
}

pub open spec fn body_view(body: Option<Vec<u8>>) -> Option<Seq<u8>> {
    match body {
        Some(b) => Some(b@),
        None => None,
    }
}

/// The three-way switch: exactly 204, exactly 200, anything else.
pub open spec fn switch_of(status: u16, body: Option<Seq<u8>>) -> Switch {
    if status == 204 {
        Switch::Null
    } else if status == 200 {
        match body {
            Some(b) => Switch::Parse(b),
            None => Switch::Null,
        }
    } else {
        match body {
            Some(b) => Switch::Failure(b),
            None => Switch::Failure(Seq::empty()),
        }
    }
}

/// The error for a failing status: the status with the body text, or a `Byte`
/// error when the body is not UTF-8.
pub open spec fn failure_post(status: u16, bytes: Seq<u8>, e: DeltaError) -> bool {
    if valid_utf8(bytes) {
        e matches DeltaError::Http(s, t) && s == status && t@ == decode_utf8(bytes)
    } else {
        e is Byte
    }
}

/// What the byte-returning decoder gives for a response.
pub open spec fn bytes_post(status: u16, body: Option<Seq<u8>>, r: Result<Vec<u8>, DeltaError>) -> bool {
    match switch_of(status, body) {
        Switch::Null => r is Ok && r->Ok_0@ == Seq::<u8>::empty(),
        Switch::Parse(b) => r is Ok && r->Ok_0@ == b,
        Switch::Failure(b) => r is Err && failure_post(status, b, r->Err_0),
    }
}

/// What the structured decoder gives for a response.
pub open spec fn json_post(
    status: u16,
    body: Option<Seq<u8>>,
    r: Result<Option<serde_json::Value>, DeltaError>,
) -> bool {
    match switch_of(status, body) {
        Switch::Null => r matches Ok(None),
        Switch::Parse(b) => (r is Ok <==> json_accepts(b)) && (r is Ok ==> r->Ok_0 is Some) && (r
            is Err ==> r->Err_0 is Serde),
        Switch::Failure(b) => r is Err && failure_post(status, b, r->Err_0),
    }
}

fn failure(status: u16, body: Option<Vec<u8>>) -> (e: DeltaError)
    requires
        status != 200 && status != 204,
    ensures
        switch_of(status, body_view(body)) matches Switch::Failure(b) && failure_post(status, b, e),
{
    let bytes = match body {
        Some(b) => b,
        None => Vec::new(),
    };
    match utf8_text(bytes) {
        Ok(text) => DeltaError::Http(status, text),
        Err(e) => DeltaError::Byte(e),
    }
}

/// The raw-bytes decoder: the body on 200, nothing on 204, an error otherwise.
pub fn classify_bytes(status: u16, body: Option<Vec<u8>>) -> (r: Result<Vec<u8>, DeltaError>)
    ensures
        bytes_post(status, body_view(body), r),
{
    if status == 204 {
        Ok(Vec::new())
    } else if status == 200 {
        match body {
            Some(b) => Ok(b),
            None => Ok(Vec::new()),
        }
    } else {
        Err(failure(status, body))
    }
}

/// The structured decoder: the parsed body on 200, `None` (the null value) on 204
/// and on a 200 without body, an error otherwise.
pub fn classify_json(status: u16, body: Option<Vec<u8>>) -> (r: Result<Option<serde_json::Value>, DeltaError>)
    ensures
        json_post(status, body_view(body), r),
{
    if status == 204 {
        Ok(None)
    } else if status == 200 {
        match body {
            Some(b) => match parse_json(b.as_slice()) {
                Ok(v) => Ok(Some(v)),
                Err(e) => Err(DeltaError::Serde(e)),
            },
            None => Ok(None),
        }
    } else {
        Err(failure(status, body))
    }
}

/// A 204 response decodes to null whatever its body, and never to an error.
pub proof fn no_content_is_null(body: Option<Seq<u8>>, r: Result<Option<serde_json::Value>, DeltaError>)
    requires
        json_post(204, body, r),
    ensures
        r matches Ok(None),
{
}

/// A 200 body that the parser refuses gives a decode error, never an `Http` one.
pub proof fn unparsable_ok_body_is_decode_error(
    b: Seq<u8>,
    r: Result<Option<serde_json::Value>, DeltaError>,
)
    requires
        json_post(200, Some(b), r),
        !json_accepts(b),
    ensures
        r matches Err(DeltaError::Serde(_)),
{
}

/// Any status but 200 and 204 gives an `Http` error with that status and the body
/// text, whether or not the text is itself valid JSON.
pub proof fn failing_status_carries_text(
    status: u16,
    b: Seq<u8>,
    r: Result<Option<serde_json::Value>, DeltaError>,
)
    requires
        status != 200 && status != 204,
        valid_utf8(b),
        json_post(status, Some(b), r),
    ensures
        r matches Err(DeltaError::Http(s, t)) && s == status && t@ == decode_utf8(b),
{
}

/// A 200 body goes to the parser unchanged: the decode succeeds exactly when the
/// parser accepts those bytes.
pub proof fn ok_body_goes_to_parser(b: Seq<u8>, r: Result<Option<serde_json::Value>, DeltaError>)
    requires
        json_post(200, Some(b), r),
    ensures
        r is Ok <==> json_accepts(b),
{
}

} // verus!
