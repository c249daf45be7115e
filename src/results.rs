use vstd::prelude::*;

verus! {

#[verifier::external_type_specification]
#[verifier::external_body]
pub struct ExInvalidHeaderName(hyper::header::InvalidHeaderName);

#[verifier::external_type_specification]
#[verifier::external_body]
pub struct ExInvalidHeaderValue(hyper::header::InvalidHeaderValue);

#[verifier::external_type_specification]
#[verifier::external_body]
pub struct ExSerdeError(serde_json::Error);

#[verifier::external_type_specification]
#[verifier::external_body]
pub struct ExFromUtf8Error(std::string::FromUtf8Error);

#[verifier::external_type_specification]
#[verifier::external_body]
pub struct ExHyperError(hyper::Error);

#[verifier::external_type_specification]
#[verifier::external_body]
pub struct ExHttpError(hyper::http::Error);

#[verifier::external_type_specification]
#[verifier::external_body]
pub struct ExReqwestError(reqwest::Error);

#[verifier::external_type_specification]
#[verifier::external_body]
pub struct ExUrlParseError(url::ParseError);

#[verifier::external_type_specification]
#[verifier::external_body]
pub struct ExReqwasmError(reqwasm::Error);

#[verifier::external_type_specification]
#[verifier::external_body]
pub struct ExJsValue(wasm_bindgen::JsValue);

/// A header that the transport's grammar refuses; the request is never sent.
#[derive(Debug)]
pub enum HeaderError {
    Name(hyper::header::InvalidHeaderName),
    Value(hyper::header::InvalidHeaderValue),
}

/// The cause reported by the network backend that carried (or failed to carry) a request.
#[derive(Debug)]
pub enum Engine {
    Hyper(hyper::Error),
    HyperHttp(hyper::http::Error),
    Reqwest(reqwest::Error),
    Url(url::ParseError),
    Reqwasm(reqwasm::Error),
    Js(wasm_bindgen::JsValue),
    /// No response came within the configured number of seconds.
    Timeout(u64),
}

/// Every way a request can fail, one variant per origin.
#[derive(Debug)]
pub enum DeltaError {
    /// The round trip succeeded but the status was neither 200 nor 204: the status and the body text.
    Http(u16, String),
    /// A 200 body that the structured-format parser refused.
    Serde(serde_json::Error),
    /// A body that had to be read as text is not UTF-8.
    Byte(std::string::FromUtf8Error),
    /// A header refused before anything was sent.
    Header(HeaderError),
    /// The transport itself failed.
    Engine(Engine),
}

} // verus!
