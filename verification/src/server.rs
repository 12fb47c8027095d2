//! What the listener sends back for an outcome.

use crate::error::{outcome_view, ProxyError};
use vstd::prelude::*;
use vstd::string::*;

verus! {

/// The status of a response that carries a document.
pub const STATUS_OK: u16 = 200;

/// The status of a response that reports an error.
pub const STATUS_ERROR: u16 = 500;

/// A response as the listener sends it.
#[derive(Debug)]
pub struct Response {
    pub status: u16,
    /// The content type, where the body is a document.
    pub content_type: Option<String>,
    pub body: String,
}

/// A response as plain values.
pub struct ResponseModel {
    pub status: u16,
    pub content_type: Option<Seq<char>>,
    pub body: Seq<char>,
}

impl View for Response {
    type V = ResponseModel;

    open spec fn view(&self) -> ResponseModel {
        ResponseModel {
            status: self.status,
            content_type: self.content_type.deep_view(),
            body: self.body@,
        }
    }
}

/// The body that reports `e`.
pub open spec fn error_body(e: ProxyError) -> Seq<char> {
    "Error: "@ + e.message_spec()
}

/// The response to an outcome: the document as HTML, or the error in words.
pub open spec fn response_to(outcome: Result<Seq<char>, ProxyError>) -> ResponseModel {
    match outcome {
        Ok(document) => ResponseModel {
            status: STATUS_OK,
            content_type: Some("text/html"@),
            body: document,
        },
        Err(e) => ResponseModel { status: STATUS_ERROR, content_type: None, body: error_body(e) },
    }
}

/// Turns the outcome of a request into a response.
pub fn handle_request(outcome: Result<String, ProxyError>) -> (response: Response)
    ensures
        response@ == response_to(outcome_view(outcome)),
{
    match outcome {
        Ok(document) => Response {
            status: STATUS_OK,
            content_type: Some(String::from_str("text/html")),
            body: document,
        },
        Err(e) => {
            let mut body: String = String::from_str("Error: ");
            let detail: String = e.message();
            body.append(detail.as_str());
            Response { status: STATUS_ERROR, content_type: None, body }
        },
    }
}

} // verus!
