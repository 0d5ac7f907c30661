//! What a driver asks the transport to send, and what the transport brings
//! back.

use crate::json::{Json, JsonTree};
use vstd::prelude::*;

verus! {

/// The method of a request.
#[derive(Debug, Clone, Copy, PartialEq, Eq, Structural)]
pub enum Method {
    Get,
    Post,
}

/// A request for the transport to send.
#[derive(Debug, PartialEq, Eq)]
pub struct HttpRequest {
    pub method: Method,
    pub url: String,
    /// The headers that the driver sets, as pairs of name and value.
    pub headers: Vec<(String, String)>,
    /// The JSON document to send as the body, if any.
    pub body: Option<Json>,
}

/// The mathematical model of an [`HttpRequest`].
pub ghost struct RequestModel {
    pub method: Method,
    pub url: Seq<char>,
    pub headers: Seq<(Seq<char>, Seq<char>)>,
    pub body: Option<JsonTree>,
}

/// The models of the headers `headers`.
pub open spec fn header_models(headers: Seq<(String, String)>) -> Seq<(Seq<char>, Seq<char>)> {
    Seq::new(headers.len(), |i: int| (headers[i].0@, headers[i].1@))
}

impl View for HttpRequest {
    type V = RequestModel;

    open spec fn view(&self) -> RequestModel {
        RequestModel {
            method: self.method,
            url: self.url@,
            headers: header_models(self.headers@),
            body: match self.body {
                Some(j) => Some(j@),
                None => None,
            },
        }
    }
}

/// What came of sending a request.
#[derive(Debug, PartialEq, Eq)]
pub enum HttpReply {
    /// The provider answered with a successful status and this body.
    Success { body: String },
    /// The provider answered with another status, and this body.
    Status { code: u16, body: String },
    /// No answer came: the connection failed or timed out.
    Failed { message: String },
}

/// The mathematical model of an [`HttpReply`].
pub ghost enum ReplyModel {
    Success { body: Seq<char> },
    Status { code: u16, body: Seq<char> },
    Failed { message: Seq<char> },
}

impl View for HttpReply {
    type V = ReplyModel;

    open spec fn view(&self) -> ReplyModel {
        match self {
            HttpReply::Success { body } => ReplyModel::Success { body: body@ },
            HttpReply::Status { code, body } => ReplyModel::Status { code: *code, body: body@ },
            HttpReply::Failed { message } => ReplyModel::Failed { message: message@ },
        }
    }
}

} // verus!
