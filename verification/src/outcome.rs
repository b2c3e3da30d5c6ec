//! The three outcomes of a retrieval, and the reply that each one becomes.

use vstd::prelude::*;
use vstd::string::*;
use crate::json::{encode, json_encoded};

verus! {

/// The mathematical value of a `RetrievalOutcome`.
pub ghost enum Outcome {
    Found(Seq<char>),
    NotFound,
    BackendError,
}

/// What a retrieval came to. Every path through the library ends in one of
/// these; no failure of the backend reaches the caller in another shape.
#[derive(Clone, Debug, PartialEq, Eq)]
pub enum RetrievalOutcome {
    /// The content of the first hit.
    Found(String),
    /// The backend answered, with no hit.
    NotFound,
    /// The backend could not be reached, reported a failure, or answered
    /// with something that is no usable search result.
    BackendError,
}

impl View for RetrievalOutcome {
    type V = Outcome;

    open spec fn view(&self) -> Outcome {
        match self {
            RetrievalOutcome::Found(content) => Outcome::Found(content@),
            RetrievalOutcome::NotFound => Outcome::NotFound,
            RetrievalOutcome::BackendError => Outcome::BackendError,
        }
    }
}

/// The mathematical value of an `HttpReply`.
pub ghost struct ReplyModel {
    pub status: int,
    pub content_type: Option<Seq<char>>,
    pub body: Option<Seq<char>>,
}

/// The reply handed back to the HTTP layer: a status code and, where there
/// is one, a body with its content type.
#[derive(Clone, Debug, PartialEq, Eq)]
pub struct HttpReply {
    pub status: u16,
    pub content_type: Option<String>,
    pub body: Option<String>,
}

impl View for HttpReply {
    type V = ReplyModel;

    open spec fn view(&self) -> ReplyModel {
        ReplyModel {
            status: self.status as int,
            content_type: match self.content_type {
                Some(text) => Some(text@),
                None => None,
            },
            body: match self.body {
                Some(text) => Some(text@),
                None => None,
            },
        }
    }
}

/// The status of a reply that carries a result.
pub const STATUS_OK: u16 = 200;

/// The status of the reply to a backend error.
pub const STATUS_SERVER_FAILURE: u16 = 500;

/// The content type of a reply that carries JSON.
pub open spec fn json_content_type() -> Seq<char> {
    "application/json"@
}

/// The body that tells the caller that nothing relevant was found.
pub open spec fn not_found_body() -> Seq<char> {
    "{\"result\":\"No relevant context found.\"}"@
}

/// The body that wraps an encoded JSON value as the `result` member of an
/// object.
pub open spec fn result_body(encoded: Seq<char>) -> Seq<char> {
    "{\"result\":"@ + encoded + "}"@
}

/// The reply to a backend error: a server failure without a body, so that
/// nothing of the failure's detail reaches the caller.
pub open spec fn failure_reply() -> ReplyModel {
    ReplyModel { status: 500, content_type: None, body: None }
}

/// The successful reply with a given JSON body.
pub open spec fn ok_reply(body: Seq<char>) -> ReplyModel {
    ReplyModel { status: 200, content_type: Some(json_content_type()), body: Some(body) }
}

/// The reply for an outcome: the found content, encoded, as the result; a
/// fixed message where nothing was found; a bare server failure for a
/// backend error.
pub open spec fn reply_for(outcome: Outcome) -> ReplyModel {
    match outcome {
        Outcome::Found(content) => ok_reply(result_body(json_encoded(content))),
        Outcome::NotFound => ok_reply(not_found_body()),
        Outcome::BackendError => failure_reply(),
    }
}

impl HttpReply {
    /// The reply to a backend error.
    pub fn failure() -> (reply: HttpReply)
        ensures
            reply@ == failure_reply(),
    {
        HttpReply { status: STATUS_SERVER_FAILURE, content_type: None, body: None }
    }

    /// The successful reply with a given JSON body.
    pub fn json(body: String) -> (reply: HttpReply)
        ensures
            reply@ == ok_reply(body@),
    {
        HttpReply {
            status: STATUS_OK,
            content_type: Some(String::from_str("application/json")),
            body: Some(body),
        }
    }

    /// The successful reply that wraps an already encoded JSON value as
    /// `{"result":<value>}`.
    pub fn with_result(encoded: &str) -> (reply: HttpReply)
        ensures
            reply@ == ok_reply(result_body(encoded@)),
    {
        HttpReply::json(String::from_str("{\"result\":").concat(encoded).concat("}"))
    }

    /// The successful reply that says that nothing relevant was found.
    pub fn not_found() -> (reply: HttpReply)
        ensures
            reply@ == ok_reply(not_found_body()),
    {
        HttpReply::json(String::from_str("{\"result\":\"No relevant context found.\"}"))
    }
}

impl RetrievalOutcome {
    /// The reply for this outcome: the found content as `{"result":..}`, a
    /// fixed message where nothing was found, and a bare server failure for
    /// a backend error.
    pub fn respond(&self) -> (reply: HttpReply)
        ensures
            reply@ == reply_for(self@),
    {
        match self {
            RetrievalOutcome::Found(content) => {
                let literal = encode(content.as_str());
                HttpReply::with_result(literal.as_str())
            },
            RetrievalOutcome::NotFound => HttpReply::not_found(),
            RetrievalOutcome::BackendError => HttpReply::failure(),
        }
    }
}

} // verus!
