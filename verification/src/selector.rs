//! From what the backend answered to one outcome.

use vstd::prelude::*;
use crate::json::{
    elements, json_document, json_elements, json_member, json_text, member, parse_document, text,
};
use crate::outcome::{Outcome, RetrievalOutcome};

verus! {

/// One hit of a search: the text of its `content` field, or `None` where the
/// hit has no such text.
#[derive(Clone, Debug, PartialEq, Eq)]
pub struct Hit {
    pub content: Option<String>,
}

impl View for Hit {
    type V = Option<Seq<char>>;

    open spec fn view(&self) -> Option<Seq<char>> {
        match self.content {
            Some(text) => Some(text@),
            None => None,
        }
    }
}

/// The hits of one search, best first, as the backend ranked them.
#[derive(Clone, Debug, PartialEq, Eq)]
pub struct SearchResult {
    pub hits: Vec<Hit>,
}

impl View for SearchResult {
    type V = Seq<Option<Seq<char>>>;

    open spec fn view(&self) -> Seq<Option<Seq<char>>> {
        Seq::new(self.hits@.len(), |i: int| self.hits@[i]@)
    }
}

/// What came back from the backend: nothing usable at the transport level,
/// or an HTTP status with a body.
#[derive(Clone, Debug, PartialEq, Eq)]
pub enum BackendReply {
    /// The request failed on the way: refused, timed out, cut off.
    TransportFailure,
    /// The backend answered.
    Answered { status: u16, body: String },
}

/// The outcome that a sequence of hits selects: none is `NotFound`;
/// otherwise the first decides alone, `Found` with its content, or
/// `BackendError` where it has none. Later hits are not looked at.
pub open spec fn select_spec(hits: Seq<Option<Seq<char>>>) -> Outcome {
    if hits.len() == 0 {
        Outcome::NotFound
    } else {
        match hits[0] {
            Some(content) => Outcome::Found(content),
            None => Outcome::BackendError,
        }
    }
}

/// Whether a status code reports success.
pub open spec fn is_success(status: u16) -> bool {
    200 <= status < 300
}

/// The content of a hit document: the text under `_source`, `content`.
pub open spec fn content_of(hit: serde_json::Value) -> Option<Seq<char>> {
    match json_member(hit, "_source"@) {
        Some(source) => match json_member(source, "content"@) {
            Some(content) => json_text(content),
            None => None,
        },
        None => None,
    }
}

/// The hit documents of a response document: the array under `hits`,
/// `hits`. `None` where the document has no such member, or where the
/// member is no array: such a document is no search result at all, which
/// is not the same as a search result without hits.
pub open spec fn hit_documents(document: serde_json::Value) -> Option<Seq<serde_json::Value>> {
    match json_member(document, "hits"@) {
        Some(outer) => match json_member(outer, "hits"@) {
            Some(inner) => json_elements(inner),
            None => None,
        },
        None => None,
    }
}

/// The hits among given hit documents, each with its content.
pub open spec fn contents_of(items: Seq<serde_json::Value>) -> Seq<Option<Seq<char>>> {
    Seq::new(items.len(), |i: int| content_of(items[i]))
}

/// The hits of a response document, each with its content; `None` where the
/// document holds no hit array.
pub open spec fn hits_of(document: serde_json::Value) -> Option<Seq<Option<Seq<char>>>> {
    match hit_documents(document) {
        Some(items) => Some(contents_of(items)),
        None => None,
    }
}

/// The outcome of a successful response, given what its body parsed to
/// (`None` where it is no search result).
pub open spec fn outcome_of_parsed(parsed: Option<Seq<Option<Seq<char>>>>) -> Outcome {
    match parsed {
        Some(hits) => select_spec(hits),
        None => Outcome::BackendError,
    }
}

/// The search result that a response body holds, `None` where the body is
/// no JSON or the document in it holds no hit array.
pub open spec fn parsed_body(body: Seq<char>) -> Option<Seq<Option<Seq<char>>>> {
    match json_document(body) {
        Some(document) => hits_of(document),
        None => None,
    }
}

/// The outcome of a backend reply: `BackendError` for a transport failure,
/// a status other than success, or a body that is no search result;
/// otherwise what the hits in the body select.
pub open spec fn outcome_of(reply: BackendReply) -> Outcome {
    match reply {
        BackendReply::TransportFailure => Outcome::BackendError,
        BackendReply::Answered { status, body } => if is_success(status) {
            outcome_of_parsed(parsed_body(body@))
        } else {
            Outcome::BackendError
        },
    }
}

impl Hit {
    /// Reads a hit from its document.
    pub fn from_document(hit: &serde_json::Value) -> (result: Hit)
        ensures
            result@ == content_of(*hit),
    {
        let content = match member(hit, "_source") {
            Some(source) => match member(source, "content") {
                Some(content) => match text(content) {
                    Some(s) => Some(s.to_owned()),
                    None => None,
                },
                None => None,
            },
            None => None,
        };
        Hit { content }
    }
}

impl SearchResult {
    /// Reads the hits from a response document, in the backend's order.
    /// `None` where the document holds no hit array.
    pub fn from_document(document: &serde_json::Value) -> (result: Option<SearchResult>)
        ensures
            match result {
                Some(found) => hits_of(*document) == Some(found@),
                None => hits_of(*document) is None,
            },
    {
        let items = match member(document, "hits") {
            Some(outer) => match member(outer, "hits") {
                Some(inner) => elements(inner),
                None => None,
            },
            None => None,
        };
        match items {
            Some(items) => {
                let mut hits: Vec<Hit> = Vec::new();
                let mut i: usize = 0;
                while i < items.len()
                    invariant
                        i <= items@.len(),
                        hits@.len() == i,
                        forall|k: int|
                            0 <= k < i ==> (#[trigger] hits@[k])@ == content_of(items@[k]),
                    decreases items@.len() - i,
                {
                    hits.push(Hit::from_document(&items[i]));
                    i = i + 1;
                }
                let found = SearchResult { hits };
                assert(found@ =~= contents_of(items@));
                Some(found)
            },
            None => None,
        }
    }

    /// Reads the hits from a response body. `None` where the body is no
    /// JSON, or holds no hit array.
    pub fn parse(body: &str) -> (result: Option<SearchResult>)
        ensures
            match result {
                Some(found) => parsed_body(body@) == Some(found@),
                None => parsed_body(body@) is None,
            },
    {
        match parse_document(body) {
            Ok(document) => SearchResult::from_document(&document),
            Err(_) => None,
        }
    }

    /// Selects the outcome of this result: `NotFound` without hits,
    /// otherwise `Found` with the content of the first hit, or
    /// `BackendError` where the first hit has no content.
    pub fn select(&self) -> (outcome: RetrievalOutcome)
        ensures
            outcome@ == select_spec(self@),
    {
        if self.hits.len() == 0 {
            RetrievalOutcome::NotFound
        } else {
            match &self.hits[0].content {
                Some(content) => RetrievalOutcome::Found(content.clone()),
                None => RetrievalOutcome::BackendError,
            }
        }
    }
}

impl BackendReply {
    /// The outcome of a successful response whose body has been read:
    /// `BackendError` where it was no search result, otherwise what its
    /// hits select.
    pub fn outcome_of_parsed(parsed: Option<&SearchResult>) -> (outcome: RetrievalOutcome)
        ensures
            outcome@ == outcome_of_parsed(
                match parsed {
                    Some(found) => Some(found@),
                    None => None,
                },
            ),
    {
        match parsed {
            Some(found) => found.select(),
            None => RetrievalOutcome::BackendError,
        }
    }

    /// Turns this reply into its outcome. A failure on the way, a status
    /// other than success and a body that is no search result are all
    /// `BackendError`; only a successful response with a hit array can be
    /// `Found` or `NotFound`.
    pub fn outcome(&self) -> (outcome: RetrievalOutcome)
        ensures
            outcome@ == outcome_of(*self),
    {
        match self {
            BackendReply::TransportFailure => RetrievalOutcome::BackendError,
            BackendReply::Answered { status, body } => {
                if 200 <= *status && *status < 300 {
                    let parsed = SearchResult::parse(body.as_str());
                    BackendReply::outcome_of_parsed(parsed.as_ref())
                } else {
                    RetrievalOutcome::BackendError
                }
            },
        }
    }
}

} // verus!
