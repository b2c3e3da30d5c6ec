//! From a snippet to the one search request that is sent for it.

use vstd::prelude::*;
use vstd::string::*;
use crate::json::{encode, json_encoded};

verus! {

/// A question about the code: the snippet to search for and the file it
/// came from. The snippet may be any text, the empty one included. The file
/// path is carried along and plays no part in the search.
#[derive(Clone, Debug, PartialEq, Eq)]
pub struct AskRequest {
    pub snippet: String,
    pub file_path: String,
}

/// One search to send to the backend: the index to search and the JSON body
/// of the query.
#[derive(Clone, Debug, PartialEq, Eq)]
pub struct SearchRequest {
    pub index: String,
    pub body: String,
}

/// The name of the index that every search goes to.
pub open spec fn index_name() -> Seq<char> {
    "codebase"@
}

/// The body of a match query on the `content` field for an encoded snippet.
pub open spec fn match_query_body(encoded: Seq<char>) -> Seq<char> {
    "{\"query\":{\"match\":{\"content\":"@ + encoded + "}}}"@
}

/// Whether a request is the content-match search for an encoded snippet.
pub open spec fn is_search_for(request: SearchRequest, encoded: Seq<char>) -> bool {
    &&& request.index@ == index_name()
    &&& request.body@ == match_query_body(encoded)
}

impl SearchRequest {
    /// The content-match search for a snippet that is already encoded as a
    /// JSON string literal.
    pub fn for_encoded(encoded: &str) -> (request: SearchRequest)
        ensures
            is_search_for(request, encoded@),
    {
        let body = String::from_str("{\"query\":{\"match\":{\"content\":").concat(encoded).concat(
            "}}}",
        );
        SearchRequest { index: String::from_str("codebase"), body }
    }

    /// The content-match search for a snippet: the snippet, whatever it
    /// holds, is encoded as a JSON string and placed in the query.
    pub fn for_snippet(snippet: &str) -> (request: SearchRequest)
        ensures
            is_search_for(request, json_encoded(snippet@)),
    {
        let literal = encode(snippet);
        SearchRequest::for_encoded(literal.as_str())
    }
}

impl AskRequest {
    /// The search to send for this question. Only the snippet decides it.
    pub fn search_request(&self) -> (request: SearchRequest)
        ensures
            is_search_for(request, json_encoded(self.snippet@)),
    {
        SearchRequest::for_snippet(self.snippet.as_str())
    }
}

} // verus!
