//! The two halves of serving a question, with the search itself left to the
//! caller in between.

use vstd::prelude::*;
use vstd::string::*;
use crate::json::json_encoded;
use crate::metrics::{counted, Metrics};
use crate::outcome::{ok_reply, reply_for, HttpReply};
use crate::query::{is_search_for, AskRequest, SearchRequest};
use crate::selector::{outcome_of, BackendReply};

verus! {

/// Takes in a question: counts the request, before anything else is
/// decided, and gives the one search to send for it, a content match for
/// the snippet on the `codebase` index. The search is attempted once; what
/// comes back goes to `finish_ask`.
pub fn begin_ask(metrics: &mut Metrics, request: &AskRequest) -> (search: SearchRequest)
    ensures
        final(metrics).total() == counted(old(metrics).total()),
        final(metrics).exported() == final(metrics).total(),
        is_search_for(search, json_encoded(request.snippet@)),
{
    metrics.record_request();
    request.search_request()
}

/// Ends a question: turns what the backend said into the reply for the
/// caller.
pub fn finish_ask(reply: &BackendReply) -> (response: HttpReply)
    ensures
        response@ == reply_for(outcome_of(*reply)),
{
    reply.outcome().respond()
}

/// The body of the reply to an assist request.
pub open spec fn assist_body() -> Seq<char> {
    "\"Assistance response based on the current project.\""@
}

/// Takes in an assist request: counts it and gives the fixed reply. The
/// payload of the request is not looked at.
pub fn assist(metrics: &mut Metrics) -> (response: HttpReply)
    ensures
        final(metrics).total() == counted(old(metrics).total()),
        final(metrics).exported() == final(metrics).total(),
        response@ == ok_reply(assist_body()),
{
    metrics.record_request();
    HttpReply::json(String::from_str("\"Assistance response based on the current project.\""))
}

} // verus!
