//! What holds of every retrieval, proved from the definitions of the other
//! modules.

use vstd::prelude::*;
use crate::json::{json_document, json_encoded};
use crate::metrics::{counted, COUNTER_LIMIT};
use crate::outcome::{failure_reply, reply_for, Outcome};
use crate::query::{is_search_for, SearchRequest};
use crate::selector::{
    hit_documents, is_success, outcome_of, parsed_body, select_spec, BackendReply,
};

verus! {

/// A successful response whose first hit has content is `Found` with that
/// content, whatever the later hits hold.
pub proof fn lemma_first_hit_is_found(
    status: u16,
    body: String,
    hits: Seq<Option<Seq<char>>>,
    content: Seq<char>,
)
    requires
        is_success(status),
        parsed_body(body@) == Some(hits),
        hits.len() >= 1,
        hits[0] == Some(content),
    ensures
        outcome_of(BackendReply::Answered { status, body }) == Outcome::Found(content),
{
}

/// Among hits, the first decides alone: two sequences that start with the
/// same hit select the same outcome.
pub proof fn lemma_later_hits_are_ignored(
    first: Seq<Option<Seq<char>>>,
    second: Seq<Option<Seq<char>>>,
)
    requires
        first.len() >= 1,
        second.len() >= 1,
        first[0] == second[0],
    ensures
        select_spec(first) == select_spec(second),
{
}

/// A successful response without hits is `NotFound`, and so no
/// `BackendError`.
pub proof fn lemma_no_hits_is_not_found(status: u16, body: String)
    requires
        is_success(status),
        parsed_body(body@) is Some,
        parsed_body(body@)->Some_0.len() == 0,
    ensures
        outcome_of(BackendReply::Answered { status, body }) == Outcome::NotFound,
        outcome_of(BackendReply::Answered { status, body }) != Outcome::BackendError,
{
}

/// Whether a reply is a failure of the backend: a request that failed on
/// the way, a status other than success, or a successful status with a body
/// that is no search result.
pub open spec fn is_backend_failure(reply: BackendReply) -> bool {
    match reply {
        BackendReply::TransportFailure => true,
        BackendReply::Answered { status, body } => !is_success(status) || parsed_body(body@) is None,
    }
}

/// A failure of the backend is `BackendError`, and so no `NotFound`.
pub proof fn lemma_failure_is_backend_error(reply: BackendReply)
    requires
        is_backend_failure(reply),
    ensures
        outcome_of(reply) == Outcome::BackendError,
        outcome_of(reply) != Outcome::NotFound,
        reply_for(outcome_of(reply)) == failure_reply(),
{
}

/// A successful status does not make a search result: a body that is no
/// JSON, and a document without a hit array under `hits`, `hits`, are
/// `BackendError`, never `NotFound`.
pub proof fn lemma_body_without_hit_array_is_backend_error(status: u16, body: String)
    requires
        is_success(status),
        match json_document(body@) {
            Some(document) => hit_documents(document) is None,
            None => true,
        },
    ensures
        outcome_of(BackendReply::Answered { status, body }) == Outcome::BackendError,
        reply_for(outcome_of(BackendReply::Answered { status, body })) == failure_reply(),
{
}

/// `NotFound` comes of one thing only: a successful response whose hit
/// array is there and empty.
pub proof fn lemma_not_found_only_for_empty_hit_array(reply: BackendReply)
    ensures
        outcome_of(reply) == Outcome::NotFound <==> match reply {
            BackendReply::TransportFailure => false,
            BackendReply::Answered { status, body } => {
                &&& is_success(status)
                &&& parsed_body(body@) is Some
                &&& parsed_body(body@)->Some_0.len() == 0
            },
        },
{
}

/// A hit without content at the head of a successful response is
/// `BackendError`.
pub proof fn lemma_hit_without_content_is_backend_error(
    status: u16,
    body: String,
    hits: Seq<Option<Seq<char>>>,
)
    requires
        is_success(status),
        parsed_body(body@) == Some(hits),
        hits.len() >= 1,
        hits[0] is None,
    ensures
        outcome_of(BackendReply::Answered { status, body }) == Outcome::BackendError,
{
}

/// The outcome depends on the backend's answer alone: two replies with the
/// same status and the same body text, or two transport failures, have the
/// same outcome and the same reply to the caller.
pub proof fn lemma_same_answer_same_outcome(first: BackendReply, second: BackendReply)
    requires
        match (first, second) {
            (BackendReply::TransportFailure, BackendReply::TransportFailure) => true,
            (
                BackendReply::Answered { status: s1, body: b1 },
                BackendReply::Answered { status: s2, body: b2 },
            ) => s1 == s2 && b1@ == b2@,
            _ => false,
        },
    ensures
        outcome_of(first) == outcome_of(second),
        reply_for(outcome_of(first)) == reply_for(outcome_of(second)),
{
}

/// The search depends on the snippet alone: two requests built for the
/// same snippet search the same index with the same body.
pub proof fn lemma_same_snippet_same_search(
    snippet: Seq<char>,
    first: SearchRequest,
    second: SearchRequest,
)
    requires
        is_search_for(first, json_encoded(snippet)),
        is_search_for(second, json_encoded(snippet)),
    ensures
        first.index@ == second.index@,
        first.body@ == second.body@,
{
}

/// Every request is counted once, whatever comes of it: below the
/// counter's limit the count after a request is the count before plus one,
/// and the count never falls.
pub proof fn lemma_request_counts_once(before: u64)
    ensures
        before < COUNTER_LIMIT ==> counted(before) == before + 1,
        counted(before) >= before,
{
}

/// Every outcome has a reply, and only `BackendError` is a server failure;
/// the other replies are successes with a body.
pub proof fn lemma_reply_status(outcome: Outcome)
    ensures
        outcome == Outcome::BackendError <==> reply_for(outcome) == failure_reply(),
        outcome != Outcome::BackendError <==> reply_for(outcome).status == 200,
        reply_for(outcome).status == 200 <==> reply_for(outcome).body is Some,
{
}

} // verus!
