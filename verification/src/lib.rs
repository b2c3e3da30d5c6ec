//! Context retrieval for an editor assistant: a snippet of text becomes one
//! content-match search against the `codebase` index, and whatever the search
//! backend answers becomes exactly one of three outcomes.
//!
//! The network, the HTTP server and the metrics exposition stay with the
//! program that embeds this library. It hands over plain values (a snippet, a
//! status code, a response body) and gets plain values back (the request to
//! send, the reply to give).

pub mod json;
pub mod laws;
pub mod metrics;
pub mod outcome;
pub mod query;
pub mod selector;
pub mod service;

pub use json::{json_document, json_elements, json_encoded, json_member, json_text};
pub use metrics::{
    counter_accepted, counter_value, exposition_text, metric_kind, MetricKind, Metrics,
    MetricsError,
};
pub use outcome::{HttpReply, Outcome, ReplyModel, RetrievalOutcome};
pub use query::{AskRequest, SearchRequest};
pub use selector::{BackendReply, Hit, SearchResult};
