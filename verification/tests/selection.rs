use context_retrieval::selector::{BackendReply, Hit, SearchResult};
use context_retrieval::outcome::RetrievalOutcome;

fn answered(status: u16, body: &str) -> BackendReply {
    BackendReply::Answered { status, body: body.to_string() }
}

fn hit(content: &str) -> Hit {
    Hit { content: Some(content.to_string()) }
}

#[test]
fn found_takes_the_content_of_the_first_hit() {
    let body = r#"{"hits":{"hits":[{"_source":{"content":"function parseConfig() {...}"}}]}}"#;
    assert_eq!(
        answered(200, body).outcome(),
        RetrievalOutcome::Found("function parseConfig() {...}".to_string())
    );
}

#[test]
fn later_hits_are_discarded() {
    let body = r#"{"hits":{"total":3,"hits":[
        {"_score":2.5,"_source":{"content":"first"}},
        {"_score":1.5,"_source":{"content":"second"}},
        {"_score":0.5,"_source":{}}
    ]}}"#;
    assert_eq!(answered(200, body).outcome(), RetrievalOutcome::Found("first".to_string()));
}

#[test]
fn no_hits_is_not_found() {
    let body = r#"{"took":1,"hits":{"total":{"value":0},"hits":[]}}"#;
    assert_eq!(answered(200, body).outcome(), RetrievalOutcome::NotFound);
}

#[test]
fn a_document_without_a_hit_array_is_backend_error() {
    assert_eq!(answered(200, "{}").outcome(), RetrievalOutcome::BackendError);
    assert_eq!(answered(200, "null").outcome(), RetrievalOutcome::BackendError);
    assert_eq!(answered(200, "[1,2]").outcome(), RetrievalOutcome::BackendError);
    assert_eq!(answered(200, "[]").outcome(), RetrievalOutcome::BackendError);
    assert_eq!(answered(200, r#"{"hits":{}}"#).outcome(), RetrievalOutcome::BackendError);
    assert_eq!(answered(200, r#"{"hits":[]}"#).outcome(), RetrievalOutcome::BackendError);
    assert_eq!(answered(200, r#"{"hits":{"hits":"none"}}"#).outcome(), RetrievalOutcome::BackendError);
    assert_eq!(answered(200, r#"{"hits":{"hits":null}}"#).outcome(), RetrievalOutcome::BackendError);
    assert_eq!(answered(200, r#"{"hits":{"hits":{}}}"#).outcome(), RetrievalOutcome::BackendError);
    assert_eq!(answered(200, r#"{"error":"index_not_found"}"#).outcome(), RetrievalOutcome::BackendError);
}

#[test]
fn only_a_present_and_empty_hit_array_is_not_found() {
    assert_eq!(answered(200, r#"{"hits":{"hits":[]}}"#).outcome(), RetrievalOutcome::NotFound);
    assert_eq!(answered(200, r#"{"hits":{"hits":[],"total":0},"took":3}"#).outcome(), RetrievalOutcome::NotFound);
}

#[test]
fn transport_failure_is_backend_error() {
    assert_eq!(BackendReply::TransportFailure.outcome(), RetrievalOutcome::BackendError);
}

#[test]
fn failure_status_is_backend_error_even_with_hits() {
    let body = r#"{"hits":{"hits":[{"_source":{"content":"x"}}]}}"#;
    assert_eq!(answered(500, body).outcome(), RetrievalOutcome::BackendError);
    assert_eq!(answered(503, body).outcome(), RetrievalOutcome::BackendError);
    assert_eq!(answered(404, r#"{"hits":{"hits":[]}}"#).outcome(), RetrievalOutcome::BackendError);
}

#[test]
fn success_is_the_range_from_200_to_299() {
    let body = r#"{"hits":{"hits":[]}}"#;
    assert_eq!(answered(199, body).outcome(), RetrievalOutcome::BackendError);
    assert_eq!(answered(200, body).outcome(), RetrievalOutcome::NotFound);
    assert_eq!(answered(299, body).outcome(), RetrievalOutcome::NotFound);
    assert_eq!(answered(300, body).outcome(), RetrievalOutcome::BackendError);
    assert_eq!(answered(0, body).outcome(), RetrievalOutcome::BackendError);
}

#[test]
fn body_that_is_no_json_is_backend_error() {
    assert_eq!(answered(200, "").outcome(), RetrievalOutcome::BackendError);
    assert_eq!(answered(200, "<html>").outcome(), RetrievalOutcome::BackendError);
    assert_eq!(answered(200, r#"{"hits":{"hits":["#).outcome(), RetrievalOutcome::BackendError);
}

#[test]
fn first_hit_without_content_is_backend_error() {
    let missing = r#"{"hits":{"hits":[{"_source":{"path":"a.rs"}},{"_source":{"content":"x"}}]}}"#;
    assert_eq!(answered(200, missing).outcome(), RetrievalOutcome::BackendError);
    let no_source = r#"{"hits":{"hits":[{"_id":"1"}]}}"#;
    assert_eq!(answered(200, no_source).outcome(), RetrievalOutcome::BackendError);
    let not_text = r#"{"hits":{"hits":[{"_source":{"content":17}}]}}"#;
    assert_eq!(answered(200, not_text).outcome(), RetrievalOutcome::BackendError);
    let null = r#"{"hits":{"hits":[{"_source":{"content":null}}]}}"#;
    assert_eq!(answered(200, null).outcome(), RetrievalOutcome::BackendError);
}

#[test]
fn content_is_unescaped_when_read() {
    let body = r#"{"hits":{"hits":[{"_source":{"content":"let s = \"a\\b\";\n"}}]}}"#;
    assert_eq!(
        answered(200, body).outcome(),
        RetrievalOutcome::Found("let s = \"a\\b\";\n".to_string())
    );
}

#[test]
fn empty_content_is_still_found() {
    let body = r#"{"hits":{"hits":[{"_source":{"content":""}}]}}"#;
    assert_eq!(answered(200, body).outcome(), RetrievalOutcome::Found(String::new()));
}

#[test]
fn same_answer_gives_the_same_outcome() {
    let body = r#"{"hits":{"hits":[{"_source":{"content":"fn main() {}"}}]}}"#;
    let first = answered(200, body).outcome();
    let second = answered(200, body).outcome();
    assert_eq!(first, second);
    assert_eq!(first, RetrievalOutcome::Found("fn main() {}".to_string()));
}

#[test]
fn parse_keeps_every_hit_in_order() {
    let body = r#"{"hits":{"hits":[
        {"_source":{"content":"a"}},
        {"_source":{}},
        {"_source":{"content":"c"}}
    ]}}"#;
    let result = SearchResult::parse(body).unwrap();
    assert_eq!(result.hits, vec![hit("a"), Hit { content: None }, hit("c")]);
    assert_eq!(SearchResult::parse("not json"), None);
    assert_eq!(SearchResult::parse("null"), None);
    assert_eq!(SearchResult::parse("{}"), None);
    assert_eq!(
        SearchResult::parse(r#"{"hits":{"hits":[]}}"#),
        Some(SearchResult { hits: vec![] })
    );
}

#[test]
fn documents_are_read_through_the_parser() {
    let document = serde_json::from_str::<serde_json::Value>(
        r#"{"hits":{"hits":[{"_source":{"content":"x"}},{"_source":{"content":["y"]}}]}}"#,
    )
    .unwrap();
    let result = SearchResult::from_document(&document).unwrap();
    assert_eq!(result.hits, vec![hit("x"), Hit { content: None }]);
    let no_array = serde_json::from_str::<serde_json::Value>(r#"{"hits":{"total":0}}"#).unwrap();
    assert_eq!(SearchResult::from_document(&no_array), None);
    let one = serde_json::from_str::<serde_json::Value>(r#"{"_source":{"content":"z"}}"#).unwrap();
    assert_eq!(Hit::from_document(&one), hit("z"));
    let bare = serde_json::from_str::<serde_json::Value>(r#"{"content":"z"}"#).unwrap();
    assert_eq!(Hit::from_document(&bare), Hit { content: None });
}

#[test]
fn select_on_plain_hits() {
    assert_eq!(SearchResult { hits: vec![] }.select(), RetrievalOutcome::NotFound);
    assert_eq!(
        SearchResult { hits: vec![hit("a"), hit("b")] }.select(),
        RetrievalOutcome::Found("a".to_string())
    );
    assert_eq!(
        SearchResult { hits: vec![Hit { content: None }, hit("b")] }.select(),
        RetrievalOutcome::BackendError
    );
}

#[test]
fn outcome_of_a_parsed_body() {
    let found = SearchResult { hits: vec![hit("a")] };
    assert_eq!(
        BackendReply::outcome_of_parsed(Some(&found)),
        RetrievalOutcome::Found("a".to_string())
    );
    assert_eq!(BackendReply::outcome_of_parsed(None), RetrievalOutcome::BackendError);
}
