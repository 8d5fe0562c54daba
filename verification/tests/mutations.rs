use search_core::dispatcher::{
    AttributeField, MutationDispatcher, MutationKind, MutationRequest, TagAction,
};
use search_core::model::SearchResult;
use search_core::scheduler::RequestScheduler;
use search_core::session::SearchSessionState;

fn some_result() -> SearchResult {
    SearchResult { items: Vec::new(), document_count: Some(0) }
}

// Scenario: staging "ru" issues no network call; staging "st " commits the
// buffer and issues exactly one tag-add call with tag "rust".
#[test]
fn tag_fragments_commit_on_delimiter() {
    let mut dispatcher = MutationDispatcher::new();

    let first = dispatcher.submit_tag("http://a", "ru");
    assert!(first.is_none());
    assert_eq!(dispatcher.staged_tag(), "ru");

    let second = dispatcher.submit_tag("http://a", "st ");
    let request = second.expect("delimiter must commit the staged tag");
    assert_eq!(request.url, "http://a");
    match request.kind {
        MutationKind::EditTags { action, tag } => {
            assert_eq!(action, TagAction::Add);
            assert_eq!(tag, "rust");
        }
        other => panic!("expected a tag edit, got {:?}", other),
    }
    assert_eq!(dispatcher.staged_tag(), "");
}

#[test]
fn tag_fragment_without_delimiter_is_retained_for_display() {
    let mut dispatcher = MutationDispatcher::new();
    assert!(dispatcher.submit_tag("http://a", "co").is_none());
    assert!(dispatcher.submit_tag("http://a", "de").is_none());
    assert_eq!(dispatcher.staged_tag(), "code");
}

#[test]
fn tag_commits_whole_buffer_even_with_inner_space() {
    let mut dispatcher = MutationDispatcher::new();
    let committed = dispatcher.submit_tag("http://a", "two words ");
    let request = committed.unwrap();
    match request.kind {
        MutationKind::EditTags { action: TagAction::Add, tag } => assert_eq!(tag, "two words"),
        other => panic!("expected a tag add, got {:?}", other),
    }
}

#[test]
fn lone_delimiter_commits_buffer_and_resets_it() {
    let mut dispatcher = MutationDispatcher::new();
    assert!(dispatcher.submit_tag("http://a", "go").is_none());
    let request = dispatcher.submit_tag("http://a", " ").unwrap();
    match request.kind {
        MutationKind::EditTags { action: TagAction::Add, tag } => assert_eq!(tag, "go"),
        other => panic!("expected a tag add, got {:?}", other),
    }
    // the buffer starts fresh for the next tag
    assert_eq!(dispatcher.staged_tag(), "");
    assert!(dispatcher.submit_tag("http://a", "o").is_none());
    assert_eq!(dispatcher.staged_tag(), "o");
}

#[test]
fn remove_tag_is_one_exact_call() {
    let dispatcher = MutationDispatcher::new();
    let request = dispatcher.remove_tag("http://a", "/tags/code");
    assert_eq!(request.url, "http://a");
    assert_eq!(
        request.kind,
        MutationKind::EditTags { action: TagAction::Remove, tag: "/tags/code".to_string() }
    );
}

#[test]
fn attribute_mutation_is_one_exact_call() {
    let dispatcher = MutationDispatcher::new();
    let request = dispatcher.submit_attribute("http://a", AttributeField::Pinned, 1);
    assert_eq!(
        request,
        MutationRequest {
            url: "http://a".to_string(),
            kind: MutationKind::SetAttribute { field: AttributeField::Pinned, value: 1 },
        }
    );
    let request = dispatcher.submit_attribute("http://b", AttributeField::Hide, 0);
    assert_eq!(
        request.kind,
        MutationKind::SetAttribute { field: AttributeField::Hide, value: 0 }
    );
}

// Scenario: an attribute mutation succeeds while the last committed query
// was "cat": exactly one subsequent fetch("cat") is issued.
#[test]
fn mutation_completion_forces_one_fetch_of_current_query() {
    let mut session = SearchSessionState::new();
    let mut scheduler = RequestScheduler::new();
    let dispatcher = MutationDispatcher::new();

    scheduler.submit(&mut session, "cat");
    scheduler.on_response(&mut session, Some(some_result()));

    let _request = dispatcher.submit_attribute("http://a", AttributeField::Pinned, 1);
    let fetch = dispatcher.on_mutation_complete(&mut scheduler, &mut session);
    assert_eq!(fetch, Some("cat".to_string()));
    assert!(scheduler.is_in_flight());
    assert!(session.is_loading());
}

// The forced fetch uses the query current at completion time, not the one
// in effect when the mutation was issued.
#[test]
fn mutation_completion_uses_query_current_at_completion_time() {
    let mut session = SearchSessionState::new();
    let mut scheduler = RequestScheduler::new();
    let dispatcher = MutationDispatcher::new();

    scheduler.submit(&mut session, "cat");
    scheduler.on_response(&mut session, Some(some_result()));
    let _request = dispatcher.submit_attribute("http://a", AttributeField::Bookmarked, 1);

    scheduler.submit(&mut session, "dog");
    scheduler.on_response(&mut session, Some(some_result()));

    let fetch = dispatcher.on_mutation_complete(&mut scheduler, &mut session);
    assert_eq!(fetch, Some("dog".to_string()));
}

#[test]
fn mutation_completion_after_clear_issues_no_fetch() {
    let mut session = SearchSessionState::new();
    let mut scheduler = RequestScheduler::new();
    let dispatcher = MutationDispatcher::new();

    scheduler.submit(&mut session, "cat");
    scheduler.submit(&mut session, "");

    let fetch = dispatcher.on_mutation_complete(&mut scheduler, &mut session);
    assert_eq!(fetch, None);
    assert!(!session.has_results());
    assert!(!session.is_loading());
}
