use search_core::model::{SearchItem, SearchResult};
use search_core::scheduler::RequestScheduler;
use search_core::session::SearchSessionState;

fn item(id: &str, url: &str) -> SearchItem {
    SearchItem {
        id: id.to_string(),
        title: "title".to_string(),
        url: url.to_string(),
        summary: "summary".to_string(),
        description: "description".to_string(),
        added_at: "2020-01-01".to_string(),
        last_accessed_at: "2020-01-02".to_string(),
        keywords: vec!["kw".to_string()],
        tags: vec!["/tags/code".to_string()],
        bookmarked: 0,
        pinned: 0,
        duplicate: 0,
        accessed_count: 3,
    }
}

fn result_with(ids: &[&str]) -> SearchResult {
    SearchResult {
        items: ids.iter().map(|id| item(id, "http://x")).collect(),
        document_count: Some(ids.len() as i64),
    }
}

#[test]
fn idle_submit_fetches_at_once() {
    let mut session = SearchSessionState::new();
    let mut scheduler = RequestScheduler::new();
    let fetch = scheduler.submit(&mut session, "cat");
    assert_eq!(fetch, Some("cat".to_string()));
    assert!(session.is_loading());
    assert!(!session.has_results());
    assert_eq!(scheduler.current_query(), "cat");
    assert!(scheduler.is_in_flight());
}

#[test]
fn submit_trims_before_fetching() {
    let mut session = SearchSessionState::new();
    let mut scheduler = RequestScheduler::new();
    let fetch = scheduler.submit(&mut session, "  cat \t\n");
    assert_eq!(fetch, Some("cat".to_string()));
    assert_eq!(scheduler.current_query(), "cat");
}

#[test]
fn inner_blanks_survive_trimming() {
    let mut session = SearchSessionState::new();
    let mut scheduler = RequestScheduler::new();
    let fetch = scheduler.submit(&mut session, " wu tang  clan ");
    assert_eq!(fetch, Some("wu tang  clan".to_string()));
}

// Scenario: submit("cat") from idle issues fetch("cat"); before its response
// submit("dog") queues; the response for "cat" is discarded and fetch("dog")
// issued; the response for "dog" is applied and the slot returns to idle.
#[test]
fn superseded_response_is_discarded_then_queued_query_fetched() {
    let mut session = SearchSessionState::new();
    let mut scheduler = RequestScheduler::new();

    let first = scheduler.submit(&mut session, "cat");
    assert_eq!(first, Some("cat".to_string()));

    let queued = scheduler.submit(&mut session, "dog");
    assert_eq!(queued, None);
    assert!(session.is_loading());

    let cat_result = result_with(&["cat-1", "cat-2"]);
    let next = scheduler.on_response(&mut session, Some(cat_result));
    assert_eq!(next, Some("dog".to_string()));
    assert!(!session.has_results());
    assert!(session.is_loading());

    let dog_result = result_with(&["dog-1"]);
    let done = scheduler.on_response(&mut session, Some(dog_result));
    assert_eq!(done, None);
    assert!(!session.is_loading());
    assert!(session.has_results());
    assert_eq!(session.item_count(), 1);
    let committed = session.result().as_ref().unwrap();
    assert_eq!(committed.items[0].id, "dog-1");
    assert!(!scheduler.is_in_flight());
}

// A burst of submissions while a request is in flight: none of them is
// fetched, and after the in-flight response only the final query reaches
// the network.
#[test]
fn burst_in_flight_fetches_only_trailing_query() {
    let mut session = SearchSessionState::new();
    let mut scheduler = RequestScheduler::new();

    assert_eq!(scheduler.submit(&mut session, "q1"), Some("q1".to_string()));
    assert_eq!(scheduler.submit(&mut session, "q2"), None);
    assert_eq!(scheduler.submit(&mut session, "q3"), None);
    assert_eq!(scheduler.submit(&mut session, "q4"), None);
    assert_eq!(scheduler.current_query(), "q4");

    let outcome = result_with(&["stale"]);
    let next = scheduler.on_response(&mut session, Some(outcome));
    assert_eq!(next, Some("q4".to_string()));
    assert!(!session.has_results());
}

#[test]
fn response_applied_when_nothing_queued() {
    let mut session = SearchSessionState::new();
    let mut scheduler = RequestScheduler::new();
    scheduler.submit(&mut session, "cat");
    let next = scheduler.on_response(&mut session, Some(result_with(&["a", "b", "c"])));
    assert_eq!(next, None);
    assert_eq!(session.item_count(), 3);
    assert!(!session.is_loading());
}

#[test]
fn failed_response_leaves_committed_result_untouched() {
    let mut session = SearchSessionState::new();
    let mut scheduler = RequestScheduler::new();
    scheduler.submit(&mut session, "cat");
    scheduler.on_response(&mut session, Some(result_with(&["a"])));
    assert_eq!(session.item_count(), 1);

    scheduler.submit(&mut session, "dog");
    let next = scheduler.on_response(&mut session, None);
    assert_eq!(next, None);
    assert_eq!(session.item_count(), 1);
    assert!(session.has_results());
    assert!(!session.is_loading());
}

#[test]
fn blank_submit_clears_immediately() {
    let mut session = SearchSessionState::new();
    let mut scheduler = RequestScheduler::new();
    scheduler.submit(&mut session, "cat");
    scheduler.on_response(&mut session, Some(result_with(&["a"])));
    assert!(session.has_results());

    let fetch = scheduler.submit(&mut session, "   ");
    assert_eq!(fetch, None);
    assert!(!session.has_results());
    assert!(!session.is_loading());
    assert_eq!(session.item_count(), 0);
    assert_eq!(scheduler.current_query(), "");
}

// A response that arrives after the session was cleared belongs to a
// superseded request: it is discarded and cannot revive the cleared result.
#[test]
fn late_response_after_clear_is_discarded() {
    let mut session = SearchSessionState::new();
    let mut scheduler = RequestScheduler::new();
    scheduler.submit(&mut session, "cat");
    scheduler.submit(&mut session, "");
    assert!(!session.has_results());

    let next = scheduler.on_response(&mut session, Some(result_with(&["zombie"])));
    assert_eq!(next, None);
    assert!(!session.has_results());
    assert!(!session.is_loading());
}

#[test]
fn blank_submit_cancels_queued_query() {
    let mut session = SearchSessionState::new();
    let mut scheduler = RequestScheduler::new();
    scheduler.submit(&mut session, "cat");
    scheduler.submit(&mut session, "dog");
    scheduler.submit(&mut session, "  ");
    let next = scheduler.on_response(&mut session, Some(result_with(&["dog-1"])));
    assert_eq!(next, None);
    assert!(!session.has_results());
}

#[test]
fn force_refetch_supersedes_queued_query() {
    let mut session = SearchSessionState::new();
    let mut scheduler = RequestScheduler::new();
    scheduler.submit(&mut session, "cat");
    scheduler.submit(&mut session, "dog");

    let fetch = scheduler.force_refetch(&mut session, "cat");
    assert_eq!(fetch, Some("cat".to_string()));
    assert!(session.is_loading());

    let done = scheduler.on_response(&mut session, Some(result_with(&["cat-1"])));
    assert_eq!(done, None);
    assert_eq!(session.item_count(), 1);
}

#[test]
fn force_refetch_of_blank_query_clears() {
    let mut session = SearchSessionState::new();
    let mut scheduler = RequestScheduler::new();
    scheduler.submit(&mut session, "cat");
    scheduler.on_response(&mut session, Some(result_with(&["a"])));

    let fetch = scheduler.force_refetch(&mut session, " ");
    assert_eq!(fetch, None);
    assert!(!session.has_results());
    assert!(!session.is_loading());
}

#[test]
fn empty_result_counts_as_committed() {
    let mut session = SearchSessionState::new();
    let mut scheduler = RequestScheduler::new();
    scheduler.submit(&mut session, "nothing");
    scheduler.on_response(&mut session, Some(result_with(&[])));
    assert!(session.has_results());
    assert_eq!(session.item_count(), 0);
}

#[test]
fn result_is_replaced_wholesale() {
    let mut session = SearchSessionState::new();
    let mut scheduler = RequestScheduler::new();
    scheduler.submit(&mut session, "one");
    scheduler.on_response(&mut session, Some(result_with(&["a", "b"])));
    scheduler.submit(&mut session, "two");
    scheduler.on_response(&mut session, Some(result_with(&["c"])));
    let committed = session.result().as_ref().unwrap();
    assert_eq!(committed.items.len(), 1);
    assert_eq!(committed.items[0].id, "c");
    assert_eq!(committed.document_count, Some(1));
}
