use deque_loader::content::{Content, ContentId, CreateContent};
use deque_loader::request::Request;
use deque_loader::task::Task;
use std::collections::HashMap;
use std::sync::Arc;

#[test]
fn content_is_loaded_by_its_id() {
    let draft = CreateContent { title: "Batching".to_string() };
    let stored = Content { id: ContentId(1), title: draft.title.clone() };

    let (found, found_rx) = Request::<ContentId, Content, String>::new_oneshot(ContentId(1));
    let (missing, missing_rx) = Request::<ContentId, Content, String>::new_oneshot(ContentId(2));
    let batch = Task::from_requests(vec![found, missing]);
    let mut keys = batch.keys();
    keys.sort();
    assert_eq!(keys, vec![ContentId(1), ContentId(2)]);

    let mut loaded = HashMap::new();
    loaded.insert(stored.id, Arc::new(stored.clone()));
    let _receipt = batch.resolve(Ok(loaded));
    assert_eq!(found_rx.into_inner().blocking_recv().unwrap(), Ok(Some(Arc::new(stored))));
    assert_eq!(missing_rx.into_inner().blocking_recv().unwrap(), Ok(None));
}
