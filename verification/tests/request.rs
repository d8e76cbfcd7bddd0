use deque_loader::request::{LoadState, OneshotReceiver, Reply, Request, WatchReceiver};
use std::sync::Arc;

type Text = Reply<String, String>;

fn value(text: &str) -> Text {
    Ok(Some(Arc::new(text.to_string())))
}

fn wait_for(receiver: &WatchReceiver<String, String>) -> Text {
    let runtime = tokio::runtime::Builder::new_current_thread().build().unwrap();
    let mut inner = receiver.clone().into_inner();
    runtime.block_on(async move {
        loop {
            if let LoadState::Ready(reply) = &*inner.borrow() {
                break reply.clone();
            }
            inner.changed().await.unwrap();
        }
    })
}

#[test]
fn oneshot_request_delivers_the_reply() {
    let (request, receiver) = Request::<u32, String, String>::new_oneshot(7);
    assert!(matches!(request, Request::Oneshot { .. }));
    assert_eq!(*request.key(), 7);
    request.resolve(value("seven"));
    let reply = receiver.into_inner().blocking_recv().unwrap();
    assert_eq!(reply, value("seven"));
}

#[test]
fn oneshot_request_delivers_absence_and_errors() {
    let (request, receiver) = Request::<u32, String, String>::new_oneshot(1);
    request.resolve(Ok(None));
    assert_eq!(receiver.into_inner().blocking_recv().unwrap(), Ok(None));

    let (request, receiver) = Request::<u32, String, String>::new_oneshot(2);
    request.resolve(Err("backend down".to_string()));
    assert_eq!(
        receiver.into_inner().blocking_recv().unwrap(),
        Err("backend down".to_string())
    );
}

#[test]
fn watch_request_is_pending_until_resolved() {
    let (request, receiver) = Request::<u32, String, String>::new_watch(3);
    assert!(matches!(request, Request::Watch { .. }));
    assert_eq!(*request.key(), 3);
    assert_eq!(receiver.try_recv(), None);
    request.resolve(value("three"));
    assert_eq!(receiver.try_recv(), Some(value("three")));
    assert_eq!(wait_for(&receiver), value("three"));
}

#[test]
fn every_clone_of_a_watch_receiver_sees_the_same_reply() {
    let (request, receiver) = Request::<u32, String, String>::new_watch(4);
    let early = receiver.clone();
    request.resolve(Err("boom".to_string()));
    let late = receiver.clone();
    assert_eq!(wait_for(&early), Err("boom".to_string()));
    assert_eq!(wait_for(&late), Err("boom".to_string()));
    assert_eq!(wait_for(&receiver), Err("boom".to_string()));
}

#[test]
fn second_resolution_of_a_watched_load_is_a_no_op() {
    let (request, receiver) = Request::<u32, String, String>::new_watch(5);
    let twin = match &request {
        Request::Watch { key, tx } => Request::Watch { key: *key, tx: tx.clone() },
        Request::Oneshot { .. } => unreachable!(),
    };
    request.resolve(value("first"));
    twin.resolve(value("second"));
    assert_eq!(receiver.try_recv(), Some(value("first")));
    assert_eq!(wait_for(&receiver), value("first"));
}

#[test]
fn resolving_after_the_waiter_left_is_harmless() {
    let (request, receiver) = Request::<u32, String, String>::new_oneshot(6);
    drop(receiver);
    request.resolve(value("nobody listens"));

    let (request, receiver) = Request::<u32, String, String>::new_watch(6);
    drop(receiver);
    request.resolve(value("nobody listens"));
}

#[test]
fn a_state_is_settled_once() {
    let mut state: LoadState<String, String> = LoadState::Pending;
    assert_eq!(state.ready(), None);
    assert!(state.settle(Ok(None)));
    assert_eq!(state.ready(), Some(Ok(None)));
    assert!(!state.settle(value("late")));
    assert!(!state.settle(Err("later".to_string())));
    assert_eq!(state.ready(), Some(Ok(None)));
}

#[test]
fn a_ready_state_hands_out_the_shared_value() {
    let stored = Arc::new("shared".to_string());
    let state: LoadState<String, String> = LoadState::Ready(Ok(Some(stored.clone())));
    match state.ready() {
        Some(Ok(Some(copy))) => assert!(Arc::ptr_eq(&copy, &stored)),
        _ => panic!("a ready state gives its reply"),
    }
}

#[test]
fn receivers_wrap_and_unwrap_their_channel() {
    let (tx, rx) = tokio::sync::oneshot::channel::<Text>();
    let receiver = OneshotReceiver::from(rx);
    tx.send(value("direct")).unwrap();
    assert_eq!(receiver.into_inner().blocking_recv().unwrap(), value("direct"));

    let (tx, rx) = tokio::sync::watch::channel(LoadState::<String, String>::Pending);
    let receiver = WatchReceiver::from(rx);
    assert_eq!(receiver.try_recv(), None);
    tx.send(LoadState::Ready(value("direct"))).ok();
    assert_eq!(receiver.try_recv(), Some(value("direct")));
}
