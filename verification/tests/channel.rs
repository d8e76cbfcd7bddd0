use deque_loader::channel::Request;
use std::sync::Arc;

#[test]
fn channel_request_delivers_the_reply() {
    let (request, receiver) = Request::<u32, String, String>::new(11);
    assert_eq!(*request.key(), 11);
    request.resolve(Ok(Some(Arc::new("eleven".to_string()))));
    assert_eq!(
        receiver.blocking_recv().unwrap(),
        Ok(Some(Arc::new("eleven".to_string())))
    );
}

#[test]
fn channel_request_delivers_an_error() {
    let (request, receiver) = Request::<u32, String, String>::new(12);
    request.resolve(Err("no".to_string()));
    assert_eq!(receiver.blocking_recv().unwrap(), Err("no".to_string()));
}

#[test]
fn channel_request_without_waiter_is_dropped() {
    let (request, receiver) = Request::<u32, String, String>::new(13);
    drop(receiver);
    request.resolve(Ok(None));
}
