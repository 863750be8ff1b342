use std::sync::atomic::{AtomicUsize, Ordering};
use std::sync::Arc;
use std::task::{Poll, Wake};

use rdbc::sqlite3::async_driver::send_task;
use rdbc::{Error, Waker};

struct Counter(AtomicUsize);

impl Wake for Counter {
    fn wake(self: Arc<Self>) {
        self.0.fetch_add(1, Ordering::SeqCst);
    }
}

fn counting() -> (Arc<Counter>, std::task::Waker) {
    let counter = Arc::new(Counter(AtomicUsize::new(0)));
    (counter.clone(), std::task::Waker::from(counter))
}

#[test]
fn poll_before_ready_is_pending_and_keeps_the_waker() {
    let (woken, waker) = counting();
    let mut completion: Waker<u32> = Waker::new();
    assert!(completion.output.is_none() && completion.waker.is_none());
    assert_eq!(completion.poll(waker), Poll::Pending);
    assert!(completion.waker.is_some());
    assert_eq!(woken.0.load(Ordering::SeqCst), 0);

    completion.ready(7);
    assert_eq!(woken.0.load(Ordering::SeqCst), 1);
    assert!(completion.waker.is_none());
    assert_eq!(completion.output, Some(7));

    let (_, waker) = counting();
    assert_eq!(completion.poll(waker), Poll::Ready(7));
    assert!(completion.output.is_none());
    assert!(completion.waker.is_none());
}

#[test]
fn ready_before_poll_wakes_nobody() {
    let (woken, waker) = counting();
    let mut completion = Waker { waker: None, output: None };
    completion.ready("done");
    assert_eq!(completion.poll(waker), Poll::Ready("done"));
    assert_eq!(woken.0.load(Ordering::SeqCst), 0);
}

#[test]
fn a_later_poll_replaces_the_waker() {
    let (first, waker_one) = counting();
    let (second, waker_two) = counting();
    let mut completion: Waker<u8> = Waker::new();
    assert_eq!(completion.poll(waker_one), Poll::Pending);
    assert_eq!(completion.poll(waker_two), Poll::Pending);
    completion.ready(1);
    assert_eq!(first.0.load(Ordering::SeqCst), 0);
    assert_eq!(second.0.load(Ordering::SeqCst), 1);
}

#[test]
fn a_task_that_was_not_sent_completes_with_channel_closed() {
    let (woken, waker) = counting();
    let mut completion: Waker<Result<bool, Error>> = Waker::new();
    assert_eq!(completion.poll(waker), Poll::Pending);
    send_task(true, &mut completion);
    assert!(completion.output.is_none());
    assert_eq!(woken.0.load(Ordering::SeqCst), 0);
    send_task(false, &mut completion);
    assert_eq!(completion.output, Some(Err(Error::ChannelClosed)));
    assert_eq!(woken.0.load(Ordering::SeqCst), 1);
}
