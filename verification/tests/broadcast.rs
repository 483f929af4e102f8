//! Single-threaded exercises of the broadcast channel: each subscriber's
//! queue buffers up to the fixed capacity, so a broadcast followed by
//! receives runs entirely on one thread.

use broadcast_channel::broadcasting_channel;
use broadcast_channel::CloneAs;
use broadcast_channel::Error;

#[test]
fn broadcaster_test_simple_drop_1() {
    const FIRST: i32 = 10;
    let (b, s) = broadcasting_channel("test 1".to_string());
    let b1 = b.clone_as("first broadcaster copy".to_string());
    let s1 = s.clone_as("first subscriber copy".to_string());
    let v_s = (0..100)
        .map(|i| s.clone_as(format!("sub#{i}")))
        .collect::<Vec<_>>();
    b1.broadcast(FIRST);
    assert_eq!(s1.recv().unwrap(), FIRST);
    assert_eq!(s.recv().unwrap(), FIRST);
    drop(b);
    drop(s);
    drop(s1);
    for s_elem in &v_s {
        assert_eq!(s_elem.recv().unwrap(), FIRST);
    }
}

#[test]
fn broadcaster_test_simple_drop_2() {
    const FIRST: i32 = 10;
    const SECOND: i32 = 5;
    let (b, s) = broadcasting_channel("test 2".to_string());
    let b1 = b.clone_as("first broadcaster clone".to_string());
    let s1 = s.clone_as("first subscriber clone".to_string());
    let v_s = (0..100)
        .map(|i| s.clone_as(format!("sub#{i}")))
        .collect::<Vec<_>>();
    b1.broadcast(FIRST);
    b1.broadcast(SECOND);
    assert_eq!(s1.recv().unwrap(), FIRST);
    assert_eq!(s.recv().unwrap(), FIRST);
    drop(b);
    assert_eq!(s.recv().unwrap(), SECOND);
    drop(s);
    assert_eq!(s1.recv().unwrap(), SECOND);
    drop(s1);
    for s_elem in &v_s {
        assert_eq!(s_elem.recv().unwrap(), FIRST);
    }
    for s_elem in &v_s {
        assert_eq!(s_elem.recv().unwrap(), SECOND);
    }
}

#[test]
fn broadcaster_test_simple_drop_3() {
    let (b, s) = broadcasting_channel("test 2".to_string());
    let b_1 = b.clone_as("b 1".to_string());
    let v_s = (0..100)
        .map(|i| s.clone_as(format!("looped sub # {i}")))
        .collect::<Vec<_>>();
    b_1.broadcast("hello there");
    assert_eq!(s.recv().unwrap(), "hello there");
    for s_elem in &v_s {
        assert_eq!(s_elem.recv().unwrap(), "hello there");
    }
}

#[test]
fn try_recv_on_empty_queue_is_empty() {
    let (_b, s) = broadcasting_channel::<i32>("empty".to_string());
    assert_eq!(s.try_recv(), Err(Error::Empty));
    // Polling again leaves the condition unchanged: nothing was consumed.
    assert_eq!(s.try_recv(), Err(Error::Empty));
}

#[test]
fn late_subscriber_sees_no_history() {
    let (b, s) = broadcasting_channel("history".to_string());
    b.broadcast(10);
    let late = s.clone_as("late".to_string());
    // The message broadcast before the clone is never replayed to it.
    assert_eq!(late.try_recv(), Err(Error::Empty));
    // The pre-existing subscriber still holds the message.
    assert_eq!(s.recv().unwrap(), 10);
}

#[test]
fn sibling_subscribers_have_independent_ordered_views() {
    let (b, s) = broadcasting_channel("siblings".to_string());
    let s1 = s.clone_as("sibling one".to_string());
    let s2 = s.clone_as("sibling two".to_string());
    b.broadcast(1);
    b.broadcast(2);
    b.broadcast(3);
    for sub in [&s, &s1, &s2] {
        assert_eq!(sub.recv().unwrap(), 1);
        assert_eq!(sub.recv().unwrap(), 2);
        assert_eq!(sub.recv().unwrap(), 3);
        // Exactly once each: nothing is duplicated for any sibling.
        assert_eq!(sub.try_recv(), Err(Error::Empty));
    }
}

#[test]
fn dropped_publisher_does_not_affect_delivered_messages() {
    let (b, s) = broadcasting_channel("publishers".to_string());
    let b1 = b.clone_as("second publisher".to_string());
    b1.broadcast(7);
    drop(b1);
    drop(b);
    // A message already broadcast by a sibling publisher is still delivered.
    assert_eq!(s.recv().unwrap(), 7);
}

#[test]
fn dropped_subscriber_is_skipped_without_error() {
    let (b, s) = broadcasting_channel("skipping".to_string());
    let doomed = s.clone_as("doomed".to_string());
    let alive = s.clone_as("alive".to_string());
    drop(doomed);
    // The broadcast neither fails nor blocks on the dead endpoint...
    b.broadcast(42);
    // ...and every live subscriber still receives.
    assert_eq!(s.recv().unwrap(), 42);
    assert_eq!(alive.recv().unwrap(), 42);
}

#[test]
fn broadcast_then_recv_returns_message_not_error() {
    let (b, s) = broadcasting_channel("pending".to_string());
    b.broadcast(99);
    assert_eq!(s.recv(), Ok(99));
}

#[test]
fn one_broadcast_reaches_all_101_subscribers_exactly_once() {
    let (b, s) = broadcasting_channel("t".to_string());
    let clones = (0..100)
        .map(|i| s.clone_as(format!("sub {i}")))
        .collect::<Vec<_>>();
    let publisher = b.clone_as("publisher clone".to_string());
    publisher.broadcast(10);
    assert_eq!(s.recv().unwrap(), 10);
    assert_eq!(s.try_recv(), Err(Error::Empty));
    for sub in &clones {
        assert_eq!(sub.recv().unwrap(), 10);
        assert_eq!(sub.try_recv(), Err(Error::Empty));
    }
}

#[test]
fn two_broadcasts_arrive_in_broadcast_order() {
    let (b, s) = broadcasting_channel("ordered".to_string());
    let other = s.clone_as("other".to_string());
    b.broadcast(10);
    b.broadcast(5);
    for sub in [&s, &other] {
        assert_eq!(sub.recv().unwrap(), 10);
        assert_eq!(sub.recv().unwrap(), 5);
    }
}

#[test]
fn messages_from_sibling_publishers_share_one_order() {
    let (b, s) = broadcasting_channel("interleaved".to_string());
    let b1 = b.clone_as("sibling publisher".to_string());
    let watcher = s.clone_as("watcher".to_string());
    b.broadcast(1);
    b1.broadcast(2);
    b.broadcast(3);
    for sub in [&s, &watcher] {
        assert_eq!(sub.recv().unwrap(), 1);
        assert_eq!(sub.recv().unwrap(), 2);
        assert_eq!(sub.recv().unwrap(), 3);
    }
}

#[test]
fn default_clone_yields_working_siblings() {
    let (b, s) = broadcasting_channel("anonymous".to_string());
    let b_anon = b.clone();
    let s_anon = s.clone();
    // The anonymous subscriber clone starts with an empty queue.
    assert_eq!(s_anon.try_recv(), Err(Error::Empty));
    b_anon.broadcast(11);
    assert_eq!(s.recv().unwrap(), 11);
    assert_eq!(s_anon.recv().unwrap(), 11);
}

#[test]
fn queue_buffers_up_to_capacity_in_order() {
    let (b, s) = broadcasting_channel("full".to_string());
    for i in 0..10 {
        b.broadcast(i);
    }
    for i in 0..10 {
        assert_eq!(s.recv().unwrap(), i);
    }
    assert_eq!(s.try_recv(), Err(Error::Empty));
}
