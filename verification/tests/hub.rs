use minelib::command::{CommandError, CommandResponse};
use minelib::hub::Hub;

fn msg(tag: i32) -> CommandResponse {
    CommandResponse::Error(CommandError::SystemError(tag))
}

#[test]
fn subscribe_hands_out_fresh_ids_in_order() {
    let mut h = Hub::new();
    assert_eq!(h.subscribe(), 0);
    assert_eq!(h.subscribe(), 1);
    assert_eq!(h.subscribe(), 2);
    assert_eq!(h.subscribers, vec![0, 1, 2]);
}

#[test]
fn take_next_on_empty_queue_is_none() {
    let mut h = Hub::new();
    h.subscribe();
    assert!(h.take_next().is_none());
}

#[test]
fn sweep_delivers_to_every_subscriber_in_publish_order() {
    let mut h = Hub::new();
    h.subscribe();
    h.subscribe();
    h.subscribe();
    h.publish(msg(1));
    h.publish(msg(2));
    // the first sweep carries the first published message to all three
    let (m, snap) = h.take_next().unwrap();
    assert_eq!(m, msg(1));
    assert_eq!(snap, vec![0, 1, 2]);
    h.end_sweep(&vec![]);
    // the second sweep carries the second message, still to all three
    let (m, snap) = h.take_next().unwrap();
    assert_eq!(m, msg(2));
    assert_eq!(snap, vec![0, 1, 2]);
    h.end_sweep(&vec![]);
    assert!(h.take_next().is_none());
}

#[test]
fn failed_subscriber_is_gone_within_one_publish_cycle() {
    let mut h = Hub::new();
    h.subscribe();
    h.subscribe();
    h.subscribe();
    h.publish(msg(1));
    let (_, snap) = h.take_next().unwrap();
    assert_eq!(snap, vec![0, 1, 2]);
    // delivery to subscriber 1 failed during the sweep
    h.end_sweep(&vec![1]);
    assert_eq!(h.subscribers, vec![0, 2]);
    // later publishes no longer see it, and do not fail because of it
    h.publish(msg(2));
    let (m, snap) = h.take_next().unwrap();
    assert_eq!(m, msg(2));
    assert_eq!(snap, vec![0, 2]);
    h.end_sweep(&vec![]);
    assert_eq!(h.subscribers, vec![0, 2]);
}

#[test]
fn removing_dead_subscribers_leaves_the_others_in_order() {
    let mut h = Hub::new();
    for _ in 0..5 {
        h.subscribe();
    }
    h.end_sweep(&vec![0, 3]);
    assert_eq!(h.subscribers, vec![1, 2, 4]);
}

#[test]
fn new_subscriber_sees_no_historical_messages() {
    let mut h = Hub::new();
    h.subscribe();
    h.publish(msg(1));
    let (_, snap) = h.take_next().unwrap();
    assert_eq!(snap, vec![0]);
    h.end_sweep(&vec![]);
    // joins after the first message was swept: only later messages reach it
    let late = h.subscribe();
    h.publish(msg(2));
    let (m, snap) = h.take_next().unwrap();
    assert_eq!(m, msg(2));
    assert!(snap.contains(&late));
}

#[test]
fn subscriber_ids_are_never_reused() {
    let mut h = Hub::new();
    h.subscribe();
    h.subscribe();
    h.end_sweep(&vec![0, 1]);
    assert_eq!(h.subscribers, Vec::<u64>::new());
    // even with everyone gone, the next id moves forward
    assert_eq!(h.subscribe(), 2);
}
