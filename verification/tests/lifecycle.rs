use wtr_watcher::EffectType;
use wtr_watcher::Event;
use wtr_watcher::EventDesc;
use wtr_watcher::EventQueue;
use wtr_watcher::PathType;
use wtr_watcher::PollOutcome;
use wtr_watcher::PushOutcome;
use wtr_watcher::Watch;
use wtr_watcher::WatchError;

fn file_desc(effect_time: i64, effect_type: i8, path: &str, assoc: Option<&str>) -> EventDesc {
    EventDesc {
        effect_time,
        path_name: Some(path.as_bytes().to_vec()),
        associated_path_name: assoc.map(|s| s.as_bytes().to_vec()),
        effect_type,
        path_type: 1,
    }
}

fn sample_event(n: i64) -> Event {
    Event {
        effect_time: n,
        path_name: format!("f{}.txt", n),
        associated_path_name: None,
        effect_type: EffectType::Modify,
        path_type: PathType::File,
    }
}

#[test]
fn open_failure_is_typed() {
    let r = Watch::try_new(false);
    assert!(matches!(r, Err(WatchError::OpenFailed)));
}

#[test]
fn close_failure_is_typed() {
    let mut w = Watch::try_new(true).unwrap();
    assert!(w.request_close());
    assert_eq!(w.confirm_close(false), Err(WatchError::CloseFailed));
}

#[test]
fn stream_preserves_arrival_order() {
    let mut w = Watch::try_new(true).unwrap();
    for n in 0..5i64 {
        let d = file_desc(n, 1, &format!("f{}.txt", n), None);
        assert_eq!(w.deliver(d), PushOutcome::Delivered);
    }
    for n in 0..5i64 {
        match w.poll_next() {
            PollOutcome::Ready(e) => {
                assert_eq!(e.effect_time, n);
                assert_eq!(e.path_name, format!("f{}.txt", n));
            }
            other => panic!("expected an event, got {:?}", other),
        }
    }
    assert_eq!(w.poll_next(), PollOutcome::Pending);
}

#[test]
fn at_most_one_native_close() {
    let mut w = Watch::try_new(true).unwrap();
    assert!(w.request_close());
    assert!(!w.request_close());
    assert_eq!(w.confirm_close(true), Ok(()));
    assert!(!w.dispose());
}

#[test]
fn disposal_after_explicit_close_noops() {
    let mut w = Watch::try_new(true).unwrap();
    assert!(w.request_close());
    assert_eq!(w.confirm_close(true), Ok(()));
    assert!(!w.dispose());
    assert!(!w.dispose());
}

#[test]
fn disposal_alone_closes_once() {
    let mut w = Watch::try_new(true).unwrap();
    assert!(w.dispose());
    assert!(!w.dispose());
    assert!(!w.request_close());
}

#[test]
fn no_delivery_reaches_consumer_after_close() {
    let mut w = Watch::try_new(true).unwrap();
    assert!(w.request_close());
    assert_eq!(w.confirm_close(true), Ok(()));
    let late = file_desc(7, 2, "late.txt", None);
    assert_eq!(w.deliver(late), PushOutcome::Disconnected);
    assert_eq!(w.poll_next(), PollOutcome::Done);
}

#[test]
fn pending_events_stay_readable_after_close() {
    let mut w = Watch::try_new(true).unwrap();
    assert_eq!(w.deliver(file_desc(1, 2, "kept.txt", None)), PushOutcome::Delivered);
    assert!(w.request_close());
    assert_eq!(w.confirm_close(true), Ok(()));
    assert_eq!(w.deliver(file_desc(2, 2, "dropped.txt", None)), PushOutcome::Disconnected);
    match w.poll_next() {
        PollOutcome::Ready(e) => assert_eq!(e.path_name, "kept.txt"),
        other => panic!("expected the pending event, got {:?}", other),
    }
    assert_eq!(w.poll_next(), PollOutcome::Done);
}

#[test]
fn bounded_queue_bounds_pending_without_loss() {
    let mut q = EventQueue::new_bounded(1);
    assert_eq!(q.push(sample_event(1)), PushOutcome::Delivered);
    assert_eq!(q.push(sample_event(2)), PushOutcome::WouldBlock);
    assert_eq!(q.push(sample_event(3)), PushOutcome::WouldBlock);
    let first = q.pop().unwrap();
    assert_eq!(first.effect_time, 1);
    assert_eq!(q.push(sample_event(2)), PushOutcome::Delivered);
    let second = q.pop().unwrap();
    assert_eq!(second.effect_time, 2);
    assert_eq!(q.pop(), None);
}

#[test]
fn disposal_unblocks_a_bounded_sender() {
    let mut q = EventQueue::new_bounded(1);
    assert_eq!(q.push(sample_event(1)), PushOutcome::Delivered);
    assert_eq!(q.push(sample_event(2)), PushOutcome::WouldBlock);
    q.close();
    assert_eq!(q.push(sample_event(2)), PushOutcome::Disconnected);
    assert!(!q.is_drained());
    assert_eq!(q.pop().unwrap().effect_time, 1);
    assert!(q.is_drained());
}

#[test]
fn end_to_end_create_rename_destroy() {
    let mut w = Watch::try_new(true).unwrap();

    assert_eq!(w.deliver(file_desc(1, 2, "watched/a.txt", None)), PushOutcome::Delivered);
    match w.poll_next() {
        PollOutcome::Ready(e) => {
            assert_eq!(e.effect_type, EffectType::Create);
            assert_eq!(e.path_type, PathType::File);
            assert!(e.path_name.ends_with("a.txt"));
            assert_eq!(e.associated_path_name, None);
        }
        other => panic!("expected the create event, got {:?}", other),
    }

    assert_eq!(
        w.deliver(file_desc(2, 0, "watched/a.txt", Some("watched/b.txt"))),
        PushOutcome::Delivered
    );
    match w.poll_next() {
        PollOutcome::Ready(e) => {
            assert_eq!(e.effect_type, EffectType::Rename);
            assert!(e.path_name.ends_with("a.txt"));
            assert!(e.associated_path_name.unwrap().ends_with("b.txt"));
        }
        other => panic!("expected the rename event, got {:?}", other),
    }

    assert_eq!(w.deliver(file_desc(3, 3, "watched/b.txt", None)), PushOutcome::Delivered);
    match w.poll_next() {
        PollOutcome::Ready(e) => assert_eq!(e.effect_type, EffectType::Destroy),
        other => panic!("expected the destroy event, got {:?}", other),
    }

    assert!(w.dispose());
    assert_eq!(w.deliver(file_desc(4, 1, "watched/b.txt", None)), PushOutcome::Disconnected);
    assert_eq!(w.poll_next(), PollOutcome::Done);
    assert_eq!(w.poll_next(), PollOutcome::Done);
}
