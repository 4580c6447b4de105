use wvst_bridge_server::events::{RecentEventLog, RECENT_EVENT_LIMIT};

#[test]
fn numbers_events_and_filters_by_sequence() {
    let mut log: RecentEventLog<&str> = RecentEventLog::new();
    assert_eq!(log.emit("started"), 1);
    assert_eq!(log.emit("worker-ready"), 2);
    assert_eq!(log.emit("stream-opened"), 3);

    let all: Vec<u64> = log.recent_since(None).iter().map(|event| event.sequence).collect();
    assert_eq!(all, vec![1, 2, 3]);
    let newer: Vec<&str> = log.recent_since(Some(1)).iter().map(|event| event.kind).collect();
    assert_eq!(newer, vec!["worker-ready", "stream-opened"]);
    assert!(log.recent_since(Some(3)).is_empty());
}

#[test]
fn keeps_only_the_most_recent_events() {
    let mut log: RecentEventLog<u64> = RecentEventLog::new();
    for value in 0..(RECENT_EVENT_LIMIT as u64 + 10) {
        log.emit(value);
    }
    let kept = log.recent_since(None);
    assert_eq!(kept.len(), RECENT_EVENT_LIMIT);
    assert_eq!(kept[0].sequence, 11);
    assert_eq!(kept[0].kind, 10);
    assert_eq!(kept.last().expect("last").sequence, RECENT_EVENT_LIMIT as u64 + 10);
}
