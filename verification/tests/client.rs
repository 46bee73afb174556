use robotrs::client::{first_prefix, replay_backlog, NtMessage, RecvAction};
use robotrs::nt::{BinaryData, BinaryMessage, Properties, SubscriptionOptions, TextMessage};
use robotrs::topics::TopicTable;

fn s(x: &str) -> String {
    x.to_string()
}

fn announce(name: &str, id: u32) -> NtMessage {
    NtMessage::Text(TextMessage::Announce {
        name: s(name),
        id,
        data_type: s("int"),
        pubuid: None,
        properties: Properties::default(),
    })
}

#[test]
fn first_prefix_takes_the_first_match() {
    let prefixes = vec![s("/b"), s("/a"), s("/a/x")];
    assert_eq!(first_prefix(&prefixes, &s("/a/x/y")), Some(1));
    assert_eq!(first_prefix(&prefixes, &s("/c")), None);
}

#[test]
fn announce_of_unknown_topic_asks_for_a_channel() {
    let mut t: TopicTable<u32> = TopicTable::new();
    let prefixes = vec![s("/a")];
    match t.on_message(&prefixes, announce("/a/b", 4)) {
        RecvAction::NewTopic { name, id, prefix, .. } => {
            assert_eq!(name, "/a/b");
            assert_eq!(id, 4);
            assert_eq!(prefix, Some(0));
        }
        other => panic!("unexpected {other:?}"),
    }
    assert!(t.topic(&s("/a/b")).is_none());
}

#[test]
fn announce_of_known_topic_reannounces() {
    let mut t: TopicTable<u32> = TopicTable::new();
    t.insert_topic(s("/a"), 1);
    match t.on_message(&vec![], announce("/a", 4)) {
        RecvAction::Reannounce { name, id, .. } => {
            assert_eq!(name, "/a");
            assert_eq!(id, 4);
        }
        other => panic!("unexpected {other:?}"),
    }
}

#[test]
fn unannounce_updates_the_table() {
    let mut t: TopicTable<u32> = TopicTable::new();
    t.announce(s("/a"), 2, 7);
    let a = t.on_message(&vec![], NtMessage::Text(TextMessage::Unannounce { name: s("/a"), id: 2 }));
    assert!(matches!(a, RecvAction::Handled));
    assert!(t.topic(&s("/a")).is_none());
    assert!(t.topic_name(2).is_none());
}

#[test]
fn values_go_to_known_topics_only() {
    let mut t: TopicTable<u32> = TopicTable::new();
    t.announce(s("/a"), 2, 7);
    let data = |id| NtMessage::Binary(BinaryMessage { id, timestamp: 5, data: BinaryData::Int(9) });
    match t.on_message(&vec![], data(2)) {
        RecvAction::DeliverData { id, data } => {
            assert_eq!(id, 2);
            assert_eq!(data, BinaryData::Int(9));
        }
        other => panic!("unexpected {other:?}"),
    }
    assert!(matches!(t.on_message(&vec![], data(3)), RecvAction::Handled));
    match t.on_message(&vec![], data(-1)) {
        RecvAction::TimeReply { time, timestamp } => {
            assert_eq!(time, 9);
            assert_eq!(timestamp, 5);
        }
        other => panic!("unexpected {other:?}"),
    }
    let bad = NtMessage::Binary(BinaryMessage { id: -1, timestamp: 5, data: BinaryData::Boolean(true) });
    assert!(matches!(t.on_message(&vec![], bad), RecvAction::TypeError));
}

#[test]
fn properties_go_to_known_topics_only() {
    let mut t: TopicTable<u32> = TopicTable::new();
    t.insert_topic(s("/a"), 1);
    let props = |n: &str| NtMessage::Text(TextMessage::Properties { name: s(n), ack: false, update: Properties::default() });
    assert!(matches!(t.on_message(&vec![], props("/a")), RecvAction::DeliverProperties { .. }));
    assert!(matches!(t.on_message(&vec![], props("/b")), RecvAction::Handled));
}

#[test]
fn replay_keeps_what_is_sent_again() {
    let backlog = vec![
        NtMessage::Text(TextMessage::Unpublish { pubuid: 1 }),
        NtMessage::Text(TextMessage::Subscribe { topics: vec![], subuid: 2, options: SubscriptionOptions::default() }),
        NtMessage::Text(TextMessage::Subscribe { topics: vec![s("/a")], subuid: 3, options: SubscriptionOptions::default() }),
        NtMessage::Text(TextMessage::Unsubscribe { subuid: 4 }),
        NtMessage::Binary(BinaryMessage { id: 5, timestamp: 0, data: BinaryData::Int(1) }),
        NtMessage::Reconnect(None),
        NtMessage::Text(TextMessage::SetProperties { name: s("/a"), update: Properties::default() }),
    ];
    let out = replay_backlog(backlog);
    assert_eq!(out.len(), 4);
    assert!(matches!(&out[0], NtMessage::Text(TextMessage::Subscribe { subuid: 3, .. })));
    assert!(matches!(&out[1], NtMessage::Text(TextMessage::Unsubscribe { subuid: 4 })));
    assert!(matches!(&out[2], NtMessage::Binary(m) if m.id == 5));
    assert!(matches!(&out[3], NtMessage::Text(TextMessage::SetProperties { .. })));
}

#[test]
fn reconnect_hands_back_the_backlog() {
    let mut t: TopicTable<u32> = TopicTable::new();
    match t.on_message(&vec![], NtMessage::Reconnect(Some(vec![]))) {
        RecvAction::Reconnect { backlog } => assert!(backlog.is_empty()),
        other => panic!("unexpected {other:?}"),
    }
}
