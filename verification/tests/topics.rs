use robotrs::topics::TopicTable;

fn s(x: &str) -> String {
    x.to_string()
}

#[test]
fn empty_table_knows_nothing() {
    let t: TopicTable<u32> = TopicTable::new();
    assert!(t.topic(&s("/a")).is_none());
    assert!(t.topic_name(3).is_none());
}

#[test]
fn announce_then_look_up() {
    let mut t: TopicTable<u32> = TopicTable::new();
    t.announce(s("/a"), 7, 100);
    t.announce(s("/b"), 8, 200);
    assert_eq!(t.topic(&s("/a")), Some(&100));
    assert_eq!(t.topic(&s("/b")), Some(&200));
    assert_eq!(t.topic_name(7), Some(&s("/a")));
    assert_eq!(t.topic_name(8), Some(&s("/b")));
    assert!(t.topic_name(9).is_none());
}

#[test]
fn insert_topic_replaces_channel() {
    let mut t: TopicTable<u32> = TopicTable::new();
    t.insert_topic(s("/a"), 1);
    t.insert_topic(s("/a"), 2);
    assert_eq!(t.topic(&s("/a")), Some(&2));
    assert_eq!(t.remove_topic(&s("/a")), Some(2));
    assert!(t.topic(&s("/a")).is_none());
    assert_eq!(t.remove_topic(&s("/a")), None);
}

#[test]
fn insert_id_replaces_name() {
    let mut t: TopicTable<u32> = TopicTable::new();
    t.insert_id(4, s("/x"));
    t.insert_id(4, s("/y"));
    assert_eq!(t.topic_name(4), Some(&s("/y")));
    assert_eq!(t.remove_id(4), Some(s("/y")));
    assert_eq!(t.remove_id(4), None);
}

#[test]
fn unannounce_undoes_announce() {
    let mut t: TopicTable<u32> = TopicTable::new();
    t.announce(s("/keep"), 1, 10);
    t.announce(s("/gone"), 2, 20);
    t.unannounce(&s("/gone"), 2);
    assert!(t.topic(&s("/gone")).is_none());
    assert!(t.topic_name(2).is_none());
    assert_eq!(t.topic(&s("/keep")), Some(&10));
    assert_eq!(t.topic_name(1), Some(&s("/keep")));
}

#[test]
fn reannounce_delivered_records_id() {
    let mut t: TopicTable<u32> = TopicTable::new();
    t.insert_topic(s("/a"), 5);
    t.reannounce(s("/a"), 12, true);
    assert_eq!(t.topic(&s("/a")), Some(&5));
    assert_eq!(t.topic_name(12), Some(&s("/a")));
}

#[test]
fn reannounce_undelivered_drops_topic() {
    let mut t: TopicTable<u32> = TopicTable::new();
    t.insert_topic(s("/a"), 5);
    t.reannounce(s("/a"), 12, false);
    assert!(t.topic(&s("/a")).is_none());
    assert!(t.topic_name(12).is_none());
}

#[test]
fn data_to_dropped_channel_forgets_topic() {
    let mut t: TopicTable<u32> = TopicTable::new();
    t.announce(s("/a"), 3, 30);
    t.data_sent(3, false);
    assert_eq!(t.topic(&s("/a")), Some(&30));
    t.data_sent(9, true);
    assert_eq!(t.topic_name(3), Some(&s("/a")));
    t.data_sent(3, true);
    assert!(t.topic(&s("/a")).is_none());
    assert!(t.topic_name(3).is_none());
}

#[test]
fn clear_ids_keeps_channels() {
    let mut t: TopicTable<u32> = TopicTable::new();
    t.announce(s("/a"), 1, 11);
    t.announce(s("/b"), 2, 22);
    t.clear_ids();
    assert!(t.topic_name(1).is_none());
    assert!(t.topic_name(2).is_none());
    assert_eq!(t.topic(&s("/b")), Some(&22));
}
