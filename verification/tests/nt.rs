use robotrs::nt::{
    apply_update, consume_updates, needs_reconnect, SubscriberUpdate, UpdateOutcome, server_time, server_time_offset, BinaryData, MissingOrNull, MsgPack, Payload, Properties, ProtoBuf, Rpc,
    SubscriptionOptions,
};

#[test]
fn missing_keeps_value() {
    let mut v = MissingOrNull::Value(true);
    v.update(MissingOrNull::Missing);
    assert_eq!(v, MissingOrNull::Value(true));
    v.update(MissingOrNull::Null);
    assert_eq!(v, MissingOrNull::Null);
    v.update(MissingOrNull::Value(false));
    assert_eq!(v, MissingOrNull::Value(false));
}

#[test]
fn update_twice_is_update_once() {
    let mut once = MissingOrNull::Value(1u8);
    once.update(MissingOrNull::Value(2));
    let mut twice = once;
    twice.update(MissingOrNull::Value(2));
    assert_eq!(once, twice);
}

#[test]
fn missing_or_null_defaults_and_options() {
    assert_eq!(MissingOrNull::<u8>::default(), MissingOrNull::Missing);
    assert_eq!(MissingOrNull::from(Some(3u8)), MissingOrNull::Value(3));
    assert_eq!(MissingOrNull::<u8>::from(None), MissingOrNull::Null);
    assert_eq!(Option::<u8>::from(MissingOrNull::Value(4)), Some(4));
    assert_eq!(Option::<u8>::from(MissingOrNull::Null), None);
    assert_eq!(Option::<u8>::from(MissingOrNull::Missing), None);
}

#[test]
fn properties_update_by_field() {
    let mut p = Properties { persistent: MissingOrNull::Value(true), retained: MissingOrNull::Null };
    p.update(Properties { persistent: MissingOrNull::Missing, retained: MissingOrNull::Value(true) });
    assert_eq!(p.persistent, MissingOrNull::Value(true));
    assert_eq!(p.retained, MissingOrNull::Value(true));
    let before = p;
    p.update(Properties::default());
    assert_eq!(p, before);
}

#[test]
fn subscription_options_builders() {
    let o = SubscriptionOptions::default().periodic(100).all(true).topicsonly(false).prefix(true);
    assert_eq!(
        o,
        SubscriptionOptions {
            periodic: Some(100),
            all: Some(true),
            topicsonly: Some(false),
            prefix: Some(true),
        }
    );
    assert_eq!(SubscriptionOptions::default().periodic, None);
}

#[test]
fn payload_names() {
    assert_eq!(<bool as Payload>::name(), Some("boolean"));
    assert_eq!(<i64 as Payload>::name(), Some("int"));
    assert_eq!(<String as Payload>::name(), Some("string"));
    assert_eq!(<Vec<u8> as Payload>::name(), Some("raw"));
    assert_eq!(<MsgPack as Payload>::name(), Some("msgpack"));
    assert_eq!(<Rpc as Payload>::name(), Some("rpc"));
    assert_eq!(<ProtoBuf as Payload>::name(), Some("protobuf"));
    assert_eq!(<BinaryData as Payload>::name(), None);
}

#[test]
fn payload_parse_matching_types() {
    assert_eq!(bool::parse(BinaryData::Boolean(true)), Ok(true));
    assert_eq!(i64::parse(BinaryData::Int(-4)), Ok(-4));
    assert_eq!(String::parse(BinaryData::Str("a".to_string())), Ok("a".to_string()));
    assert_eq!(<Vec<u8>>::parse(BinaryData::Bin(vec![1, 2])), Ok(vec![1, 2]));
    assert_eq!(MsgPack::parse(BinaryData::Bin(vec![9])).map(|m| m.0), Ok(vec![9]));
}

#[test]
fn payload_parse_rejects_other_types() {
    assert_eq!(bool::parse(BinaryData::Int(1)), Err(()));
    assert_eq!(i64::parse(BinaryData::Boolean(true)), Err(()));
    assert_eq!(String::parse(BinaryData::Bin(vec![])), Err(()));
    assert!(Rpc::parse(BinaryData::Str(String::new())).is_err());
}

#[test]
fn payload_to_val_roundtrip() {
    assert_eq!(true.to_val(), BinaryData::Boolean(true));
    assert_eq!(7i64.to_val(), BinaryData::Int(7));
    assert_eq!(i64::parse(7i64.to_val()), Ok(7));
    assert_eq!(ProtoBuf(vec![3]).to_val(), BinaryData::Bin(vec![3]));
    assert_eq!(BinaryData::parse(BinaryData::Float(5)), Ok(BinaryData::Float(5)));
}

#[test]
fn clock_offset_from_time_reply() {
    // Sent at 1000, server answered 50_000, received at 1200: server time at arrival is
    // 50_000 + (1200 - 1000) / 2 = 50_100, so the offset is 50_100 - 1200.
    assert_eq!(server_time_offset(1_000, 50_000, 1_200, 1_200), 48_900);
    // Odd round trips round toward zero, and a later reading shrinks the offset.
    assert_eq!(server_time_offset(1_000, 50_000, 1_201, 1_210), 48_890);
    // A sent time after the arrival time gives a negative round trip, halved toward zero.
    assert_eq!(server_time_offset(1_003, 10, 1_000, 1_000), -991);
}

#[test]
fn server_clock_and_reconnect() {
    assert_eq!(server_time(1_000, 500), 1_500);
    assert_eq!(server_time(1_000, -400), 600);
    assert_eq!(server_time(1, -2), u64::MAX);
    assert!(robotrs::nt::server_time_fits(5, -10));
    assert!(!robotrs::nt::server_time_fits(i64::MAX as u64, 1));
    assert!(!needs_reconnect(3_000_000, 0));
    assert!(needs_reconnect(3_000_001, 0));
}

fn persistent(v: bool) -> Properties {
    Properties { persistent: MissingOrNull::Value(v), retained: MissingOrNull::Missing }
}

#[test]
fn subscriber_merges_properties() {
    let mut props = None;
    let o = apply_update::<bool>(&mut props, SubscriberUpdate::Properties(persistent(true)));
    assert!(matches!(o, UpdateOutcome::Continue));
    assert_eq!(props, Some(persistent(true)));
    let retained = Properties { persistent: MissingOrNull::Missing, retained: MissingOrNull::Null };
    apply_update::<bool>(&mut props, SubscriberUpdate::Properties(retained));
    assert_eq!(
        props,
        Some(Properties { persistent: MissingOrNull::Value(true), retained: MissingOrNull::Null })
    );
}

#[test]
fn subscriber_checks_types() {
    let mut props = None;
    assert!(matches!(
        apply_update::<bool>(&mut props, SubscriberUpdate::Type("boolean".to_string())),
        UpdateOutcome::Continue
    ));
    assert!(matches!(
        apply_update::<bool>(&mut props, SubscriberUpdate::Type("double".to_string())),
        UpdateOutcome::TypeMismatch
    ));
    assert!(matches!(
        apply_update::<BinaryData>(&mut props, SubscriberUpdate::Type("double".to_string())),
        UpdateOutcome::Continue
    ));
    assert!(matches!(
        apply_update::<bool>(&mut props, SubscriberUpdate::Data(BinaryData::Boolean(false))),
        UpdateOutcome::Value(false)
    ));
    assert!(matches!(
        apply_update::<bool>(&mut props, SubscriberUpdate::Data(BinaryData::Int(1))),
        UpdateOutcome::TypeMismatch
    ));
    assert_eq!(props, None);
}

#[test]
fn subscriber_keeps_last_value() {
    let mut props = None;
    let updates = vec![
        SubscriberUpdate::Data(BinaryData::Int(1)),
        SubscriberUpdate::Properties(persistent(false)),
        SubscriberUpdate::Id(4),
        SubscriberUpdate::Data(BinaryData::Int(2)),
    ];
    assert_eq!(consume_updates::<i64>(&mut props, updates), Ok(Some(2)));
    assert_eq!(props, Some(persistent(false)));
    assert_eq!(consume_updates::<i64>(&mut props, vec![]), Ok(None));
    let bad = vec![SubscriberUpdate::Data(BinaryData::Boolean(true))];
    assert_eq!(consume_updates::<i64>(&mut props, bad), Err(()));
}

#[test]
fn consume_updates_keeps_the_last_value() {
    let mut props = None;
    let r = consume_updates::<i64>(
        &mut props,
        vec![SubscriberUpdate::Data(BinaryData::Int(1)), SubscriberUpdate::Id(3), SubscriberUpdate::Data(BinaryData::Int(2))],
    );
    assert_eq!(r, Ok(Some(2)));
    let r = consume_updates::<i64>(
        &mut props,
        vec![SubscriberUpdate::Data(BinaryData::Int(1)), SubscriberUpdate::Data(BinaryData::Boolean(true))],
    );
    assert_eq!(r, Err(()));
    let r = consume_updates::<i64>(&mut props, vec![SubscriberUpdate::Type("string".to_string())]);
    assert_eq!(r, Err(()));
    let r = consume_updates::<i64>(&mut props, vec![SubscriberUpdate::Type("int".to_string())]);
    assert_eq!(r, Ok(None));
}
