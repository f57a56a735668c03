use data_pipe::data::client_subscription_info::ClientSubscriptionInfo;
use data_pipe::data::error::DataPipeError;
use data_pipe::data::messaging::data_pipe_message::DataPipeMessage;
use data_pipe::data::messaging::data_pipe_message_header::DataPipeMessageHeader;
use data_pipe::data::messaging::data_pipe_message_type::DataPipeMessageType;

#[test]
pub fn should_serialize_message_for_subscription() {
    let topic = "test_topic";
    let group = "test_group";
    let client_identifier = "identifier";
    let message_identifier = "message_identifier";
    let subscription_infos = vec![ClientSubscriptionInfo {
        topic: topic.to_owned(),
        group: group.to_owned(),
    }];

    let message = DataPipeMessage::with_subscription(
        client_identifier.to_owned(),
        message_identifier.to_owned(),
        &subscription_infos,
        None,
        vec![],
    );

    assert!(message.is_ok());

    let message_unwrapped = message.unwrap();
    assert!(message_unwrapped.data.len() > 0);
    assert!(message_unwrapped.is_subscribe());
}

#[test]
pub fn should_serialize_message_for_unsubscribe() {
    let topic = "test_topic";
    let group = "test_group";
    let client_identifier = "identifier";
    let message_identifier = "message_identifier";
    let subscription_infos = vec![ClientSubscriptionInfo {
        topic: topic.to_owned(),
        group: group.to_owned(),
    }];

    let message = DataPipeMessage::with_unsubscribe(
        client_identifier.to_owned(),
        message_identifier.to_owned(),
        &subscription_infos,
        None,
        vec![],
    );

    assert!(message.is_ok());

    let message_unwrapped = message.unwrap();
    assert!(message_unwrapped.data.len() > 0);
    assert!(message_unwrapped.is_unsubscribe() == true);
}

#[test]
pub fn should_deserialize_correctly() {
    let topic = "test_topic";
    let group = "test_group";
    let client_identifier = "identifier";
    let message_identifier = "message_identifier";
    let subscription_infos = vec![ClientSubscriptionInfo {
        topic: topic.to_owned(),
        group: group.to_owned(),
    }];

    let message = DataPipeMessage::with_unsubscribe(
        client_identifier.to_owned(),
        message_identifier.to_owned(),
        &subscription_infos,
        None,
        vec![],
    );

    assert!(message.is_ok());
    let message_unwrapped = message.unwrap();
    assert!(message_unwrapped.data.len() > 0);

    let infos_result = message_unwrapped.deserialize_subscription_data();
    assert!(infos_result.is_ok());
    let infos = infos_result.unwrap();

    assert_eq!(infos.len(), 1);
    assert_eq!(infos[0].topic, topic);
    assert_eq!(infos[0].group, group);
}

#[test]
pub fn should_return_error_when_trying_get_sub_info_for_different_type() {
    let client_identifier = "identifier";
    let message_identifier = "message_identifier";

    let message = DataPipeMessage::new(
        client_identifier.to_owned(),
        message_identifier.to_owned(),
        DataPipeMessageType::Default,
        vec![],
        None,
        vec![],
    );

    let result = message.deserialize_subscription_data();
    assert!(result.is_err());
}

fn info(group: &str, topic: &str) -> ClientSubscriptionInfo {
    ClientSubscriptionInfo { group: group.to_owned(), topic: topic.to_owned() }
}

#[test]
fn subscription_data_is_compact_msgpack() {
    let message = DataPipeMessage::with_subscription(
        "c".to_owned(),
        "m".to_owned(),
        &[info("g", "t")],
        Some("topic".to_owned()),
        vec![DataPipeMessageHeader { key: "k".to_owned(), value: "v".to_owned() }],
    )
    .unwrap();
    // array of one element, itself an array of two strings: group, then topic
    assert_eq!(message.data, vec![0x91, 0x92, 0xa1, b'g', 0xa1, b't']);
    assert_eq!(message.client_identifier, "c");
    assert_eq!(message.message_identifier, "m");
    assert_eq!(message.topic.as_deref(), Some("topic"));
    assert_eq!(message.headers.len(), 1);
    assert_eq!(message.headers[0].key, "k");
    assert!(message.is_subscribe());
    assert!(!message.is_unsubscribe());
}

#[test]
fn several_subscriptions_read_back_in_order() {
    let infos = vec![info("g1", "t1"), info("", ""), info("g\u{e9}", "t\u{1F600}")];
    let message = DataPipeMessage::with_subscription("c".to_owned(), "m".to_owned(), &infos, None, vec![]).unwrap();
    let back = message.deserialize_subscription_data().unwrap();
    assert_eq!(back.len(), 3);
    for (a, b) in infos.iter().zip(back.iter()) {
        assert_eq!(a.group, b.group);
        assert_eq!(a.topic, b.topic);
    }
}

#[test]
fn empty_subscription_list_round_trips() {
    let message = DataPipeMessage::with_unsubscribe("c".to_owned(), "m".to_owned(), &[], None, vec![]).unwrap();
    assert_eq!(message.data, vec![0x90]);
    assert_eq!(message.deserialize_subscription_data().unwrap().len(), 0);
}

#[test]
fn garbage_data_is_a_serialization_error() {
    let message = DataPipeMessage::new(
        "c".to_owned(),
        "m".to_owned(),
        DataPipeMessageType::Subscribe,
        vec![0xc1, 0x00],
        None,
        vec![],
    );
    assert!(matches!(message.deserialize_subscription_data(), Err(DataPipeError::SerializationError)));
}

#[test]
fn default_type_is_not_suitable_for_subscription_data() {
    let message = DataPipeMessage::new(
        "c".to_owned(),
        "m".to_owned(),
        DataPipeMessageType::Default,
        vec![0x90],
        None,
        vec![],
    );
    match message.deserialize_subscription_data() {
        Err(DataPipeError::NotSuitableCall(text)) => assert_eq!(text, "Not allowed to get sub/unsub info"),
        _ => panic!("expected NotSuitableCall"),
    }
}

#[test]
fn message_display_text() {
    let mut message = DataPipeMessage::new(
        "client".to_owned(),
        "m".to_owned(),
        DataPipeMessageType::Unsubscribe,
        vec![],
        None,
        vec![],
    );
    assert_eq!(message.to_display_string(), "Message from client, type Unsubscribe, topic -");
    message.topic = Some("news".to_owned());
    message.message_type = DataPipeMessageType::Default;
    assert_eq!(message.to_display_string(), "Message from client, type Default, topic news");
    assert_eq!(DataPipeMessageType::Subscribe.to_display_string(), "Subscribe");
}

#[test]
fn defaults_are_empty() {
    let message = DataPipeMessage::default();
    assert_eq!(message.client_identifier, "");
    assert_eq!(message.message_type, DataPipeMessageType::Default);
    assert!(message.data.is_empty());
    assert!(message.topic.is_none());
    assert!(message.headers.is_empty());
    let header = DataPipeMessageHeader::default();
    assert_eq!(header.key, "");
    let sub = ClientSubscriptionInfo::default();
    assert_eq!(sub.group, "");
    assert_eq!(DataPipeMessageType::default(), DataPipeMessageType::Default);
}

#[test]
fn subscribe_and_unsubscribe_carry_the_same_data() {
    let infos = vec![info("group", "topic")];
    let sub = DataPipeMessage::with_subscription("c".to_owned(), "m".to_owned(), &infos, None, vec![]).unwrap();
    let unsub = DataPipeMessage::with_unsubscribe("c".to_owned(), "m".to_owned(), &infos, None, vec![]).unwrap();
    assert_eq!(sub.data, unsub.data);
    assert!(unsub.is_unsubscribe() && !unsub.is_subscribe());
}

#[test]
fn long_strings_use_wider_headers() {
    let group = "g".repeat(40);
    let topic = "t".repeat(300);
    let m = DataPipeMessage::with_subscription("c".to_owned(), "m".to_owned(), &[info(&group, &topic)], None, vec![]).unwrap();
    assert_eq!(&m.data[..4], &[0x91, 0x92, 0xd9, 40]);
    assert_eq!(&m.data[44..47], &[0xda, 0x01, 0x2c]);
    assert_eq!(m.data.len(), 4 + 40 + 3 + 300);
    let back = m.deserialize_subscription_data().unwrap();
    assert_eq!(back[0].group, group);
    assert_eq!(back[0].topic, topic);
}

#[test]
fn clone_copies_every_field() {
    let m = DataPipeMessage::new(
        "c".to_owned(),
        "m".to_owned(),
        DataPipeMessageType::Subscribe,
        vec![1, 2, 3],
        Some("t".to_owned()),
        vec![DataPipeMessageHeader { key: "k".to_owned(), value: "v".to_owned() }],
    );
    let c = m.clone();
    assert_eq!(c.client_identifier, "c");
    assert_eq!(c.message_identifier, "m");
    assert_eq!(c.message_type, DataPipeMessageType::Subscribe);
    assert_eq!(c.data, vec![1, 2, 3]);
    assert_eq!(c.topic.as_deref(), Some("t"));
    assert_eq!(c.headers[0].key, "k");
    assert_eq!(c.headers[0].value, "v");
}

#[test]
fn map_encoded_entry_is_refused() {
    let mut data = vec![0x91, 0x82, 0xa5];
    data.extend_from_slice(b"group");
    data.extend_from_slice(&[0xa1, b'g', 0xa5]);
    data.extend_from_slice(b"topic");
    data.extend_from_slice(&[0xa1, b't']);
    let message = DataPipeMessage::new("c".to_owned(), "m".to_owned(), DataPipeMessageType::Subscribe, data, None, vec![]);
    assert!(matches!(message.deserialize_subscription_data(), Err(DataPipeError::SerializationError)));
}
