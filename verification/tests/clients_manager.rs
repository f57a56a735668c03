use data_pipe::data::client::Client;
use data_pipe::data::client_subscription_info::ClientSubscriptionInfo;
use data_pipe::data::clients_manager::ClientsManager;
use data_pipe::data::error::DataPipeError;

#[test]
pub fn add_client_with_subscription_should_not_fail() {
    let mut client = ClientsManager::new();
    let identifier = "test";
    _ = client.add(identifier, Client::new(identifier.to_owned(), 200));

    _ = client.add_subscription(
        &identifier.to_owned(),
        ClientSubscriptionInfo::new("topic".to_owned(), "group".to_owned()),
    );
}

#[test]
pub fn add_client_with_same_id_should_return_error() {
    let mut client = ClientsManager::new();
    let identifier = "test";
    _ = client.add(identifier, Client::new(identifier.to_owned(), 200));
    let result = client.add(identifier, Client::new(identifier.to_owned(), 200));
    assert!(result.is_err());
}

#[test]
pub fn add_subscription_with_same_topic_group_should_return_error() {
    let mut client = ClientsManager::new();
    let identifier = "test";
    let topic = "topic";
    let group = "group";
    _ = client.add(identifier, Client::new(identifier.to_owned(), 200));

    _ = client.add_subscription(
        &identifier,
        ClientSubscriptionInfo::new(topic.to_owned(), group.to_owned()),
    );
    let result = client.add_subscription(
        &identifier,
        ClientSubscriptionInfo::new(topic.to_owned(), group.to_owned()),
    );
    assert!(result.is_err());
}

fn info(group: &str, topic: &str) -> ClientSubscriptionInfo {
    ClientSubscriptionInfo { group: group.to_owned(), topic: topic.to_owned() }
}

#[test]
fn added_client_is_found_and_counted() {
    let mut m = ClientsManager::new();
    assert!(m.is_empty());
    assert!(m.add("a", Client::new("a".to_owned(), 8)).is_ok());
    assert!(m.add("b", Client::new("b".to_owned(), 8)).is_ok());
    assert_eq!(m.len(), 2);
    assert!(!m.is_empty());
    assert!(m.contains("a"));
    assert!(!m.contains("c"));
    assert_eq!(m.get("b").unwrap().identifier, "b");
    assert!(m.get("c").is_none());
    assert_eq!(m.get_by_index(0).unwrap().identifier, "a");
    assert_eq!(m.get_by_index(1).unwrap().identifier, "b");
    assert!(m.get_by_index(2).is_none());
}

#[test]
fn duplicate_client_error_is_client_already_exist() {
    let mut m = ClientsManager::new();
    assert!(m.add("a", Client::new("a".to_owned(), 8)).is_ok());
    match m.add("a", Client::new("other".to_owned(), 8)) {
        Err(DataPipeError::ClientAlreadyExist) => {}
        _ => panic!("expected ClientAlreadyExist"),
    }
    assert_eq!(m.len(), 1);
    assert_eq!(m.get("a").unwrap().identifier, "a");
}

#[test]
fn subscription_is_recorded_on_the_client() {
    let mut m = ClientsManager::new();
    assert!(m.add("a", Client::new("a".to_owned(), 8)).is_ok());
    assert!(!m.contains_subscription("t", "g"));
    assert!(m.add_subscription("a", info("g", "t")).is_ok());
    assert!(m.contains_subscription("t", "g"));
    assert!(!m.contains_subscription("g", "t"));
    assert!(!m.contains_subscription("t", "h"));
    let subs = &m.get("a").unwrap().subscription_infos;
    assert_eq!(subs.len(), 1);
    assert_eq!(subs[0].group, "g");
    assert_eq!(subs[0].topic, "t");
}

#[test]
fn duplicate_subscription_reports_topic_and_group() {
    let mut m = ClientsManager::new();
    assert!(m.add("a", Client::new("a".to_owned(), 8)).is_ok());
    assert!(m.add("b", Client::new("b".to_owned(), 8)).is_ok());
    assert!(m.add_subscription("a", info("g", "t")).is_ok());
    match m.add_subscription("b", info("g", "t")) {
        Err(DataPipeError::SubscriptionAlreadyExist(topic, group)) => {
            assert_eq!(topic, "t");
            assert_eq!(group, "g");
        }
        _ => panic!("expected SubscriptionAlreadyExist"),
    }
    assert_eq!(m.get("b").unwrap().subscription_infos.len(), 0);
}

#[test]
fn unsubscribe_forgets_the_subscription() {
    let mut m = ClientsManager::new();
    assert!(m.add("a", Client::new("a".to_owned(), 8)).is_ok());
    assert!(m.add_subscription("a", info("g", "t")).is_ok());
    assert!(m.remove_subscription("a", "t", "g").is_ok());
    assert!(!m.contains_subscription("t", "g"));
    assert_eq!(m.get("a").unwrap().subscription_infos.len(), 0);
    // subscribing again is allowed after the unsubscription
    assert!(m.add_subscription("a", info("g", "t")).is_ok());
}

#[test]
fn unsubscribe_drops_subscriptions_sharing_topic_or_group() {
    let mut m = ClientsManager::new();
    assert!(m.add("a", Client::new("a".to_owned(), 8)).is_ok());
    assert!(m.add_subscription("a", info("g1", "t1")).is_ok());
    assert!(m.add_subscription("a", info("g2", "t1")).is_ok());
    assert!(m.add_subscription("a", info("g1", "t2")).is_ok());
    assert!(m.add_subscription("a", info("g2", "t2")).is_ok());
    assert!(m.remove_subscription("a", "t1", "g1").is_ok());
    let subs = &m.get("a").unwrap().subscription_infos;
    assert_eq!(subs.len(), 1);
    assert_eq!(subs[0].group, "g2");
    assert_eq!(subs[0].topic, "t2");
    // the other pairs are still recorded
    assert!(m.contains_subscription("t1", "g2"));
    assert!(!m.contains_subscription("t1", "g1"));
}

#[test]
fn unsubscribe_of_unknown_pair_changes_nothing() {
    let mut m = ClientsManager::new();
    assert!(m.add("a", Client::new("a".to_owned(), 8)).is_ok());
    assert!(m.add_subscription("a", info("g", "t")).is_ok());
    assert!(m.remove_subscription("nobody", "x", "y").is_ok());
    assert_eq!(m.get("a").unwrap().subscription_infos.len(), 1);
    assert!(m.contains_subscription("t", "g"));
}

#[test]
fn removed_client_takes_its_subscriptions() {
    let mut m = ClientsManager::new();
    assert!(m.add("a", Client::new("a".to_owned(), 8)).is_ok());
    assert!(m.add("b", Client::new("b".to_owned(), 8)).is_ok());
    assert!(m.add_subscription("a", info("g", "t")).is_ok());
    assert!(m.add_subscription("b", info("g", "u")).is_ok());
    let removed = m.remove("a");
    assert_eq!(removed.unwrap().identifier, "a");
    assert!(!m.contains("a"));
    assert!(m.contains("b"));
    assert_eq!(m.len(), 1);
    assert!(!m.contains_subscription("t", "g"));
    assert!(m.contains_subscription("u", "g"));
    assert!(m.remove("a").is_none());
}

#[test]
fn try_variants_refuse_an_unknown_client() {
    let mut m = ClientsManager::new();
    assert!(m.try_add_subscription("ghost", info("g", "t")).is_none());
    assert!(!m.contains_subscription("t", "g"));
    assert!(m.add("a", Client::new("a".to_owned(), 8)).is_ok());
    assert!(matches!(m.try_add_subscription("a", info("g", "t")), Some(Ok(()))));
    // the pair is recorded: a duplicate is refused even for an unknown client
    assert!(matches!(m.try_add_subscription("ghost", info("g", "t")), Some(Err(_))));
    assert!(m.try_remove_subscription("ghost", "t", "g").is_none());
    assert!(matches!(m.try_remove_subscription("ghost", "x", "y"), Some(Ok(()))));
    assert!(matches!(m.try_remove_subscription("a", "t", "g"), Some(Ok(()))));
    assert!(!m.contains_subscription("t", "g"));
}

#[test]
fn remove_gives_back_the_client_that_was_added() {
    let mut m = ClientsManager::new();
    assert!(m.add("x", Client::new("x".to_owned(), 8)).is_ok());
    let client = Client::new("a".to_owned(), 8);
    let mut receiver = client.sender.subscribe();
    assert!(m.add("a", client).is_ok());
    let back = m.remove("a").unwrap();
    assert_eq!(back.identifier, "a");
    assert!(back.sender.channel.send(data_pipe::data::messaging::data_pipe_message::DataPipeMessage::default()).is_ok());
    assert!(receiver.try_recv().is_ok());
    assert_eq!(m.len(), 1);
    assert!(m.contains("x"));
    assert!(!m.contains("a"));
}
