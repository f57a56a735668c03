use data_pipe::common::utils::{create_random_message, get_parameter_from_query};
use data_pipe::configuration::Configuration;
use data_pipe::data::error::DataPipeError;
use data_pipe::data::messaging::data_pipe_message_type::DataPipeMessageType;

fn identification_error(r: Result<String, DataPipeError>) -> String {
    match r {
        Err(DataPipeError::ClientIdentificationError(text)) => text,
        Err(e) => panic!("unexpected error {:?}", e),
        Ok(v) => panic!("unexpected value {}", v),
    }
}

#[test]
fn parameter_is_read_from_the_query() {
    assert_eq!(get_parameter_from_query("?clientId=abc", "clientId").unwrap(), "abc");
    assert_eq!(get_parameter_from_query("/?clientId=abc", "clientId").unwrap(), "abc");
    assert_eq!(get_parameter_from_query("/ws?foo=1&clientId=xyz&bar=2", "clientId").unwrap(), "xyz");
    assert_eq!(get_parameter_from_query("?clientId=a=b", "clientId").unwrap(), "a=b");
    assert_eq!(get_parameter_from_query("?clientId=1&clientId=2", "clientId").unwrap(), "1");
    assert_eq!(get_parameter_from_query("?clientId=\u{e9}t\u{e9}#frag", "clientId").unwrap(), "\u{e9}t\u{e9}");
}

#[test]
fn empty_parameter_is_an_error() {
    assert_eq!(identification_error(get_parameter_from_query("?clientId=", "clientId")), "Parameter client id is empty");
    assert_eq!(identification_error(get_parameter_from_query("?clientId=&x=1", "clientId")), "Parameter client id is empty");
}

#[test]
fn missing_parameter_is_an_error() {
    assert_eq!(identification_error(get_parameter_from_query("/", "clientId")), "Parameter 'clientId' not found");
    assert_eq!(identification_error(get_parameter_from_query("?other=1", "clientId")), "Parameter 'clientId' not found");
    // the name runs up to the first `=`, so `a&clientId` is one name
    assert_eq!(identification_error(get_parameter_from_query("?a&clientId=5", "clientId")), "Parameter 'clientId' not found");
    // a pair needs `?` or `&` before it
    assert_eq!(identification_error(get_parameter_from_query("?x=1#clientId=2", "clientId")), "Parameter 'clientId' not found");
    assert_eq!(identification_error(get_parameter_from_query("clientId=2", "clientId")), "Parameter 'clientId' not found");
    assert_eq!(identification_error(get_parameter_from_query("?=2", "")), "Parameter '' not found");
}

#[test]
fn binding_address_joins_host_and_port() {
    let configuration = Configuration::default();
    assert_eq!(configuration.ws_inbound_channel_capacity, 1024);
    assert_eq!(configuration.ws_outbound_channel_capacity, 1024);
    assert_eq!(configuration.get_ws_binding_address(), "127.0.0.1:7878");
    let other = Configuration {
        ws_inbound_channel_capacity: 1,
        ws_outbound_channel_capacity: 1,
        ws_host: "example.org".to_owned(),
        ws_port: 0,
    };
    assert_eq!(other.get_ws_binding_address(), "example.org:0");
    let last = Configuration { ws_port: 65535, ..other };
    assert_eq!(last.get_ws_binding_address(), "example.org:65535");
}

#[test]
fn random_message_has_random_data_and_uuid() {
    let a = create_random_message("client".to_owned());
    let b = create_random_message("client".to_owned());
    assert_eq!(a.client_identifier, "client");
    assert_eq!(a.message_type, DataPipeMessageType::Default);
    assert_eq!(a.data.len(), 500);
    assert!(a.data.iter().any(|x| *x != 0));
    assert_ne!(a.data, b.data);
    assert!(a.topic.is_none());
    assert!(a.headers.is_empty());
    let id: Vec<char> = a.message_identifier.chars().collect();
    assert_eq!(id.len(), 36);
    for (i, c) in id.iter().enumerate() {
        if i == 8 || i == 13 || i == 18 || i == 23 {
            assert_eq!(*c, '-');
        } else {
            assert!(c.is_ascii_hexdigit() && !c.is_ascii_uppercase());
        }
    }
    assert_eq!(id[14], '4');
    assert_ne!(a.message_identifier, b.message_identifier);
}

#[test]
fn error_texts() {
    assert_eq!(DataPipeError::Unknown.to_message(), "Unknown error");
    assert_eq!(DataPipeError::ClientAlreadyExist.to_message(), "Client already exist");
    assert_eq!(DataPipeError::CantBind.to_message(), "Cant bind to specified port/host");
    assert_eq!(DataPipeError::TaskError("boom".to_owned()).to_message(), "Task execution error: boom");
    assert_eq!(
        DataPipeError::ClientIdentificationError("x".to_owned()).to_message(),
        "Cant identify client: x"
    );
    assert_eq!(
        DataPipeError::SubscriptionAlreadyExist("t".to_owned(), "g".to_owned()).to_message(),
        "Subscription for topic t and group g already exists"
    );
    assert_eq!(DataPipeError::CantParseMessage("m".to_owned()).to_message(), "Cant parse message, message: m");
}
