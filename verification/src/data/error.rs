use vstd::prelude::*;

verus! {

/// Every failure of the data pipe.
#[derive(Debug)]
pub enum DataPipeError {
    Unknown,
    ClientAlreadyExist,
    ClientNotFound,
    ReceiveMessageFailed,
    SendMessageFailed,
    CantBind,
    CantConnect,
    TaskError(String),
    ClientIdentificationError(String),
    CantParseMessage(String),
    /// Topic, then group.
    SubscriptionAlreadyExist(String, String),
    SerializationError,
    NotSuitableCall(String),
}

pub type DataPipeResult<T> = Result<T, DataPipeError>;

/// The human-readable text of an error.
pub open spec fn error_message(e: DataPipeError) -> Seq<char> {
    match e {
        DataPipeError::Unknown => "Unknown error"@,
        DataPipeError::ClientAlreadyExist => "Client already exist"@,
        DataPipeError::ClientNotFound => "Client not found"@,
        DataPipeError::ReceiveMessageFailed => "Receive message failed"@,
        DataPipeError::SendMessageFailed => "Send message failed"@,
        DataPipeError::CantBind => "Cant bind to specified port/host"@,
        DataPipeError::CantConnect => "Cant connect to specified port/host"@,
        DataPipeError::TaskError(s) => "Task execution error: "@ + s@,
        DataPipeError::ClientIdentificationError(s) => "Cant identify client: "@ + s@,
        DataPipeError::CantParseMessage(s) => "Cant parse message, message: "@ + s@,
        DataPipeError::SubscriptionAlreadyExist(topic, group) =>
            "Subscription for topic "@ + topic@ + " and group "@ + group@ + " already exists"@,
        DataPipeError::SerializationError => "Serialization error"@,
        DataPipeError::NotSuitableCall(s) => "Not suitable call: "@ + s@,
    }
}

impl DataPipeError {
    /// The human-readable text of this error.
    pub fn to_message(&self) -> (text: String)
        ensures
            text@ == error_message(*self),
    {
        match self {
            DataPipeError::Unknown => String::from_str("Unknown error"),
            DataPipeError::ClientAlreadyExist => String::from_str("Client already exist"),
            DataPipeError::ClientNotFound => String::from_str("Client not found"),
            DataPipeError::ReceiveMessageFailed => String::from_str("Receive message failed"),
            DataPipeError::SendMessageFailed => String::from_str("Send message failed"),
            DataPipeError::CantBind => String::from_str("Cant bind to specified port/host"),
            DataPipeError::CantConnect => String::from_str("Cant connect to specified port/host"),
            DataPipeError::TaskError(s) => {
                let mut text = String::from_str("Task execution error: ");
                text.append(s.as_str());
                text
            },
            DataPipeError::ClientIdentificationError(s) => {
                let mut text = String::from_str("Cant identify client: ");
                text.append(s.as_str());
                text
            },
            DataPipeError::CantParseMessage(s) => {
                let mut text = String::from_str("Cant parse message, message: ");
                text.append(s.as_str());
                text
            },
            DataPipeError::SubscriptionAlreadyExist(topic, group) => {
                let mut text = String::from_str("Subscription for topic ");
                text.append(topic.as_str());
                text.append(" and group ");
                text.append(group.as_str());
                text.append(" already exists");
                text
            },
            DataPipeError::SerializationError => String::from_str("Serialization error"),
            DataPipeError::NotSuitableCall(s) => {
                let mut text = String::from_str("Not suitable call: ");
                text.append(s.as_str());
                text
            },
        }
    }
}

} // verus!
