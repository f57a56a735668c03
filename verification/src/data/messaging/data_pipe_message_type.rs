use vstd::prelude::*;

verus! {

/// What a message is for: ordinary data, or a request to subscribe to or
/// unsubscribe from topics.
#[derive(Clone, Copy, Debug, PartialEq, Eq, Structural)]
pub enum DataPipeMessageType {
    Default,
    Subscribe,
    Unsubscribe,
}

/// The name of a message type, as it is displayed.
pub open spec fn message_type_name(t: DataPipeMessageType) -> Seq<char> {
    match t {
        DataPipeMessageType::Default => "Default"@,
        DataPipeMessageType::Subscribe => "Subscribe"@,
        DataPipeMessageType::Unsubscribe => "Unsubscribe"@,
    }
}

impl DataPipeMessageType {
    /// The name of this message type, as it is displayed.
    pub fn to_display_string(&self) -> (name: String)
        ensures
            name@ == message_type_name(*self),
    {
        match self {
            DataPipeMessageType::Default => String::from_str("Default"),
            DataPipeMessageType::Subscribe => String::from_str("Subscribe"),
            DataPipeMessageType::Unsubscribe => String::from_str("Unsubscribe"),
        }
    }
}

impl Default for DataPipeMessageType {
    fn default() -> (t: DataPipeMessageType)
        ensures
            t == DataPipeMessageType::Default,
    {
        DataPipeMessageType::Default
    }
}

} // verus!
