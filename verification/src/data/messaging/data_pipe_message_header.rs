use vstd::prelude::*;

verus! {

/// A key/value header carried by a message.
#[derive(Debug)]
pub struct DataPipeMessageHeader {
    pub key: String,
    pub value: String,
}

impl Clone for DataPipeMessageHeader {
    fn clone(&self) -> (h: Self)
        ensures
            h.key == self.key,
            h.value == self.value,
    {
        DataPipeMessageHeader { key: self.key.clone(), value: self.value.clone() }
    }
}

impl Default for DataPipeMessageHeader {
    fn default() -> (h: DataPipeMessageHeader)
        ensures
            h.key@ == Seq::<char>::empty(),
            h.value@ == Seq::<char>::empty(),
    {
        DataPipeMessageHeader { key: String::new(), value: String::new() }
    }
}

} // verus!
