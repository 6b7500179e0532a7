//! A per-device data record: the topic the device is currently associated
//! with and an optional local identifier.

use vstd::prelude::*;

verus! {

/// Abstract value of a device record: both fields as character sequences.
#[verifier::ext_equal]
pub struct DataModel {
    pub topic: Option<Seq<char>>,
    pub local_id: Option<Seq<char>>,
}

/// The abstract value of an optional owned string.
pub open spec fn opt_str_view(o: Option<String>) -> Option<Seq<char>> {
    match o {
        Some(s) => Some(s@),
        None => None,
    }
}

/// A device record. Immutable after construction; equality and hashing are
/// by value.
#[derive(Clone, Debug, PartialEq, Eq, Hash)]
pub struct Data {
    topic: Option<String>,
    local_id: Option<String>,
}

impl View for Data {
    type V = DataModel;

    closed spec fn view(&self) -> DataModel {
        DataModel { topic: opt_str_view(self.topic), local_id: opt_str_view(self.local_id) }
    }
}

impl Data {
    /// Create new Data object.
    pub fn new(topic: Option<String>, local_id: Option<String>) -> (r: Data)
        ensures
            r@ == (DataModel { topic: opt_str_view(topic), local_id: opt_str_view(local_id) }),
    {
        Data { topic, local_id }
    }

    /// Fetch topic.
    pub fn topic(&self) -> (r: &Option<String>)
        ensures
            opt_str_view(*r) == self@.topic,
    {
        &self.topic
    }

    /// Fetch local id.
    pub fn local_id(&self) -> (r: &Option<String>)
        ensures
            opt_str_view(*r) == self@.local_id,
    {
        &self.local_id
    }

    /// Check if topic exists: whether this record's topic equals the given one.
    pub fn topic_is_found(&self, topic: &str) -> (b: bool)
        ensures
            b == (self@.topic == Some(topic@)),
    {
        match &self.topic {
            Some(value) => *value == topic.to_owned(),
            None => false,
        }
    }
}

} // verus!
