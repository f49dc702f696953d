use std::collections::HashMap;
use vstd::prelude::*;

verus! {

/// The logical role of a hardware channel.
#[derive(Clone, Copy, Debug, PartialEq, Eq, Structural)]
pub enum ChannelType {
    Cebra0,
    Cebra1,
    Cebra2,
    Cebra3,
    Cebra4,
    Cebra5,
    Cebra6,
    AnodeFront,
    AnodeBack,
    ScintLeft,
    ScintRight,
    Cathode,
}

/// Resolves hardware identifiers to channel types.
///
/// The view is the finite map from every known identifier to its type.
pub struct ChannelMap {
    map: HashMap<u32, ChannelType>,
}

impl View for ChannelMap {
    type V = Map<u32, ChannelType>;

    closed spec fn view(&self) -> Map<u32, ChannelType> {
        self.map@
    }
}

impl ChannelMap {
    /// A map that resolves no identifier.
    pub fn new() -> (result: ChannelMap)
        ensures
            result@ == Map::<u32, ChannelType>::empty(),
    {
        ChannelMap { map: HashMap::new() }
    }

    /// Assigns `channel_type` to `uuid`, replacing an earlier assignment.
    pub fn insert(&mut self, uuid: u32, channel_type: ChannelType)
        ensures
            final(self)@ == old(self)@.insert(uuid, channel_type),
    {
        broadcast use vstd::std_specs::hash::group_hash_axioms;

        self.map.insert(uuid, channel_type);
    }

    /// The channel type of `uuid`, or `None` where the map does not know it.
    pub fn get_channel_data(&self, uuid: &u32) -> (result: Option<ChannelType>)
        ensures
            result == (if self@.contains_key(*uuid) {
                Some(self@[*uuid])
            } else {
                None
            }),
    {
        broadcast use vstd::std_specs::hash::group_hash_axioms;

        match self.map.get(uuid) {
            Some(channel_type) => Some(*channel_type),
            None => None,
        }
    }
}

} // verus!
