//! What the relay knows of a channel.

use vstd::prelude::*;

verus! {

/// The mathematical content of a [`ChannelDescriptor`].
pub struct ChannelView {
    pub id: u64,
    pub parent_id: Option<u64>,
}

/// A guild channel: its own identifier and that of the category it sits in,
/// if it sits in one. Identifiers of the platform are never zero.
#[derive(Clone, Copy, Debug, PartialEq, Eq)]
pub struct ChannelDescriptor {
    id: u64,
    parent_id: Option<u64>,
}

impl View for ChannelDescriptor {
    type V = ChannelView;

    closed spec fn view(&self) -> ChannelView {
        ChannelView { id: self.id, parent_id: self.parent_id }
    }
}

impl ChannelDescriptor {
    #[verifier::type_invariant]
    spec fn ids_are_not_zero(self) -> bool {
        self.id != 0 && self.parent_id != Some(0u64)
    }

    /// A descriptor for the given identifiers, or `None` where one of them is
    /// zero.
    pub fn new(id: u64, parent_id: Option<u64>) -> (made: Option<ChannelDescriptor>)
        ensures
            made is Some <==> id != 0 && parent_id != Some(0u64),
            made matches Some(channel) ==> channel@ == (ChannelView { id, parent_id }),
    {
        let parent_is_zero = match parent_id {
            Some(parent) => parent == 0,
            None => false,
        };
        if id == 0 || parent_is_zero {
            None
        } else {
            Some(ChannelDescriptor { id, parent_id })
        }
    }

    /// The channel's own identifier.
    pub fn id(&self) -> (id: u64)
        ensures
            id == self@.id,
            id != 0,
    {
        proof {
            use_type_invariant(self);
        }
        self.id
    }

    /// The identifier of the category above the channel.
    pub fn parent_id(&self) -> (parent_id: Option<u64>)
        ensures
            parent_id == self@.parent_id,
            parent_id != Some(0u64),
    {
        proof {
            use_type_invariant(self);
        }
        self.parent_id
    }
}

} // verus!
