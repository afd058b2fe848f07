//! Broadcasts requested by an administrator.

use vstd::prelude::*;

use crate::api::broadcast::broadcast_of;
use crate::messages::envelope_view;
use crate::messages::InternalMessages;

verus! {

/// What is published for an envelope that an administrator posted: the
/// envelope itself if it is a broadcast, nothing otherwise.
pub fn broadcast(message: InternalMessages) -> (published: Option<InternalMessages>)
    ensures
        envelope_view(published) == broadcast_of(message@),
{
    match message {
        InternalMessages::BroadCastMessage { message, to } => Some(
            InternalMessages::BroadCastMessage { message, to },
        ),
        _ => None,
    }
}

} // verus!
