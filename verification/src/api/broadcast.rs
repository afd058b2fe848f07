//! Broadcasts requested over HTTP.

use vstd::prelude::*;

use crate::error::AppError;
use crate::messages::envelope_view;
use crate::messages::{InternalMessages, InternalMessagesView};
use crate::utils::text::same_text;

verus! {

/// What is published for a body that was posted for broadcast: the body
/// itself if it is a broadcast, nothing for any other kind of envelope.
pub open spec fn broadcast_of(message: InternalMessagesView) -> Option<InternalMessagesView> {
    if message is BroadCastMessage {
        Some(message)
    } else {
        None
    }
}

/// Admits a broadcast that was posted with the bearer token `token`. A
/// token other than the secret is an error; with the right token, a
/// broadcast envelope is published as it is and any other envelope is
/// accepted and ignored.
pub fn broadcast(secret: &str, token: &str, message: InternalMessages) -> (published: Result<
    Option<InternalMessages>,
    AppError,
>)
    ensures
        token@ != secret@ ==> published is Err && published->Err_0@
            == "invalid broadcast secret"@,
        token@ == secret@ ==> published is Ok && envelope_view(published->Ok_0) == broadcast_of(
            message@,
        ),
{
    if !same_text(token, secret) {
        return Err(AppError::new("invalid broadcast secret"));
    }
    match message {
        InternalMessages::BroadCastMessage { message, to } => Ok(
            Some(InternalMessages::BroadCastMessage { message, to }),
        ),
        _ => Ok(None),
    }
}

} // verus!
