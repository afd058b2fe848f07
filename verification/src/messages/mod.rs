//! The two message families of the hub: wire messages and bus envelopes.

use vstd::prelude::*;

pub mod internal_messages;
pub mod websocket_messages;

pub use internal_messages::InternalMessages;
pub use internal_messages::InternalMessagesView;
pub use websocket_messages::Messages;
pub use websocket_messages::MessagesView;

verus! {

/// The model of a frame that may be absent.
pub open spec fn frame_view(frame: Option<Messages>) -> Option<MessagesView> {
    match frame {
        Some(message) => Some(message@),
        None => None,
    }
}

/// The model of an envelope that may be absent.
pub open spec fn envelope_view(envelope: Option<InternalMessages>) -> Option<
    InternalMessagesView,
> {
    match envelope {
        Some(message) => Some(message@),
        None => None,
    }
}

/// What a text frame stands for once the decoder has spoken: the decoded
/// message, or, for a frame that does not decode, an error message that
/// carries the decoder's complaint. No frame is dropped.
pub fn decoded_or_error(decoded: Result<Messages, String>) -> (message: Messages)
    ensures
        message@ == match decoded {
            Ok(inner) => inner@,
            Err(complaint) => MessagesView::Error { error: complaint@, nonce: None },
        },
{
    match decoded {
        Ok(inner) => inner,
        Err(complaint) => Messages::Error { error: complaint, nonce: None },
    }
}

} // verus!
