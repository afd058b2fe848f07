//! The envelopes exchanged on the internal bus.

use std::collections::HashMap;
use vstd::prelude::*;

verus! {

/// An envelope of the internal bus. Every subscriber receives every
/// envelope; the fields `requester_id`, `uuid` and `to` address it.
#[derive(Debug, Clone, PartialEq, Eq)]
pub enum InternalMessages {
    /// Presence lookup of one identity, for the relay task.
    RequestUser { user_id: u128, requester_id: u128, nonce: Option<String> },
    /// Presence lookup of several identities, for the relay task.
    RequestUsersBulk { user_ids: Vec<u128>, requester_id: u128, nonce: Option<String> },
    UserRequestResponse { requester_id: u128, is_online: bool, user_id: u128, nonce: Option<String> },
    UserRequestBulkResponse { requester_id: u128, users: HashMap<u128, bool>, nonce: Option<String> },
    /// An error report that answers no particular request.
    UserInvalidJson { requester_id: u128, error: String },
    /// A message for the identities in `to`, or for everyone if `to` is empty.
    BroadCastMessage { message: String, to: Vec<u128> },
    Pong { nonce: Option<String>, uuid: u128 },
    /// The requester's cosmetic changed.
    CosmeticsUpdate { requester_id: u128, cosmetic_id: Option<u8>, nonce: Option<String> },
    /// An error report that answers the request with this nonce.
    UserError { requester_id: u128, error: String, nonce: Option<String> },
    /// A line of chat to relay, for the relay task.
    IrcCreate { message: String, sender: u128, date: u128 },
    /// A relayed line of chat, to display to every client.
    IrcCreated { message: String, sender: u128, date: u128 },
}

/// The model of an [`InternalMessages`] value.
pub enum InternalMessagesView {
    RequestUser { user_id: u128, requester_id: u128, nonce: Option<Seq<char>> },
    RequestUsersBulk { user_ids: Seq<u128>, requester_id: u128, nonce: Option<Seq<char>> },
    UserRequestResponse {
        requester_id: u128,
        is_online: bool,
        user_id: u128,
        nonce: Option<Seq<char>>,
    },
    UserRequestBulkResponse {
        requester_id: u128,
        users: Map<u128, bool>,
        nonce: Option<Seq<char>>,
    },
    UserInvalidJson { requester_id: u128, error: Seq<char> },
    BroadCastMessage { message: Seq<char>, to: Seq<u128> },
    Pong { nonce: Option<Seq<char>>, uuid: u128 },
    CosmeticsUpdate { requester_id: u128, cosmetic_id: Option<u8>, nonce: Option<Seq<char>> },
    UserError { requester_id: u128, error: Seq<char>, nonce: Option<Seq<char>> },
    IrcCreate { message: Seq<char>, sender: u128, date: u128 },
    IrcCreated { message: Seq<char>, sender: u128, date: u128 },
}

impl View for InternalMessages {
    type V = InternalMessagesView;

    open spec fn view(&self) -> InternalMessagesView {
        match *self {
            InternalMessages::RequestUser { user_id, requester_id, nonce } => {
                InternalMessagesView::RequestUser { user_id, requester_id, nonce: nonce.deep_view() }
            },
            InternalMessages::RequestUsersBulk { user_ids, requester_id, nonce } => {
                InternalMessagesView::RequestUsersBulk {
                    user_ids: user_ids@,
                    requester_id,
                    nonce: nonce.deep_view(),
                }
            },
            InternalMessages::UserRequestResponse { requester_id, is_online, user_id, nonce } => {
                InternalMessagesView::UserRequestResponse {
                    requester_id,
                    is_online,
                    user_id,
                    nonce: nonce.deep_view(),
                }
            },
            InternalMessages::UserRequestBulkResponse { requester_id, users, nonce } => {
                InternalMessagesView::UserRequestBulkResponse {
                    requester_id,
                    users: users@,
                    nonce: nonce.deep_view(),
                }
            },
            InternalMessages::UserInvalidJson { requester_id, error } => {
                InternalMessagesView::UserInvalidJson { requester_id, error: error@ }
            },
            InternalMessages::BroadCastMessage { message, to } => {
                InternalMessagesView::BroadCastMessage { message: message@, to: to@ }
            },
            InternalMessages::Pong { nonce, uuid } => {
                InternalMessagesView::Pong { nonce: nonce.deep_view(), uuid }
            },
            InternalMessages::CosmeticsUpdate { requester_id, cosmetic_id, nonce } => {
                InternalMessagesView::CosmeticsUpdate {
                    requester_id,
                    cosmetic_id,
                    nonce: nonce.deep_view(),
                }
            },
            InternalMessages::UserError { requester_id, error, nonce } => {
                InternalMessagesView::UserError { requester_id, error: error@, nonce: nonce.deep_view() }
            },
            InternalMessages::IrcCreate { message, sender, date } => {
                InternalMessagesView::IrcCreate { message: message@, sender, date }
            },
            InternalMessages::IrcCreated { message, sender, date } => {
                InternalMessagesView::IrcCreated { message: message@, sender, date }
            },
        }
    }
}

} // verus!
