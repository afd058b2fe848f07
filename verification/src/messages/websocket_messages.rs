//! The messages exchanged with a client, one per socket frame.

use std::collections::HashMap;
use vstd::prelude::*;

verus! {

/// A message of the client-facing protocol.
#[derive(Debug, Clone, PartialEq, Eq)]
pub enum Messages {
    /// Request: is this identity online?
    IsOnline { uuid: u128, nonce: Option<String> },
    /// Request: which of these identities are online?
    IsOnlineBulk { uuids: Vec<u128>, nonce: Option<String> },
    /// The credentials that open a session.
    Connect { server_id: String, username: String },
    IsOnlineResponse { is_online: bool, uuid: u128, nonce: Option<String> },
    IsOnlineBulkResponse { users: HashMap<u128, bool>, nonce: Option<String> },
    /// Acknowledges a completed handshake.
    ConnectedResponse(bool),
    Error { error: String, nonce: Option<String> },
    Broadcast(String),
    Ping(Option<String>),
    Pong(Option<String>),
    /// Request: wear this cosmetic, or none.
    CosmeticsUpdate { cosmetic_id: Option<u8>, nonce: Option<String> },
    /// Tells the requester that its cosmetic changed.
    CosmeticsUpdated { cosmetic_id: Option<u8>, nonce: Option<String> },
    /// Tells everyone else that some cosmetic changed.
    CosmeticAck,
    /// Request: relay this line of chat.
    IrcCreate { message: String },
    /// A relayed line of chat.
    IrcCreated { message: String, sender: u128, date: u128 },
}

/// The model of a [`Messages`] value: text as `Seq<char>`, the presence
/// table as a `Map`.
pub enum MessagesView {
    IsOnline { uuid: u128, nonce: Option<Seq<char>> },
    IsOnlineBulk { uuids: Seq<u128>, nonce: Option<Seq<char>> },
    Connect { server_id: Seq<char>, username: Seq<char> },
    IsOnlineResponse { is_online: bool, uuid: u128, nonce: Option<Seq<char>> },
    IsOnlineBulkResponse { users: Map<u128, bool>, nonce: Option<Seq<char>> },
    ConnectedResponse(bool),
    Error { error: Seq<char>, nonce: Option<Seq<char>> },
    Broadcast(Seq<char>),
    Ping(Option<Seq<char>>),
    Pong(Option<Seq<char>>),
    CosmeticsUpdate { cosmetic_id: Option<u8>, nonce: Option<Seq<char>> },
    CosmeticsUpdated { cosmetic_id: Option<u8>, nonce: Option<Seq<char>> },
    CosmeticAck,
    IrcCreate { message: Seq<char> },
    IrcCreated { message: Seq<char>, sender: u128, date: u128 },
}

impl View for Messages {
    type V = MessagesView;

    open spec fn view(&self) -> MessagesView {
        match *self {
            Messages::IsOnline { uuid, nonce } => MessagesView::IsOnline {
                uuid,
                nonce: nonce.deep_view(),
            },
            Messages::IsOnlineBulk { uuids, nonce } => MessagesView::IsOnlineBulk {
                uuids: uuids@,
                nonce: nonce.deep_view(),
            },
            Messages::Connect { server_id, username } => MessagesView::Connect {
                server_id: server_id@,
                username: username@,
            },
            Messages::IsOnlineResponse { is_online, uuid, nonce } => MessagesView::IsOnlineResponse {
                is_online,
                uuid,
                nonce: nonce.deep_view(),
            },
            Messages::IsOnlineBulkResponse { users, nonce } => MessagesView::IsOnlineBulkResponse {
                users: users@,
                nonce: nonce.deep_view(),
            },
            Messages::ConnectedResponse(ok) => MessagesView::ConnectedResponse(ok),
            Messages::Error { error, nonce } => MessagesView::Error {
                error: error@,
                nonce: nonce.deep_view(),
            },
            Messages::Broadcast(message) => MessagesView::Broadcast(message@),
            Messages::Ping(nonce) => MessagesView::Ping(nonce.deep_view()),
            Messages::Pong(nonce) => MessagesView::Pong(nonce.deep_view()),
            Messages::CosmeticsUpdate { cosmetic_id, nonce } => MessagesView::CosmeticsUpdate {
                cosmetic_id,
                nonce: nonce.deep_view(),
            },
            Messages::CosmeticsUpdated { cosmetic_id, nonce } => MessagesView::CosmeticsUpdated {
                cosmetic_id,
                nonce: nonce.deep_view(),
            },
            Messages::CosmeticAck => MessagesView::CosmeticAck,
            Messages::IrcCreate { message } => MessagesView::IrcCreate { message: message@ },
            Messages::IrcCreated { message, sender, date } => MessagesView::IrcCreated {
                message: message@,
                sender,
                date,
            },
        }
    }
}

} // verus!
