//! The session protocol of one connection: what the sender half writes to
//! its client for an envelope of the bus, and what the receiver half
//! publishes for a message of its client.

use std::collections::HashMap;
use vstd::prelude::*;

use crate::app_state::{
    blacklisted, entitled, find_cosmetic, is_blacklisted, lookup, set_connected, Cosmetic, User,
};
use crate::limiter::{limiter_new, quota_fits, quota_of, Limiter, MINUTE_NANOS};
use crate::messages::{envelope_view, frame_view};
use crate::messages::{InternalMessages, InternalMessagesView, Messages, MessagesView};
use crate::utils::sanitize::{allowed, censored, sanitize_message};
use crate::utils::text::now_millis;

verus! {

/// The most identities that one bulk presence request may name.
pub const MAX_BULK_LOOKUP: usize = 1024;

/// Why a cosmetics update is turned down.
#[derive(Clone, Copy, Debug, PartialEq, Eq, Structural)]
pub enum CosmeticsError {
    /// The requester has no record in the store.
    NoCosmetics,
    /// The catalog holds no cosmetic with the requested id.
    NotFound,
    /// The requester lacks a capability that the cosmetic requires.
    NotEntitled,
}

impl CosmeticsError {
    /// The text that the client is shown.
    pub open spec fn text(self) -> Seq<char> {
        match self {
            CosmeticsError::NoCosmetics => "You dont have any cosmetcs"@,
            CosmeticsError::NotFound => "Cosmetic not found"@,
            CosmeticsError::NotEntitled => "You dont have this cosmetics"@,
        }
    }

    pub fn message(&self) -> (text: String)
        ensures
            text@ == self.text(),
    {
        match self {
            CosmeticsError::NoCosmetics => "You dont have any cosmetcs".to_owned(),
            CosmeticsError::NotFound => "Cosmetic not found".to_owned(),
            CosmeticsError::NotEntitled => "You dont have this cosmetics".to_owned(),
        }
    }
}

/// The addressing rule: what the connection of identity `me` writes to its
/// client for an envelope, if anything.
pub open spec fn wire_for(me: u128, envelope: InternalMessagesView) -> Option<MessagesView> {
    match envelope {
        InternalMessagesView::UserInvalidJson { requester_id, error } => if requester_id == me {
            Some(MessagesView::Error { error, nonce: None })
        } else {
            None
        },
        InternalMessagesView::UserError { requester_id, error, nonce } => if requester_id == me {
            Some(MessagesView::Error { error, nonce })
        } else {
            None
        },
        InternalMessagesView::CosmeticsUpdate { requester_id, cosmetic_id, nonce } => if requester_id
            == me {
            Some(MessagesView::CosmeticsUpdated { cosmetic_id, nonce })
        } else {
            Some(MessagesView::CosmeticAck)
        },
        InternalMessagesView::UserRequestResponse { requester_id, is_online, user_id, nonce } => if requester_id
            == me {
            Some(MessagesView::IsOnlineResponse { is_online, uuid: user_id, nonce })
        } else {
            None
        },
        InternalMessagesView::UserRequestBulkResponse { requester_id, users, nonce } => if requester_id
            == me {
            Some(MessagesView::IsOnlineBulkResponse { users, nonce })
        } else {
            None
        },
        InternalMessagesView::BroadCastMessage { message, to } => if to.len() == 0 || to.contains(
            me,
        ) {
            Some(MessagesView::Broadcast(message))
        } else {
            None
        },
        InternalMessagesView::Pong { nonce, uuid } => if uuid == me {
            Some(MessagesView::Pong(nonce))
        } else {
            None
        },
        InternalMessagesView::IrcCreated { message, sender, date } => Some(
            MessagesView::IrcCreated { message, sender, date },
        ),
        InternalMessagesView::RequestUser { .. } => None,
        InternalMessagesView::RequestUsersBulk { .. } => None,
        InternalMessagesView::IrcCreate { .. } => None,
    }
}

/// Whether `id` is one of `ids`.
pub fn names(ids: &Vec<u128>, id: u128) -> (found: bool)
    ensures
        found == ids@.contains(id),
{
    let mut i: usize = 0;
    while i < ids.len()
        invariant
            i <= ids.len(),
            forall|j: int| 0 <= j < i ==> ids@[j] != id,
        decreases ids.len() - i,
    {
        if ids[i] == id {
            return true;
        }
        i += 1;
    }
    false
}

/// Applies the addressing rule for the connection of identity `me`.
pub fn deliver_to(me: u128, envelope: InternalMessages) -> (frame: Option<Messages>)
    ensures
        frame_view(frame) == wire_for(me, envelope@),
{
    match envelope {
        InternalMessages::UserInvalidJson { requester_id, error } => {
            if requester_id == me {
                Some(Messages::Error { error, nonce: None })
            } else {
                None
            }
        },
        InternalMessages::UserError { requester_id, error, nonce } => {
            if requester_id == me {
                Some(Messages::Error { error, nonce })
            } else {
                None
            }
        },
        InternalMessages::CosmeticsUpdate { requester_id, cosmetic_id, nonce } => {
            if requester_id == me {
                Some(Messages::CosmeticsUpdated { cosmetic_id, nonce })
            } else {
                Some(Messages::CosmeticAck)
            }
        },
        InternalMessages::UserRequestResponse { requester_id, is_online, user_id, nonce } => {
            if requester_id == me {
                Some(Messages::IsOnlineResponse { is_online, uuid: user_id, nonce })
            } else {
                None
            }
        },
        InternalMessages::UserRequestBulkResponse { requester_id, users, nonce } => {
            if requester_id == me {
                Some(Messages::IsOnlineBulkResponse { users, nonce })
            } else {
                None
            }
        },
        InternalMessages::BroadCastMessage { message, to } => {
            if to.len() == 0 || names(&to, me) {
                Some(Messages::Broadcast(message))
            } else {
                None
            }
        },
        InternalMessages::Pong { nonce, uuid } => {
            if uuid == me {
                Some(Messages::Pong(nonce))
            } else {
                None
            }
        },
        InternalMessages::IrcCreated { message, sender, date } => Some(
            Messages::IrcCreated { message, sender, date },
        ),
        InternalMessages::RequestUser { .. } => None,
        InternalMessages::RequestUsersBulk { .. } => None,
        InternalMessages::IrcCreate { .. } => None,
    }
}

/// Whether the store lets `me` wear `cosmetic_id`, and if not, why.
pub open spec fn cosmetics_verdict(
    users: Map<u128, User>,
    catalog: Seq<Cosmetic>,
    me: u128,
    cosmetic_id: Option<u8>,
) -> Result<(), CosmeticsError> {
    if !users.contains_key(me) {
        Err(CosmeticsError::NoCosmetics)
    } else {
        match cosmetic_id {
            None => Ok(()),
            Some(id) => match lookup(catalog, id) {
                None => Err(CosmeticsError::NotFound),
                Some(cosmetic) => if users[me].flags.includes(cosmetic.required_flags) {
                    Ok(())
                } else {
                    Err(CosmeticsError::NotEntitled)
                },
            },
        }
    }
}

/// The user table after `me` asked to wear `cosmetic_id`.
pub open spec fn users_after_update(
    users: Map<u128, User>,
    catalog: Seq<Cosmetic>,
    me: u128,
    cosmetic_id: Option<u8>,
) -> Map<u128, User> {
    if cosmetics_verdict(users, catalog, me, cosmetic_id) is Ok {
        users.insert(me, User { enabled_prefix: cosmetic_id, ..users[me] })
    } else {
        users
    }
}

/// The envelope that answers the request of `me` to wear `cosmetic_id`.
pub open spec fn update_reply(
    users: Map<u128, User>,
    catalog: Seq<Cosmetic>,
    me: u128,
    cosmetic_id: Option<u8>,
    nonce: Option<Seq<char>>,
) -> InternalMessagesView {
    match cosmetics_verdict(users, catalog, me, cosmetic_id) {
        Ok(_) => InternalMessagesView::CosmeticsUpdate { requester_id: me, cosmetic_id, nonce },
        Err(error) => InternalMessagesView::UserError { requester_id: me, error: error.text(), nonce },
    }
}

/// Decides a cosmetics update without changing anything.
pub fn check_cosmetics(
    users: &HashMap<u128, User>,
    cosmetics: &Vec<Cosmetic>,
    me: u128,
    cosmetic_id: Option<u8>,
) -> (verdict: Result<(), CosmeticsError>)
    ensures
        verdict == cosmetics_verdict(users@, cosmetics@, me, cosmetic_id),
{
    let flags = match users.get(&me) {
        Some(user) => user.flags,
        None => {
            return Err(CosmeticsError::NoCosmetics);
        },
    };
    match cosmetic_id {
        None => Ok(()),
        Some(id) => match find_cosmetic(cosmetics, id) {
            None => Err(CosmeticsError::NotFound),
            Some(cosmetic) => if flags.contains(cosmetic.required_flags) {
                Ok(())
            } else {
                Err(CosmeticsError::NotEntitled)
            },
        },
    }
}

/// The cosmetics assignment: validates the request of `me` against the store
/// and, if it stands, records the new cosmetic. Returns the one envelope to
/// publish: the update, or an error addressed to `me`.
pub fn update_cosmetics(
    users: &mut HashMap<u128, User>,
    cosmetics: &Vec<Cosmetic>,
    me: u128,
    cosmetic_id: Option<u8>,
    nonce: Option<String>,
) -> (reply: InternalMessages)
    ensures
        final(users)@ == users_after_update(old(users)@, cosmetics@, me, cosmetic_id),
        reply@ == update_reply(old(users)@, cosmetics@, me, cosmetic_id, nonce.deep_view()),
{
    match check_cosmetics(users, cosmetics, me, cosmetic_id) {
        Err(error) => InternalMessages::UserError {
            requester_id: me,
            error: error.message(),
            nonce,
        },
        Ok(_) => {
            let user = match users.get(&me) {
                Some(user) => *user,
                None => User::default(),
            };
            users.insert(me, User { enabled_prefix: cosmetic_id, ..user });
            InternalMessages::CosmeticsUpdate { requester_id: me, cosmetic_id, nonce }
        },
    }
}

/// Where a client message goes once it has passed the general limiter.
#[derive(Debug, Clone, PartialEq, Eq)]
pub enum Routed {
    /// An envelope to publish on the bus.
    Publish(InternalMessages),
    /// A line of chat from an identity that may chat; it still has to pass
    /// the relay limiter and the sanitizer.
    Chat(String),
    /// The message is dropped without an answer.
    Nothing,
}

/// The model of a [`Routed`] value.
pub enum RoutedView {
    Publish(InternalMessagesView),
    Chat(Seq<char>),
    Nothing,
}

impl View for Routed {
    type V = RoutedView;

    open spec fn view(&self) -> RoutedView {
        match *self {
            Routed::Publish(envelope) => RoutedView::Publish(envelope@),
            Routed::Chat(message) => RoutedView::Chat(message@),
            Routed::Nothing => RoutedView::Nothing,
        }
    }
}

/// What the receiver half of the connection of `me` does with a client
/// message. A line of chat from a blacklisted identity is dropped here,
/// before the relay limiter or the sanitizer see it.
pub open spec fn routed(
    me: u128,
    users: Map<u128, User>,
    catalog: Seq<Cosmetic>,
    message: MessagesView,
) -> RoutedView {
    match message {
        MessagesView::Connect { .. } => RoutedView::Publish(
            InternalMessagesView::UserInvalidJson { requester_id: me, error: "Already connected"@ },
        ),
        MessagesView::Error { error, .. } => RoutedView::Publish(
            InternalMessagesView::UserInvalidJson { requester_id: me, error },
        ),
        MessagesView::IsOnline { uuid, nonce } => RoutedView::Publish(
            InternalMessagesView::RequestUser { user_id: uuid, requester_id: me, nonce },
        ),
        MessagesView::IsOnlineBulk { uuids, nonce } => if uuids.len() <= MAX_BULK_LOOKUP {
            RoutedView::Publish(
                InternalMessagesView::RequestUsersBulk { user_ids: uuids, requester_id: me, nonce },
            )
        } else {
            RoutedView::Publish(
                InternalMessagesView::UserError {
                    requester_id: me,
                    error: "Too many uuids"@,
                    nonce,
                },
            )
        },
        MessagesView::Ping(nonce) => RoutedView::Publish(
            InternalMessagesView::Pong { nonce, uuid: me },
        ),
        MessagesView::CosmeticsUpdate { cosmetic_id, nonce } => RoutedView::Publish(
            update_reply(users, catalog, me, cosmetic_id, nonce),
        ),
        MessagesView::IrcCreate { message } => if blacklisted(users, me) {
            RoutedView::Nothing
        } else {
            RoutedView::Chat(message)
        },
        _ => RoutedView::Nothing,
    }
}

/// The user table after the receiver half of the connection of `me` has
/// handled a client message: only a cosmetics update changes it.
pub open spec fn users_after_route(
    me: u128,
    users: Map<u128, User>,
    catalog: Seq<Cosmetic>,
    message: MessagesView,
) -> Map<u128, User> {
    match message {
        MessagesView::CosmeticsUpdate { cosmetic_id, .. } => users_after_update(
            users,
            catalog,
            me,
            cosmetic_id,
        ),
        _ => users,
    }
}

/// Turns a client message of the connection of `me` into what the receiver
/// half does with it.
pub fn route(
    me: u128,
    users: &mut HashMap<u128, User>,
    cosmetics: &Vec<Cosmetic>,
    message: Messages,
) -> (step: Routed)
    ensures
        step@ == routed(me, old(users)@, cosmetics@, message@),
        final(users)@ == users_after_route(me, old(users)@, cosmetics@, message@),
{
    match message {
        Messages::Connect { .. } => Routed::Publish(
            InternalMessages::UserInvalidJson {
                requester_id: me,
                error: "Already connected".to_owned(),
            },
        ),
        Messages::Error { error, .. } => Routed::Publish(
            InternalMessages::UserInvalidJson { requester_id: me, error },
        ),
        Messages::IsOnline { uuid, nonce } => Routed::Publish(
            InternalMessages::RequestUser { user_id: uuid, requester_id: me, nonce },
        ),
        Messages::IsOnlineBulk { uuids, nonce } => {
            if uuids.len() <= MAX_BULK_LOOKUP {
                Routed::Publish(
                    InternalMessages::RequestUsersBulk { user_ids: uuids, requester_id: me, nonce },
                )
            } else {
                Routed::Publish(
                    InternalMessages::UserError {
                        requester_id: me,
                        error: "Too many uuids".to_owned(),
                        nonce,
                    },
                )
            }
        },
        Messages::Ping(nonce) => Routed::Publish(InternalMessages::Pong { nonce, uuid: me }),
        Messages::CosmeticsUpdate { cosmetic_id, nonce } => Routed::Publish(
            update_cosmetics(users, cosmetics, me, cosmetic_id, nonce),
        ),
        Messages::IrcCreate { message } => {
            if is_blacklisted(users, me) {
                Routed::Nothing
            } else {
                Routed::Chat(message)
            }
        },
        _ => Routed::Nothing,
    }
}

/// The envelope that asks the relay task to relay a line of chat of `me`,
/// taken at `date` (milliseconds since the Unix epoch): it carries the
/// sanitized line.
pub fn relay_request(me: u128, message: &str, date: u128) -> (envelope: InternalMessages)
    ensures
        envelope@ == (InternalMessagesView::IrcCreate {
            message: censored(message@.filter(|c: char| allowed(c))),
            sender: me,
            date,
        }),
{
    InternalMessages::IrcCreate { message: sanitize_message(message), sender: me, date }
}

/// The states of a connection.
#[derive(Clone, Copy, Debug, PartialEq, Eq, Structural)]
pub enum SessionState {
    /// No valid connect frame has been verified yet.
    Handshaking,
    /// The identity is assigned; both halves run.
    Authenticated,
    /// One half has ended; nothing more is processed.
    Terminating,
    Closed,
}

/// What a [`Session`] is: where it stands, the identity it has, and the
/// quotas of its two limiters.
pub struct SessionView {
    pub state: SessionState,
    pub identity: Option<u128>,
    /// Cells a minute and cells a burst of the limiter on every message.
    pub general: (u32, u32),
    /// Cells a minute and cells a burst of the limiter on lines of chat.
    pub relay: (u32, u32),
}

/// Where a connection stands, with the identity it has there.
#[derive(Clone, Copy, Debug)]
enum Stage {
    Handshaking,
    Authenticated(u128),
    Terminating(u128),
    Closed(Option<u128>),
}

/// One live connection: its place in the protocol, the identity that the
/// handshake gave it, and its two limiters.
pub struct Session {
    stage: Stage,
    general: Limiter,
    relay: Limiter,
}

/// Chat lines that the relay limiter replenishes each minute.
pub const RELAY_PER_MINUTE: u32 = 4;

/// Chat lines that the relay limiter lets through in one burst.
pub const RELAY_BURST: u32 = 8;

impl View for Session {
    type V = SessionView;

    closed spec fn view(&self) -> SessionView {
        let general = quota_of(self.general);
        let relay = quota_of(self.relay);
        match self.stage {
            Stage::Handshaking => SessionView {
                state: SessionState::Handshaking,
                identity: None,
                general,
                relay,
            },
            Stage::Authenticated(id) => SessionView {
                state: SessionState::Authenticated,
                identity: Some(id),
                general,
                relay,
            },
            Stage::Terminating(id) => SessionView {
                state: SessionState::Terminating,
                identity: Some(id),
                general,
                relay,
            },
            Stage::Closed(identity) => SessionView {
                state: SessionState::Closed,
                identity,
                general,
                relay,
            },
        }
    }
}

impl Session {
    /// An identity is assigned exactly from the end of the handshake on.
    pub open spec fn coherent(view: SessionView) -> bool {
        &&& view.state is Handshaking ==> view.identity is None
        &&& (view.state is Authenticated || view.state is Terminating) ==> view.identity is Some
    }

    /// Every session is coherent.
    pub proof fn lemma_coherent(self)
        ensures
            Self::coherent(self@),
    {
    }

    /// A fresh connection. Its general limiter lets through `per_minute`
    /// messages a minute, in bursts of as many; its relay limiter has the
    /// fixed quota of the chat relay. There is no session with a limiter
    /// that never opens.
    pub fn new(per_minute: u32) -> (session: Option<Session>)
        ensures
            session is Some <==> per_minute > 0,
            session matches Some(s) ==> s@ == (SessionView {
                state: SessionState::Handshaking,
                identity: None,
                general: (per_minute, per_minute),
                relay: (RELAY_PER_MINUTE, RELAY_BURST),
            }),
    {
        if per_minute == 0 {
            return None;
        }
        assert(quota_fits(per_minute, per_minute)) by {
            lemma_minute_fits(per_minute);
        }
        assert(quota_fits(RELAY_PER_MINUTE, RELAY_BURST)) by (nonlinear_arith);
        let general = limiter_new(per_minute, per_minute);
        let relay = limiter_new(RELAY_PER_MINUTE, RELAY_BURST);
        Some(Session { stage: Stage::Handshaking, general, relay })
    }

    pub fn state(&self) -> (state: SessionState)
        ensures
            state == self@.state,
    {
        match self.stage {
            Stage::Handshaking => SessionState::Handshaking,
            Stage::Authenticated(_) => SessionState::Authenticated,
            Stage::Terminating(_) => SessionState::Terminating,
            Stage::Closed(_) => SessionState::Closed,
        }
    }

    pub fn identity(&self) -> (identity: Option<u128>)
        ensures
            identity == self@.identity,
    {
        match self.stage {
            Stage::Handshaking => None,
            Stage::Authenticated(id) => Some(id),
            Stage::Terminating(id) => Some(id),
            Stage::Closed(identity) => identity,
        }
    }

    /// The credentials to verify, if the session is handshaking and the
    /// frame is a connect frame. Every other frame of a handshake is
    /// discarded.
    pub fn handshake_frame(&self, message: Messages) -> (credentials: Option<(String, String)>)
        ensures
            credentials is Some <==> self@.state is Handshaking && message is Connect,
            credentials matches Some(pair) ==> pair.0@ == message@->Connect_server_id && pair.1@
                == message@->Connect_username,
    {
        match self.stage {
            Stage::Handshaking => match message {
                Messages::Connect { server_id, username } => Some((server_id, username)),
                _ => None,
            },
            _ => None,
        }
    }

    /// The identity verifier vouched for `id`. A handshaking session becomes
    /// authenticated, takes the identity, marks its record as connected, and
    /// gets the acknowledgement to send; any other session is left as it is.
    pub fn authenticate(&mut self, users: &mut HashMap<u128, User>, id: u128) -> (ack: Option<
        Messages,
    >)
        ensures
            old(self)@.state is Handshaking ==> {
                &&& final(self)@ == (SessionView {
                    state: SessionState::Authenticated,
                    identity: Some(id),
                    ..old(self)@
                })
                &&& frame_view(ack) == Some(MessagesView::ConnectedResponse(true))
                &&& final(users)@ == connected_set(old(users)@, id, true)
            },
            !(old(self)@.state is Handshaking) ==> {
                &&& final(self)@ == old(self)@
                &&& ack is None
                &&& final(users)@ == old(users)@
            },
    {
        match self.stage {
            Stage::Handshaking => {
                self.stage = Stage::Authenticated(id);
                set_connected(users, id, true);
                Some(Messages::ConnectedResponse(true))
            },
            _ => None,
        }
    }

    /// What the sender half writes to the client for an envelope of the bus.
    /// Nothing is written unless the session is authenticated.
    pub fn deliver(&self, envelope: InternalMessages) -> (frame: Option<Messages>)
        ensures
            self@.state is Authenticated ==> self@.identity is Some && frame_view(frame)
                == wire_for(self@.identity->0, envelope@),
            !(self@.state is Authenticated) ==> frame is None,
    {
        match self.stage {
            Stage::Authenticated(me) => deliver_to(me, envelope),
            _ => None,
        }
    }

    /// What the receiver half publishes for a client message: what
    /// [`Session::process`] gives for the answers of the limiters and the
    /// clock. The general limiter is asked first, and the relay limiter only
    /// for a line of chat from an identity that is not blacklisted.
    pub fn receive(
        &self,
        users: &mut HashMap<u128, User>,
        cosmetics: &Vec<Cosmetic>,
        message: Messages,
    ) -> (published: Option<InternalMessages>)
        ensures
            exists|general: bool, relay: bool, date: u128|
                (envelope_view(published), final(users)@) == #[trigger] outcome(
                    self@,
                    old(users)@,
                    cosmetics@,
                    message@,
                    general,
                    relay,
                    date,
                ),
            !(self@.state is Authenticated) ==> published is None && final(users)@ == old(users)@,
            self@.state is Authenticated && message is IrcCreate && blacklisted(
                old(users)@,
                self@.identity->0,
            ) ==> published is None,
    {
        let me = match self.stage {
            Stage::Authenticated(me) => me,
            _ => {
                proof {
                    assert(outcome(self@, users@, cosmetics@, message@, false, false, 0) == (
                        None::<InternalMessagesView>,
                        users@,
                    ));
                }
                return None;
            },
        };
        if !self.general.check() {
            proof {
                assert(outcome(self@, users@, cosmetics@, message@, false, false, 0) == (
                    None::<InternalMessagesView>,
                    users@,
                ));
            }
            return None;
        }
        let relay_allowed = wants_relay(users, me, &message) && self.relay.check();
        let date = if relay_allowed {
            now_millis()
        } else {
            0
        };
        self.process(users, cosmetics, message, true, relay_allowed, date)
    }

    /// What the receiver half publishes for a client message, given what the
    /// general limiter, the relay limiter and the clock answered. Only an
    /// authenticated session that the general limiter admits processes the
    /// message; only a line of chat looks at the answer of the relay limiter
    /// and at the date.
    pub fn process(
        &self,
        users: &mut HashMap<u128, User>,
        cosmetics: &Vec<Cosmetic>,
        message: Messages,
        general_allowed: bool,
        relay_allowed: bool,
        date: u128,
    ) -> (published: Option<InternalMessages>)
        ensures
            (envelope_view(published), final(users)@) == outcome(
                self@,
                old(users)@,
                cosmetics@,
                message@,
                general_allowed,
                relay_allowed,
                date,
            ),
    {
        let me = match self.stage {
            Stage::Authenticated(me) => me,
            _ => {
                return None;
            },
        };
        if !general_allowed {
            return None;
        }
        match route(me, users, cosmetics, message) {
            Routed::Publish(envelope) => Some(envelope),
            Routed::Nothing => None,
            Routed::Chat(line) => {
                if relay_allowed {
                    Some(relay_request(me, line.as_str(), date))
                } else {
                    None
                }
            },
        }
    }

    /// One of the two halves has ended: an authenticated session stops
    /// processing. Any other session is left as it is.
    pub fn terminate(&mut self)
        ensures
            final(self)@ == (SessionView {
                state: if old(self)@.state is Authenticated {
                    SessionState::Terminating
                } else {
                    old(self)@.state
                },
                ..old(self)@
            }),
    {
        match self.stage {
            Stage::Authenticated(id) => {
                self.stage = Stage::Terminating(id);
            },
            _ => {},
        }
    }

    /// The connection is gone: the session closes, and the record of its
    /// identity, if it has one, is marked as not connected. Closing a closed
    /// session changes nothing.
    pub fn close(&mut self, users: &mut HashMap<u128, User>)
        ensures
            final(self)@ == (SessionView { state: SessionState::Closed, ..old(self)@ }),
            final(users)@ == match old(self)@.identity {
                Some(id) if !(old(self)@.state is Closed) => connected_set(old(users)@, id, false),
                _ => old(users)@,
            },
    {
        match self.stage {
            Stage::Handshaking => {
                self.stage = Stage::Closed(None);
            },
            Stage::Authenticated(id) => {
                set_connected(users, id, false);
                self.stage = Stage::Closed(Some(id));
            },
            Stage::Terminating(id) => {
                set_connected(users, id, false);
                self.stage = Stage::Closed(Some(id));
            },
            Stage::Closed(_) => {},
        }
    }
}

/// The user table after the record of `id`, if there is one, has its
/// `connected` flag set to `connected`.
pub open spec fn connected_set(users: Map<u128, User>, id: u128, connected: bool) -> Map<
    u128,
    User,
> {
    if users.contains_key(id) {
        users.insert(id, User { connected, ..users[id] })
    } else {
        users
    }
}

/// What the receiver half of a session publishes for a client message, and
/// the user table it leaves, for given answers of the general limiter, of
/// the relay limiter and of the clock. A session that is not authenticated,
/// or that the general limiter turns away, publishes nothing and changes
/// nothing. Otherwise the message is routed: an envelope is published as it
/// is, and a line of chat is published, sanitized and dated, if the relay
/// limiter allows it.
pub open spec fn outcome(
    session: SessionView,
    users: Map<u128, User>,
    catalog: Seq<Cosmetic>,
    message: MessagesView,
    general_allowed: bool,
    relay_allowed: bool,
    date: u128,
) -> (Option<InternalMessagesView>, Map<u128, User>) {
    if !(session.state is Authenticated) || session.identity is None || !general_allowed {
        (None, users)
    } else {
        let me = session.identity->0;
        let after = users_after_route(me, users, catalog, message);
        match routed(me, users, catalog, message) {
            RoutedView::Publish(envelope) => (Some(envelope), after),
            RoutedView::Nothing => (None, after),
            RoutedView::Chat(line) => (
                if relay_allowed {
                    Some(
                        InternalMessagesView::IrcCreate {
                            message: censored(line.filter(|c: char| allowed(c))),
                            sender: me,
                            date,
                        },
                    )
                } else {
                    None
                },
                after,
            ),
        }
    }
}

/// Whether a client message of the connection of `me` is a line of chat
/// that has to be put to the relay limiter: a line of chat from an identity
/// that is not blacklisted.
pub fn wants_relay(users: &HashMap<u128, User>, me: u128, message: &Messages) -> (wanted: bool)
    ensures
        wanted == (message is IrcCreate && !blacklisted(users@, me)),
{
    match message {
        Messages::IrcCreate { .. } => !is_blacklisted(users, me),
        _ => false,
    }
}

/// A limiter that replenishes as many cells a minute as it lets through in one
/// burst can always be built.
proof fn lemma_minute_fits(per_minute: u32)
    requires
        per_minute > 0,
    ensures
        quota_fits(per_minute, per_minute),
{
    let n = per_minute as int;
    let m = MINUTE_NANOS as int;
    assert((m / n) * n <= m) by (nonlinear_arith)
        requires
            n > 0,
            m >= 0,
    ;
}

/// A request for a cosmetic that needs a capability which the requester
/// lacks leaves the user table as it was, and is answered by one error;
/// that error reaches the requester and no other connection.
pub proof fn lemma_unentitled_request_is_refused(
    users: Map<u128, User>,
    catalog: Seq<Cosmetic>,
    me: u128,
    id: u8,
    nonce: Option<Seq<char>>,
    other: u128,
)
    requires
        users.contains_key(me),
        lookup(catalog, id) is Some,
        !users[me].flags.includes(lookup(catalog, id)->0.required_flags),
        other != me,
    ensures
        users_after_update(users, catalog, me, Some(id)) == users,
        update_reply(users, catalog, me, Some(id), nonce) == (InternalMessagesView::UserError {
            requester_id: me,
            error: CosmeticsError::NotEntitled.text(),
            nonce,
        }),
        wire_for(me, update_reply(users, catalog, me, Some(id), nonce)) == Some(
            MessagesView::Error { error: CosmeticsError::NotEntitled.text(), nonce },
        ),
        wire_for(other, update_reply(users, catalog, me, Some(id), nonce)) is None,
{
}

/// After a cosmetics update that stands, the requester is entitled to what
/// it wears, and every other record is as it was.
pub proof fn lemma_update_entitles(
    users: Map<u128, User>,
    catalog: Seq<Cosmetic>,
    me: u128,
    cosmetic_id: Option<u8>,
    other: u128,
)
    requires
        cosmetics_verdict(users, catalog, me, cosmetic_id) is Ok,
        other != me,
    ensures
        entitled(users_after_update(users, catalog, me, cosmetic_id)[me], catalog),
        users_after_update(users, catalog, me, cosmetic_id)[me].enabled_prefix == cosmetic_id,
        users_after_update(users, catalog, me, cosmetic_id).contains_key(other)
            == users.contains_key(other),
        users.contains_key(other) ==> users_after_update(users, catalog, me, cosmetic_id)[other]
            == users[other],
{
}

/// Asking twice for the same cosmetic is answered twice in the same way, and
/// the second request leaves the user table as the first one left it.
pub proof fn lemma_update_is_idempotent(
    users: Map<u128, User>,
    catalog: Seq<Cosmetic>,
    me: u128,
    cosmetic_id: Option<u8>,
    nonce: Option<Seq<char>>,
)
    ensures
        ({
            let once = users_after_update(users, catalog, me, cosmetic_id);
            &&& users_after_update(once, catalog, me, cosmetic_id) == once
            &&& update_reply(once, catalog, me, cosmetic_id, nonce) == update_reply(
                users,
                catalog,
                me,
                cosmetic_id,
                nonce,
            )
        }),
{
    let once = users_after_update(users, catalog, me, cosmetic_id);
    if cosmetics_verdict(users, catalog, me, cosmetic_id) is Ok {
        assert(once[me].flags == users[me].flags);
        assert(cosmetics_verdict(once, catalog, me, cosmetic_id) is Ok);
        assert(users_after_update(once, catalog, me, cosmetic_id) =~= once);
    }
}

/// A line of chat from a blacklisted identity is dropped when it is routed:
/// whatever the limiters and the clock answer, nothing is published for it
/// and the user table stays as it was.
pub proof fn lemma_blacklisted_chat_is_dropped(
    session: SessionView,
    users: Map<u128, User>,
    catalog: Seq<Cosmetic>,
    message: Seq<char>,
    general_allowed: bool,
    relay_allowed: bool,
    date: u128,
)
    requires
        session.identity matches Some(me) && blacklisted(users, me),
    ensures
        routed(session.identity->0, users, catalog, MessagesView::IrcCreate { message })
            == RoutedView::Nothing,
        outcome(
            session,
            users,
            catalog,
            MessagesView::IrcCreate { message },
            general_allowed,
            relay_allowed,
            date,
        ) == (None::<InternalMessagesView>, users),
{
}

/// An envelope of a kind that only the relay task answers is written to no
/// client.
pub proof fn lemma_requests_stay_on_the_bus(me: u128, envelope: InternalMessagesView)
    requires
        envelope is RequestUser || envelope is RequestUsersBulk || envelope is IrcCreate,
    ensures
        wire_for(me, envelope) is None,
{
}

/// A broadcast is written to a connection exactly when it names no
/// identity at all or names the identity of that connection.
pub proof fn lemma_broadcast_addressing(me: u128, message: Seq<char>, to: Seq<u128>)
    ensures
        to.len() == 0 || to.contains(me) ==> wire_for(
            me,
            InternalMessagesView::BroadCastMessage { message, to },
        ) == Some(MessagesView::Broadcast(message)),
        !(to.len() == 0 || to.contains(me)) ==> wire_for(
            me,
            InternalMessagesView::BroadCastMessage { message, to },
        ) is None,
{
}

} // verus!
