//! The supervisory relay task: the envelopes that no connection can answer
//! by itself, because they need the whole user table or the outside world.

use std::collections::HashMap;
use vstd::prelude::*;
use vstd::string::StringExecFns;

use crate::api::ws::{routed, wire_for, RoutedView, MAX_BULK_LOOKUP};
use crate::app_state::{is_online, online, Cosmetic, User};
use crate::messages::envelope_view;
use crate::messages::{InternalMessages, InternalMessagesView, MessagesView};
use crate::utils::influx::{with_pair, Influx, InfluxView};
use crate::utils::uuid_utils::{identity_text, uuid_text};

verus! {

/// What the relay task does for one envelope.
#[derive(Debug)]
pub struct RelayStep {
    /// The envelope to publish on the bus.
    pub publish: Option<InternalMessages>,
    /// The line of chat to hand to the external sink, with its sender. The
    /// envelope in `publish` goes out whatever becomes of the delivery.
    pub deliver: Option<(u128, String)>,
    /// The measurement to send to the metrics collector.
    pub metric: Option<Influx>,
}

/// Which of `ids` are online: a table of exactly those identities.
pub open spec fn presence(users: Map<u128, User>, ids: Seq<u128>) -> Map<u128, bool> {
    Map::new(|id: u128| ids.contains(id), |id: u128| online(users, id))
}

/// The envelope that the relay task publishes for an envelope.
pub open spec fn relay_reply(users: Map<u128, User>, envelope: InternalMessagesView) -> Option<
    InternalMessagesView,
> {
    match envelope {
        InternalMessagesView::RequestUser { user_id, requester_id, nonce } => Some(
            InternalMessagesView::UserRequestResponse {
                requester_id,
                is_online: online(users, user_id),
                user_id,
                nonce,
            },
        ),
        InternalMessagesView::RequestUsersBulk { user_ids, requester_id, nonce } => Some(
            InternalMessagesView::UserRequestBulkResponse {
                requester_id,
                users: presence(users, user_ids),
                nonce,
            },
        ),
        InternalMessagesView::IrcCreate { message, sender, date } => Some(
            InternalMessagesView::IrcCreated { message, sender, date },
        ),
        _ => None,
    }
}

/// The line of chat that the relay task hands to the external sink for an
/// envelope, with its sender.
pub open spec fn relay_delivery(envelope: InternalMessagesView) -> Option<(u128, Seq<char>)> {
    match envelope {
        InternalMessagesView::IrcCreate { message, sender, .. } => Some((sender, message)),
        _ => None,
    }
}

/// The measurement that the relay task takes of an envelope.
pub open spec fn relay_metric(envelope: InternalMessagesView) -> Option<InfluxView> {
    match envelope {
        InternalMessagesView::RequestUser { user_id, requester_id, .. } => Some(
            InfluxView {
                event: "request_online"@,
                labels: with_pair(Seq::empty(), "uuid"@, uuid_text(requester_id)),
                values: "value=1"@ + ","@ + "user"@ + "="@ + uuid_text(user_id),
            },
        ),
        InternalMessagesView::RequestUsersBulk { requester_id, .. } => Some(
            InfluxView {
                event: "bulk_request_online"@,
                labels: with_pair(Seq::empty(), "uuid"@, uuid_text(requester_id)),
                values: "value=1"@,
            },
        ),
        InternalMessagesView::IrcCreate { sender, .. } => Some(
            InfluxView {
                event: "irc_message"@,
                labels: with_pair(Seq::empty(), "uuid"@, uuid_text(sender)),
                values: "value=1"@,
            },
        ),
        _ => None,
    }
}

/// The model of a delivery that may be absent.
pub open spec fn delivery_view(delivery: Option<(u128, String)>) -> Option<(u128, Seq<char>)> {
    match delivery {
        Some((sender, message)) => Some((sender, message@)),
        None => None,
    }
}

/// The model of a measurement that may be absent.
pub open spec fn metric_view(metric: Option<Influx>) -> Option<InfluxView> {
    match metric {
        Some(influx) => Some(influx@),
        None => None,
    }
}

/// Looks up every identity of `ids` in the user table.
pub fn presence_of(users: &HashMap<u128, User>, ids: &Vec<u128>) -> (table: HashMap<u128, bool>)
    ensures
        table@ == presence(users@, ids@),
{
    let mut table: HashMap<u128, bool> = HashMap::new();
    let mut i: usize = 0;
    while i < ids.len()
        invariant
            i <= ids.len(),
            table@ =~= presence(users@, ids@.subrange(0, i as int)),
        decreases ids.len() - i,
    {
        let id = ids[i];
        table.insert(id, is_online(users, id));
        proof {
            let before = ids@.subrange(0, i as int);
            let after = ids@.subrange(0, i + 1);
            assert(after =~= before.push(id));
            assert forall|other: u128| after.contains(other) <==> (before.contains(other) || other
                == id) by {
                if before.contains(other) {
                    let k = choose|k: int| 0 <= k < before.len() && before[k] == other;
                    assert(after[k] == other);
                }
                if other == id {
                    assert(after[i as int] == id);
                }
            }
        }
        i += 1;
    }
    proof {
        assert(ids@.subrange(0, ids.len() as int) =~= ids@);
    }
    table
}

/// The line that the external sink shows for a line of chat.
pub fn relay_line(name: &str, message: &str) -> (line: String)
    ensures
        line@ == name@ + ": "@ + message@,
{
    let mut line = name.to_owned();
    line.append(": ");
    line.append(message);
    line
}

/// Handles one envelope of the bus in the relay task. A presence request is
/// answered from the user table; a line of chat is handed to the external
/// sink and republished for display; every other envelope is left to the
/// connections.
pub fn handle_internal(msg: InternalMessages, users: &HashMap<u128, User>) -> (step: RelayStep)
    ensures
        envelope_view(step.publish) == relay_reply(users@, msg@),
        delivery_view(step.deliver) == relay_delivery(msg@),
        metric_view(step.metric) == relay_metric(msg@),
{
    match msg {
        InternalMessages::RequestUser { user_id, requester_id, nonce } => {
            let metric = Influx::new("request_online").label(
                "uuid",
                identity_text(requester_id).as_str(),
            ).value("user", identity_text(user_id).as_str());
            let is_online = is_online(users, user_id);
            RelayStep {
                publish: Some(
                    InternalMessages::UserRequestResponse { requester_id, is_online, user_id, nonce },
                ),
                deliver: None,
                metric: Some(metric),
            }
        },
        InternalMessages::RequestUsersBulk { user_ids, requester_id, nonce } => {
            let metric = Influx::new("bulk_request_online").label(
                "uuid",
                identity_text(requester_id).as_str(),
            );
            let table = presence_of(users, &user_ids);
            RelayStep {
                publish: Some(
                    InternalMessages::UserRequestBulkResponse { requester_id, users: table, nonce },
                ),
                deliver: None,
                metric: Some(metric),
            }
        },
        InternalMessages::IrcCreate { message, sender, date } => {
            let metric = Influx::new("irc_message").label("uuid", identity_text(sender).as_str());
            let line = message.clone();
            RelayStep {
                publish: Some(InternalMessages::IrcCreated { message, sender, date }),
                deliver: Some((sender, line)),
                metric: Some(metric),
            }
        },
        _ => RelayStep { publish: None, deliver: None, metric: None },
    }
}

/// A bulk presence request of `requester` for `ids` with `nonce` comes back
/// as one bulk response that carries the same nonce and a table of exactly
/// the identities of `ids`, each with its `connected` flag; that response is
/// written to `requester` and to no other connection. A request that names
/// no more identities than the cap is routed to the relay task as it is.
pub proof fn lemma_bulk_round_trip(
    users: Map<u128, User>,
    catalog: Seq<Cosmetic>,
    requester: u128,
    ids: Seq<u128>,
    nonce: Option<Seq<char>>,
    other: u128,
)
    requires
        other != requester,
    ensures
        ({
            let request = InternalMessagesView::RequestUsersBulk {
                user_ids: ids,
                requester_id: requester,
                nonce,
            };
            let response = InternalMessagesView::UserRequestBulkResponse {
                requester_id: requester,
                users: presence(users, ids),
                nonce,
            };
            &&& ids.len() <= MAX_BULK_LOOKUP ==> routed(
                requester,
                users,
                catalog,
                MessagesView::IsOnlineBulk { uuids: ids, nonce },
            ) == RoutedView::Publish(request)
            &&& relay_reply(users, request) == Some(response)
            &&& wire_for(requester, response) == Some(
                MessagesView::IsOnlineBulkResponse { users: presence(users, ids), nonce },
            )
            &&& wire_for(other, response) is None
            &&& presence(users, ids).dom() == ids.to_set()
            &&& forall|id: u128| #[trigger]
                ids.contains(id) ==> presence(users, ids)[id] == online(users, id)
        }),
{
    assert(presence(users, ids).dom() =~= ids.to_set());
}

/// A single presence request of `requester` for `target` with `nonce` comes
/// back as one response that carries the same nonce and the `connected` flag
/// of `target`; it is written to `requester` and to no other connection.
pub proof fn lemma_presence_round_trip(
    users: Map<u128, User>,
    catalog: Seq<Cosmetic>,
    requester: u128,
    target: u128,
    nonce: Option<Seq<char>>,
    other: u128,
)
    requires
        other != requester,
    ensures
        ({
            let request = InternalMessagesView::RequestUser {
                user_id: target,
                requester_id: requester,
                nonce,
            };
            let response = InternalMessagesView::UserRequestResponse {
                requester_id: requester,
                is_online: online(users, target),
                user_id: target,
                nonce,
            };
            &&& routed(requester, users, catalog, MessagesView::IsOnline { uuid: target, nonce })
                == RoutedView::Publish(request)
            &&& relay_reply(users, request) == Some(response)
            &&& wire_for(requester, response) == Some(
                MessagesView::IsOnlineResponse {
                    is_online: online(users, target),
                    uuid: target,
                    nonce,
                },
            )
            &&& wire_for(other, response) is None
        }),
{
}

/// A relayed line of chat is displayed to every connection, whoever sent it.
pub proof fn lemma_chat_reaches_everyone(
    users: Map<u128, User>,
    message: Seq<char>,
    sender: u128,
    date: u128,
    me: u128,
)
    ensures
        ({
            let request = InternalMessagesView::IrcCreate { message, sender, date };
            &&& relay_reply(users, request) is Some
            &&& wire_for(me, relay_reply(users, request)->0) == Some(
                MessagesView::IrcCreated { message, sender, date },
            )
            &&& relay_delivery(request) == Some((sender, message))
        }),
{
}

} // verus!
