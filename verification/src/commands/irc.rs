//! The chat command: listing and editing the blacklist, and sending a line
//! of chat from the chat platform.

use std::collections::HashMap;
use vstd::prelude::*;
use vstd::string::StringExecFns;

use crate::app_state::{
    blacklist, blacklisted_ids, get_or_default, record_or_blank, user_ids, User,
};
use crate::messages::envelope_view;
use crate::messages::{InternalMessages, InternalMessagesView};
use crate::utils::sanitize::{allowed, censored, sanitize_message};
use crate::utils::text::now_millis;
use crate::utils::uuid_utils::{identity_text, parse_identity, uuid_parsed, uuid_text};

verus! {

/// A chat command, as the bot front end read it.
#[derive(Debug, Clone, PartialEq, Eq)]
pub enum IrcCommand {
    /// Show the blacklist.
    List,
    /// Put the identity that `uuid` spells on the blacklist, or take it off.
    Blacklist { add: bool, uuid: String },
    /// Relay `message` in the name of the identity linked to `discord`.
    Send { discord: u64, message: String },
    /// Any other subcommand.
    Unknown,
}

/// What a chat command comes to.
#[derive(Debug)]
pub struct CommandOutcome {
    /// The answer to the caller.
    pub reply: String,
    /// Whether only the caller may see the answer.
    pub ephemeral: bool,
    /// The envelope to publish on the bus.
    pub publish: Option<InternalMessages>,
}

/// The blacklist as text: a heading, then one identity a line.
pub open spec fn listing(barred: Seq<u128>) -> Seq<char>
    decreases barred.len(),
{
    if barred.len() == 0 {
        "Blacklisted uuids\n----------------\n"@
    } else {
        listing(barred.drop_last()) + uuid_text(barred.last()) + "\n"@
    }
}

/// Writes the blacklist as text.
pub fn blacklist_report(barred: &Vec<u128>) -> (report: String)
    ensures
        report@ == listing(barred@),
{
    let mut report = "Blacklisted uuids\n----------------\n".to_owned();
    let mut i: usize = 0;
    proof {
        assert(barred@.take(0) =~= Seq::<u128>::empty());
    }
    while i < barred.len()
        invariant
            i <= barred.len(),
            report@ == listing(barred@.take(i as int)),
        decreases barred.len() - i,
    {
        proof {
            let next = barred@.take(i + 1);
            assert(next.drop_last() =~= barred@.take(i as int));
            assert(next.last() == barred@[i as int]);
        }
        report.append(identity_text(barred[i]).as_str());
        report.append("\n");
        i += 1;
    }
    proof {
        assert(barred@.take(barred.len() as int) =~= barred@);
    }
    report
}

/// An identity whose record names the external account `discord`.
pub fn linked_identity(users: &HashMap<u128, User>, discord: u64) -> (found: Option<u128>)
    ensures
        found matches Some(id) ==> users@.contains_key(id) && users@[id].linked_discord == Some(
            discord,
        ),
        found is None ==> forall|id: u128| #[trigger]
            users@.contains_key(id) ==> users@[id].linked_discord != Some(discord),
{
    let ids = user_ids(users);
    let mut i: usize = 0;
    while i < ids.len()
        invariant
            i <= ids.len(),
            ids@.to_set() == users@.dom(),
            forall|j: int| 0 <= j < i ==> users@[#[trigger] ids@[j]].linked_discord != Some(discord),
        decreases ids.len() - i,
    {
        let id = ids[i];
        proof {
            assert(ids@.contains(id));
            assert(ids@.to_set().contains(id));
        }
        match users.get(&id) {
            Some(user) => {
                if user.linked_discord == Some(discord) {
                    return Some(id);
                }
            },
            None => {},
        }
        i += 1;
    }
    proof {
        assert forall|id: u128| #[trigger] users@.contains_key(id) implies users@[id].linked_discord
            != Some(discord) by {
            assert(ids@.to_set().contains(id));
            let j = choose|j: int| 0 <= j < ids@.len() && ids@[j] == id;
            assert(users@[ids@[j]].linked_discord != Some(discord));
        }
    }
    None
}

/// The user table after a chat command: only an administrator's edit of the
/// blacklist that spells an identity changes it.
pub open spec fn users_after_command(users: Map<u128, User>, cmd: IrcCommand, admin: bool) -> Map<
    u128,
    User,
> {
    match cmd {
        IrcCommand::Blacklist { add, uuid } if admin => match uuid_parsed(uuid@) {
            Some(id) => users.insert(
                id,
                User { irc_blacklisted: add, ..record_or_blank(users, id) },
            ),
            None => users,
        },
        _ => users,
    }
}

/// The answer to an administrator's edit of the blacklist.
pub open spec fn blacklist_reply(add: bool, uuid: Seq<char>) -> Seq<char> {
    match uuid_parsed(uuid) {
        Some(id) => (if add {
            "Added to"@
        } else {
            "Removed from"@
        }) + " "@ + uuid_text(id) + " the blacklist"@,
        None => "Invalid UUID"@,
    }
}

/// `outcome` is what a chat command comes to on the user table `users`.
pub open spec fn command_outcome(
    users: Map<u128, User>,
    cmd: IrcCommand,
    admin: bool,
    reply: Seq<char>,
    ephemeral: bool,
    publish: Option<InternalMessagesView>,
) -> bool {
    match cmd {
        IrcCommand::List if admin => {
            &&& exists|order: Seq<u128>|
                order.no_duplicates() && order.to_set() == blacklisted_ids(users)
                    && #[trigger] listing(order) == reply
            &&& !ephemeral
            &&& publish is None
        },
        IrcCommand::Blacklist { add, uuid } if admin => {
            &&& reply == blacklist_reply(add, uuid@)
            &&& !ephemeral
            &&& publish is None
        },
        IrcCommand::Send { discord, message } => {
            if forall|id: u128| #[trigger]
                users.contains_key(id) ==> users[id].linked_discord != Some(discord) {
                &&& reply == "You are not linked to a minecraft account"@
                &&& !ephemeral
                &&& publish is None
            } else {
                &&& reply == "Send!"@
                &&& ephemeral
                &&& publish matches Some(InternalMessagesView::IrcCreate { message: line, sender, .. })
                &&& line == censored(message@.filter(|c: char| allowed(c)))
                &&& users.contains_key(sender)
                &&& users[sender].linked_discord == Some(discord)
            }
        },
        _ => {
            &&& reply == "Invalid subcommand"@
            &&& !ephemeral
            &&& publish is None
        },
    }
}

/// Runs a chat command. Listing and editing the blacklist are for
/// administrators; anyone whose account is linked may send a line of chat.
pub fn run(users: &mut HashMap<u128, User>, cmd: IrcCommand, admin: bool) -> (outcome:
    CommandOutcome)
    ensures
        final(users)@ == users_after_command(old(users)@, cmd, admin),
        command_outcome(
            old(users)@,
            cmd,
            admin,
            outcome.reply@,
            outcome.ephemeral,
            envelope_view(outcome.publish),
        ),
{
    match cmd {
        IrcCommand::List => {
            if admin {
                let barred = blacklist(users);
                let reply = blacklist_report(&barred);
                assert(listing(barred@) == reply@);
                return CommandOutcome { reply, ephemeral: false, publish: None };
            }
        },
        IrcCommand::Blacklist { add, uuid } => {
            if admin {
                let id = match parse_identity(uuid.as_str()) {
                    Some(id) => id,
                    None => {
                        return CommandOutcome {
                            reply: "Invalid UUID".to_owned(),
                            ephemeral: false,
                            publish: None,
                        };
                    },
                };
                let user = get_or_default(users, id);
                users.insert(id, User { irc_blacklisted: add, ..user });
                let mut reply = if add {
                    "Added to".to_owned()
                } else {
                    "Removed from".to_owned()
                };
                reply.append(" ");
                reply.append(identity_text(id).as_str());
                reply.append(" the blacklist");
                return CommandOutcome { reply, ephemeral: false, publish: None };
            }
        },
        IrcCommand::Send { discord, message } => {
            return match linked_identity(users, discord) {
                None => CommandOutcome {
                    reply: "You are not linked to a minecraft account".to_owned(),
                    ephemeral: false,
                    publish: None,
                },
                Some(sender) => CommandOutcome {
                    reply: "Send!".to_owned(),
                    ephemeral: true,
                    publish: Some(
                        InternalMessages::IrcCreate {
                            message: sanitize_message(message.as_str()),
                            sender,
                            date: now_millis(),
                        },
                    ),
                },
            };
        },
        IrcCommand::Unknown => {},
    }
    CommandOutcome { reply: "Invalid subcommand".to_owned(), ephemeral: false, publish: None }
}

} // verus!
