//! The commands of the chat-platform bot, on plain values.

use std::collections::HashMap;
use vstd::prelude::*;

use crate::app_state::User;
use crate::bitflags::CosmeticFlags;
use crate::messages::envelope_view;
use crate::messages::InternalMessagesView;
use crate::utils::uuid_utils::SlothUser;

pub mod change_perms;
pub mod irc;
pub mod link;
pub mod users;

use irc::{command_outcome, users_after_command, CommandOutcome, IrcCommand};

verus! {

/// A command, as the bot front end read it.
#[derive(Debug)]
pub enum Command {
    /// Count the connected users.
    Users,
    /// Give `flags` to the identity that `uuid` spells.
    ChangePerms { uuid: String, flags: CosmeticFlags },
    /// A chat command.
    Irc(IrcCommand),
    /// Link the caller's account `discord`, whose tag is `tag`, to the
    /// player `data` that the link service found for `mcusername`.
    Link { data: SlothUser, mcusername: String, tag: String, discord: u64 },
    /// A command that the bot does not know.
    Other,
}

/// The user table after a command.
pub open spec fn users_after(users: Map<u128, User>, command: Command, admin: bool) -> Map<
    u128,
    User,
> {
    match command {
        Command::ChangePerms { uuid, flags } if admin => change_perms::perms_changed(
            users,
            uuid@,
            flags,
        ),
        Command::Irc(cmd) => users_after_command(users, cmd, admin),
        Command::Link { data, tag, discord, .. } => link::linked(
            users,
            data.uuid,
            data.links.discord@,
            tag@,
            discord,
        ),
        _ => users,
    }
}

/// `reply`, `ephemeral` and `publish` are what a command comes to on the
/// user table `users`.
pub open spec fn handled(
    users: Map<u128, User>,
    command: Command,
    admin: bool,
    reply: Seq<char>,
    ephemeral: bool,
    publish: Option<InternalMessagesView>,
) -> bool {
    match command {
        Command::Users => {
            &&& reply == "Connected users: "@ + crate::utils::text::decimal_digits(
                crate::app_state::connected_ids(users).len(),
            )
            &&& !ephemeral
            &&& publish is None
        },
        Command::ChangePerms { uuid, flags } if admin => {
            &&& reply == change_perms::perms_reply(uuid@, flags)
            &&& !ephemeral
            &&& publish is None
        },
        Command::Irc(cmd) => command_outcome(users, cmd, admin, reply, ephemeral, publish),
        Command::Link { data, mcusername, tag, .. } => {
            &&& reply == link::link_reply(data.uuid, data.links.discord@, tag@, mcusername@)
            &&& !ephemeral
            &&& publish is None
        },
        _ => {
            &&& reply == "404 command not found lol"@
            &&& !ephemeral
            &&& publish is None
        },
    }
}

/// Runs a command of the bot. Changing capabilities is for administrators.
pub fn handle_command(users: &mut HashMap<u128, User>, command: Command, admin: bool) -> (outcome:
    CommandOutcome)
    ensures
        final(users)@ == users_after(old(users)@, command, admin),
        handled(
            old(users)@,
            command,
            admin,
            outcome.reply@,
            outcome.ephemeral,
            envelope_view(outcome.publish),
        ),
{
    match command {
        Command::Users => CommandOutcome {
            reply: users::run(users),
            ephemeral: false,
            publish: None,
        },
        Command::ChangePerms { uuid, flags } => {
            if admin {
                CommandOutcome {
                    reply: change_perms::run(users, uuid.as_str(), flags),
                    ephemeral: false,
                    publish: None,
                }
            } else {
                CommandOutcome {
                    reply: "404 command not found lol".to_owned(),
                    ephemeral: false,
                    publish: None,
                }
            }
        },
        Command::Irc(cmd) => irc::run(users, cmd, admin),
        Command::Link { data, mcusername, tag, discord } => CommandOutcome {
            reply: link::run(users, &data, mcusername.as_str(), tag.as_str(), discord),
            ephemeral: false,
            publish: None,
        },
        Command::Other => CommandOutcome {
            reply: "404 command not found lol".to_owned(),
            ephemeral: false,
            publish: None,
        },
    }
}

} // verus!
