//! The command that links an external account to an identity.

use std::collections::HashMap;
use vstd::prelude::*;
use vstd::string::StringExecFns;

use crate::app_state::{get_or_default, record_or_blank, User};
use crate::utils::text::same_text;
use crate::utils::uuid_utils::{identity_text, uuid_text, SlothUser};

verus! {

/// The user table after the command: if the tag of the caller is the one
/// that the player has linked, the record of the player, created blank if
/// there was none, names the caller's account.
pub open spec fn linked(
    users: Map<u128, User>,
    uuid: u128,
    claimed: Seq<char>,
    tag: Seq<char>,
    discord: u64,
) -> Map<u128, User> {
    if tag == claimed {
        users.insert(uuid, User { linked_discord: Some(discord), ..record_or_blank(users, uuid) })
    } else {
        users
    }
}

/// The answer of the command.
pub open spec fn link_reply(
    uuid: u128,
    claimed: Seq<char>,
    tag: Seq<char>,
    mcusername: Seq<char>,
) -> Seq<char> {
    if tag == claimed {
        "Linked "@ + tag + " to "@ + mcusername + " ("@ + uuid_text(uuid) + ")"@
    } else {
        "Discord link does not match!"@
    }
}

/// Links the account `discord`, whose tag is `tag`, to the player `data`
/// that the link service found for `mcusername`, provided the player has
/// linked that tag.
pub fn run(
    users: &mut HashMap<u128, User>,
    data: &SlothUser,
    mcusername: &str,
    tag: &str,
    discord: u64,
) -> (reply: String)
    ensures
        final(users)@ == linked(old(users)@, data.uuid, data.links.discord@, tag@, discord),
        reply@ == link_reply(data.uuid, data.links.discord@, tag@, mcusername@),
{
    if !same_text(tag, data.links.discord.as_str()) {
        return "Discord link does not match!".to_owned();
    }
    let user = get_or_default(users, data.uuid);
    users.insert(data.uuid, User { linked_discord: Some(discord), ..user });
    let mut reply = "Linked ".to_owned();
    reply.append(tag);
    reply.append(" to ");
    reply.append(mcusername);
    reply.append(" (");
    reply.append(identity_text(data.uuid).as_str());
    reply.append(")");
    reply
}

} // verus!
