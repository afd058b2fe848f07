//! Adding and removing user records.

use std::collections::HashMap;
use vstd::prelude::*;

use crate::app_state::{get_or_default, record_or_blank, User};
use crate::bitflags::CosmeticFlags;

verus! {

/// A record to write, field by field; a field that is left out keeps the
/// value it has.
#[derive(Debug, Clone, Copy, PartialEq, Eq)]
pub struct AddUser {
    pub uuid: u128,
    pub linked_discord: Option<u64>,
    pub enabled_prefix: Option<u8>,
    pub irc_blacklisted: Option<bool>,
    pub flags: Option<CosmeticFlags>,
}

/// The record `current` with the fields that `data` gives written over it.
pub open spec fn merged(current: User, data: AddUser) -> User {
    User {
        linked_discord: if data.linked_discord is Some {
            data.linked_discord
        } else {
            current.linked_discord
        },
        enabled_prefix: if data.enabled_prefix is Some {
            data.enabled_prefix
        } else {
            current.enabled_prefix
        },
        irc_blacklisted: match data.irc_blacklisted {
            Some(barred) => barred,
            None => current.irc_blacklisted,
        },
        flags: match data.flags {
            Some(flags) => flags,
            None => current.flags,
        },
        connected: current.connected,
    }
}

/// Writes the fields that `data` gives over the record of `data.uuid`, which
/// is created blank if there is none.
pub fn add_user(users: &mut HashMap<u128, User>, data: AddUser)
    ensures
        final(users)@ == old(users)@.insert(
            data.uuid,
            merged(record_or_blank(old(users)@, data.uuid), data),
        ),
{
    let def = get_or_default(users, data.uuid);
    let user = User {
        linked_discord: match data.linked_discord {
            Some(id) => Some(id),
            None => def.linked_discord,
        },
        enabled_prefix: match data.enabled_prefix {
            Some(id) => Some(id),
            None => def.enabled_prefix,
        },
        irc_blacklisted: match data.irc_blacklisted {
            Some(barred) => barred,
            None => def.irc_blacklisted,
        },
        flags: match data.flags {
            Some(flags) => flags,
            None => def.flags,
        },
        connected: def.connected,
    };
    users.insert(data.uuid, user);
}

/// Removes the record of `id`, if there is one.
pub fn remove_user(users: &mut HashMap<u128, User>, id: u128)
    ensures
        final(users)@ == old(users)@.remove(id),
{
    users.remove(&id);
}

} // verus!
