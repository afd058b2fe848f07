//! The command that sets the capabilities of a user.

use std::collections::HashMap;
use vstd::prelude::*;
use vstd::string::StringExecFns;

use crate::app_state::{get_or_default, record_or_blank, User};
use crate::bitflags::CosmeticFlags;
use crate::utils::text::{binary, binary_digits};
use crate::utils::uuid_utils::{identity_text, parse_identity, uuid_parsed, uuid_text};

verus! {

/// The user table after the command: the record of the identity that
/// `uuid` spells, created blank if there was none, holds `flags`.
pub open spec fn perms_changed(users: Map<u128, User>, uuid: Seq<char>, flags: CosmeticFlags) -> Map<
    u128,
    User,
> {
    match uuid_parsed(uuid) {
        Some(id) => users.insert(id, User { flags, ..record_or_blank(users, id) }),
        None => users,
    }
}

/// The answer of the command.
pub open spec fn perms_reply(uuid: Seq<char>, flags: CosmeticFlags) -> Seq<char> {
    match uuid_parsed(uuid) {
        Some(id) => "Permission bits changed to "@ + binary_digits(flags@ as nat) + " for "@
            + uuid_text(id),
        None => "Invalid UUID"@,
    }
}

/// Gives `flags` to the identity that `uuid` spells. A text that spells no
/// identity changes nothing.
pub fn run(users: &mut HashMap<u128, User>, uuid: &str, flags: CosmeticFlags) -> (reply: String)
    ensures
        final(users)@ == perms_changed(old(users)@, uuid@, flags),
        reply@ == perms_reply(uuid@, flags),
{
    let id = match parse_identity(uuid) {
        Some(id) => id,
        None => {
            return "Invalid UUID".to_owned();
        },
    };
    let user = get_or_default(users, id);
    users.insert(id, User { flags, ..user });
    let mut reply = "Permission bits changed to ".to_owned();
    reply.append(binary(flags.bits() as u64).as_str());
    reply.append(" for ");
    reply.append(identity_text(id).as_str());
    reply
}

} // verus!
