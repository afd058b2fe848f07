//! The command that counts the connected users.

use std::collections::HashMap;
use vstd::prelude::*;
use vstd::string::StringExecFns;

use crate::app_state::{connected_ids, count_connected, User};
use crate::utils::text::{decimal, decimal_digits};

verus! {

/// Answers with the number of identities whose session is live.
pub fn run(users: &HashMap<u128, User>) -> (reply: String)
    ensures
        reply@ == "Connected users: "@ + decimal_digits(connected_ids(users@).len()),
{
    let count = count_connected(users);
    let mut reply = "Connected users: ".to_owned();
    reply.append(decimal(count as u64).as_str());
    reply
}

} // verus!
