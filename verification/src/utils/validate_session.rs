//! The check of a session with the session service.

use vstd::prelude::*;
use vstd::string::StringExecFns;

verus! {

/// The answer of the session service for a player that has joined.
#[derive(Debug, Clone, PartialEq, Eq)]
pub struct Response {
    pub id: String,
    pub name: String,
}

/// Where the session service answers whether `username` has joined the
/// server session `server_id`.
pub fn session_url(server_id: &str, username: &str) -> (url: String)
    ensures
        url@ == "https://sessionserver.mojang.com/session/minecraft/hasJoined?username="@
            + username@ + "&serverId="@ + server_id@,
{
    let mut url =
        "https://sessionserver.mojang.com/session/minecraft/hasJoined?username=".to_owned();
    url.append(username);
    url.append("&serverId=");
    url.append(server_id);
    url
}

} // verus!
