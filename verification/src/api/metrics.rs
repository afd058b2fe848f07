//! The metrics page.

use std::collections::HashMap;
use vstd::prelude::*;
use vstd::string::StringExecFns;

use crate::app_state::{blacklist, blacklisted_ids, connected_ids, count_connected, Cosmetic, User};
use crate::utils::text::{decimal, decimal_digits};

verus! {

/// One metric of the page: a help line, then the name and the value, then
/// an empty line.
pub open spec fn stat_text(help: Seq<char>, name: Seq<char>, value: Seq<char>) -> Seq<char> {
    "# HELP "@ + name + " "@ + help + "\n"@ + name + " "@ + value + "\n\n"@
}

/// The metrics of the store, in the order of the page.
pub open spec fn metrics_text(users: Map<u128, User>, catalog: Seq<Cosmetic>, messages_sec: u16) -> Seq<
    char,
> {
    stat_text(
        "Connected users"@,
        "connected_users"@,
        decimal_digits(connected_ids(users).len()),
    ) + stat_text(
        "Blocked users"@,
        "blocked_irc_users"@,
        decimal_digits(blacklisted_ids(users).len()),
    ) + stat_text("Cosmetics count"@, "cosmetics"@, decimal_digits(catalog.len())) + stat_text(
        "Cosmetic User Count"@,
        "cosmetic_users"@,
        decimal_digits(users.len()),
    ) + stat_text(
        "Messages per second"@,
        "messages_per_second"@,
        decimal_digits(messages_sec as nat),
    )
}

/// Writes one metric.
pub fn prometheus_stat(help: &str, name: &str, value: &str) -> (stat: String)
    ensures
        stat@ == stat_text(help@, name@, value@),
{
    let mut stat = "# HELP ".to_owned();
    stat.append(name);
    stat.append(" ");
    stat.append(help);
    stat.append("\n");
    stat.append(name);
    stat.append(" ");
    stat.append(value);
    stat.append("\n\n");
    stat
}

/// Writes the metrics of the store: how many users are connected, how many
/// are barred from chat, how many cosmetics and user records there are, and
/// the current message rate.
pub fn metrics(users: &HashMap<u128, User>, cosmetics: &Vec<Cosmetic>, messages_sec: u16) -> (page:
    String)
    ensures
        page@ == metrics_text(users@, cosmetics@, messages_sec),
{
    let connected = count_connected(users);
    let barred = blacklist(users);
    proof {
        barred@.unique_seq_to_set();
    }
    let mut page = prometheus_stat(
        "Connected users",
        "connected_users",
        decimal(connected as u64).as_str(),
    );
    page.append(
        prometheus_stat(
            "Blocked users",
            "blocked_irc_users",
            decimal(barred.len() as u64).as_str(),
        ).as_str(),
    );
    page.append(
        prometheus_stat(
            "Cosmetics count",
            "cosmetics",
            decimal(cosmetics.len() as u64).as_str(),
        ).as_str(),
    );
    page.append(
        prometheus_stat(
            "Cosmetic User Count",
            "cosmetic_users",
            decimal(users.len() as u64).as_str(),
        ).as_str(),
    );
    page.append(
        prometheus_stat(
            "Messages per second",
            "messages_per_second",
            decimal(messages_sec as u64).as_str(),
        ).as_str(),
    );
    page
}

} // verus!
