//! Identities as text, and what the profile services answer.

use vstd::prelude::*;
use vstd::string::StringExecFns;

verus! {

/// A profile as the name service gives it.
#[derive(Debug, Clone, PartialEq, Eq)]
pub struct UuidAndUsername {
    pub name: String,
    pub id: u128,
}

/// A player as the link service gives it.
#[derive(Debug, Clone, PartialEq, Eq)]
pub struct SlothUser {
    pub uuid: u128,
    pub links: Links,
}

/// The external accounts that a player has linked.
#[derive(Debug, Clone, PartialEq, Eq)]
pub struct Links {
    pub discord: String,
}

/// The character of a hexadecimal digit, in lower case.
pub open spec fn hex_digit(d: nat) -> char
    recommends
        d < 16,
{
    if d < 10 {
        ((48 + d) as u8) as char
    } else {
        ((87 + d) as u8) as char
    }
}

/// The lowest `count` hexadecimal digits of `id`, the highest of them first.
pub open spec fn hex_digits(id: nat, count: nat) -> Seq<char>
    decreases count,
{
    if count == 0 {
        Seq::empty()
    } else {
        hex_digits(id / 16, (count - 1) as nat).push(hex_digit(id % 16))
    }
}

/// The text of an identity without hyphens: its 32 hexadecimal digits.
pub open spec fn uuid_simple(id: u128) -> Seq<char> {
    hex_digits(id as nat, 32)
}

/// The text of an identity: its 32 hexadecimal digits in groups of 8, 4, 4,
/// 4 and 12, with a hyphen between two groups.
pub open spec fn uuid_text(id: u128) -> Seq<char> {
    let digits = uuid_simple(id);
    digits.subrange(0, 8) + "-"@ + digits.subrange(8, 12) + "-"@ + digits.subrange(12, 16) + "-"@
        + digits.subrange(16, 20) + "-"@ + digits.subrange(20, 32)
}

/// The identity that a text stands for, if it is a UUID in one of the forms
/// that the parser accepts.
pub uninterp spec fn uuid_parsed(text: Seq<char>) -> Option<u128>;

/// `uuid::Uuid::from_u128`, then its `to_string`: the hyphenated lower-case
/// form of the UUID whose 128 bits are `id`, the highest bits first.
#[verifier::external_body]
pub(crate) fn identity_text(id: u128) -> (text: String)
    ensures
        text@ == uuid_text(id),
{
    uuid::Uuid::from_u128(id).to_string()
}

/// `uuid::Uuid::parse_str`, then `Uuid::as_u128`: the 128 bits of the UUID
/// that `text` spells, or nothing where the parser refuses the text. What
/// the parser accepts is named, not described.
#[verifier::external_body]
pub(crate) fn parse_identity(text: &str) -> (id: Option<u128>)
    ensures
        id == uuid_parsed(text@),
{
    uuid::Uuid::parse_str(text).ok().map(|parsed| parsed.as_u128())
}

/// `uuid::Uuid::from_u128`, then `Uuid::as_simple` and its `to_string`: the
/// 32 lower-case hexadecimal digits of the UUID whose 128 bits are `id`, the
/// highest bits first.
#[verifier::external_body]
pub(crate) fn identity_simple(id: u128) -> (text: String)
    ensures
        text@ == uuid_simple(id),
{
    uuid::Uuid::from_u128(id).as_simple().to_string()
}

/// Where the name service answers for the profile of an identity.
pub fn profile_url(id: u128) -> (url: String)
    ensures
        url@ == "https://api.mojang.com/user/profile/"@ + uuid_simple(id),
{
    let mut url = "https://api.mojang.com/user/profile/".to_owned();
    url.append(identity_simple(id).as_str());
    url
}

/// Where the name service answers for the identity of a name.
pub fn name_url(username: &str) -> (url: String)
    ensures
        url@ == "https://api.mojang.com/users/profiles/minecraft/"@ + username@,
{
    let mut url = "https://api.mojang.com/users/profiles/minecraft/".to_owned();
    url.append(username);
    url
}

/// Where the link service answers for the linked accounts of a name.
pub fn links_url(username: &str) -> (url: String)
    ensures
        url@ == "https://api.slothpixel.me/api/players/"@ + username@,
{
    let mut url = "https://api.slothpixel.me/api/players/".to_owned();
    url.append(username);
    url
}

} // verus!
