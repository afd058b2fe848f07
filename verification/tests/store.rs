use std::collections::HashMap;

use dws::admin::cosmetics::{add_cosmetic, remove_cosmetic, AddCosmetic, DeleteCosmetic};
use dws::admin::users::{add_user, remove_user, AddUser};
use dws::api::cosmetics::cosmetics;
use dws::app_state::{
    blacklist, count_connected, find_cosmetic, get_or_default, is_blacklisted, is_false, is_online,
    set_connected, user_ids, Cosmetic, User,
};
use dws::bitflags::CosmeticFlags;

fn flags(bits: u32) -> CosmeticFlags {
    CosmeticFlags::from_bits(bits).unwrap()
}

fn cosmetic(id: u8, name: &str, required: u32) -> AddCosmetic {
    AddCosmetic {
        id,
        name: name.to_owned(),
        description: "d".to_owned(),
        data: "&a".to_owned(),
        type_field: 1,
        required_flags: flags(required),
    }
}

#[test]
fn flags_from_bits_rejects_unnamed_bits() {
    assert_eq!(CosmeticFlags::from_bits(0).unwrap().bits(), 0);
    assert_eq!(CosmeticFlags::from_bits(255).unwrap().bits(), 255);
    assert!(CosmeticFlags::from_bits(256).is_none());
    assert!(CosmeticFlags::from_bits(u32::MAX).is_none());
}

#[test]
fn flags_contains_is_subset() {
    let staff = flags(CosmeticFlags::STAFF);
    let dev = flags(CosmeticFlags::DEVELOPER);
    let both = flags(CosmeticFlags::STAFF | CosmeticFlags::DEVELOPER);
    assert!(both.contains(staff));
    assert!(both.contains(dev));
    assert!(!staff.contains(dev));
    assert!(!staff.contains(both));
    assert!(staff.contains(CosmeticFlags::empty()));
    assert!(CosmeticFlags::empty().is_empty());
    assert!(!staff.is_empty());
    assert_eq!(CosmeticFlags::default(), CosmeticFlags::empty());
}

#[test]
fn default_user_is_blank() {
    let user = User::default();
    assert!(user.flags.is_empty());
    assert_eq!(user.enabled_prefix, None);
    assert!(!user.connected);
    assert_eq!(user.linked_discord, None);
    assert!(!user.irc_blacklisted);
    assert!(is_false(&user.connected));
    assert!(!is_false(&true));
}

#[test]
fn presence_of_unknown_identity_is_offline() {
    let mut users: HashMap<u128, User> = HashMap::new();
    assert!(!is_online(&users, 1));
    set_connected(&mut users, 1, true);
    assert!(users.is_empty());
    users.insert(1, User::default());
    set_connected(&mut users, 1, true);
    assert!(is_online(&users, 1));
    set_connected(&mut users, 1, false);
    assert!(!is_online(&users, 1));
    assert_eq!(get_or_default(&users, 2), User::default());
}

#[test]
fn add_cosmetic_last_write_wins() {
    let mut catalog: Vec<Cosmetic> = Vec::new();
    add_cosmetic(&mut catalog, cosmetic(1, "one", 0));
    add_cosmetic(&mut catalog, cosmetic(2, "two", 0));
    add_cosmetic(&mut catalog, cosmetic(1, "uno", 2));
    assert_eq!(catalog.len(), 2);
    assert_eq!(catalog[0].id, 2);
    assert_eq!(catalog[1].id, 1);
    assert_eq!(catalog[1].name, "uno");
    let found = find_cosmetic(&catalog, 1).unwrap();
    assert_eq!(found.name, "uno");
    assert_eq!(found.required_flags.bits(), 2);
    assert!(find_cosmetic(&catalog, 3).is_none());
}

#[test]
fn remove_cosmetic_filters_by_id() {
    let mut catalog: Vec<Cosmetic> = Vec::new();
    add_cosmetic(&mut catalog, cosmetic(1, "one", 0));
    add_cosmetic(&mut catalog, cosmetic(2, "two", 0));
    add_cosmetic(&mut catalog, cosmetic(3, "three", 0));
    remove_cosmetic(&mut catalog, DeleteCosmetic { id: 2 });
    assert_eq!(catalog.iter().map(|c| c.id).collect::<Vec<u8>>(), vec![1, 3]);
    remove_cosmetic(&mut catalog, DeleteCosmetic { id: 9 });
    assert_eq!(catalog.len(), 2);
}

#[test]
fn add_user_merges_fields() {
    let mut users: HashMap<u128, User> = HashMap::new();
    add_user(
        &mut users,
        AddUser {
            uuid: 7,
            linked_discord: Some(99),
            enabled_prefix: None,
            irc_blacklisted: None,
            flags: Some(flags(3)),
        },
    );
    assert_eq!(
        users[&7],
        User {
            flags: flags(3),
            enabled_prefix: None,
            connected: false,
            linked_discord: Some(99),
            irc_blacklisted: false,
        }
    );
    set_connected(&mut users, 7, true);
    add_user(
        &mut users,
        AddUser {
            uuid: 7,
            linked_discord: None,
            enabled_prefix: Some(4),
            irc_blacklisted: Some(true),
            flags: None,
        },
    );
    assert_eq!(
        users[&7],
        User {
            flags: flags(3),
            enabled_prefix: Some(4),
            connected: true,
            linked_discord: Some(99),
            irc_blacklisted: true,
        }
    );
    assert!(is_blacklisted(&users, 7));
    remove_user(&mut users, 7);
    assert!(users.is_empty());
    remove_user(&mut users, 7);
    assert!(users.is_empty());
}

#[test]
fn census_of_the_user_table() {
    let mut users: HashMap<u128, User> = HashMap::new();
    for id in 0..10u128 {
        users.insert(
            id,
            User { connected: id % 2 == 0, irc_blacklisted: id % 5 == 0, ..User::default() },
        );
    }
    assert_eq!(count_connected(&users), 5);
    let mut barred = blacklist(&users);
    barred.sort();
    assert_eq!(barred, vec![0, 5]);
    let mut ids = user_ids(&users);
    ids.sort();
    assert_eq!(ids, (0..10u128).collect::<Vec<u128>>());
}

#[test]
fn listing_names_who_wears_what() {
    let mut users: HashMap<u128, User> = HashMap::new();
    users.insert(1, User { enabled_prefix: Some(3), ..User::default() });
    users.insert(2, User::default());
    users.insert(3, User { enabled_prefix: Some(0), ..User::default() });
    let mut catalog: Vec<Cosmetic> = Vec::new();
    add_cosmetic(&mut catalog, cosmetic(3, "three", 0));
    let (listed, wearers) = cosmetics(&users, &catalog);
    assert_eq!(listed.len(), 1);
    assert_eq!(listed[0].name, "three");
    assert_eq!(wearers.len(), 2);
    assert_eq!(wearers[&1], 3);
    assert_eq!(wearers[&3], 0);
}
