use std::collections::HashMap;

use dws::admin::{paginate, AdminQuery, Page, DEFAULT_LIMIT};
use dws::app_state::User;
use dws::utils::retrieve_cosmetics::{disconnected, retrieve_cosmetics, snapshot, CosmeticFile};

#[test]
fn first_page_by_default() {
    assert_eq!(DEFAULT_LIMIT, 50);
    assert_eq!(
        paginate(AdminQuery { page: None, limit: None }, 120),
        Some(Page {
            page: 1,
            limit: 50,
            pages: 3,
            start: 0,
            end: 50,
            previous: None,
            next: Some(2)
        })
    );
}

#[test]
fn last_page_is_short() {
    assert_eq!(
        paginate(AdminQuery { page: Some(3), limit: Some(50) }, 120),
        Some(Page {
            page: 3,
            limit: 50,
            pages: 3,
            start: 100,
            end: 120,
            previous: Some(2),
            next: None
        })
    );
}

#[test]
fn page_past_the_end_is_empty() {
    assert_eq!(
        paginate(AdminQuery { page: Some(9), limit: Some(10) }, 25),
        Some(Page {
            page: 9,
            limit: 10,
            pages: 3,
            start: 25,
            end: 25,
            previous: Some(8),
            next: Some(10)
        })
    );
    assert_eq!(
        paginate(AdminQuery { page: Some(1), limit: Some(10) }, 0),
        Some(Page { page: 1, limit: 10, pages: 1, start: 0, end: 0, previous: None, next: None })
    );
}

#[test]
fn page_zero_and_empty_pages_do_not_exist() {
    assert_eq!(paginate(AdminQuery { page: Some(0), limit: None }, 10), None);
    assert_eq!(paginate(AdminQuery { page: None, limit: Some(0) }, 10), None);
}

#[test]
fn nobody_is_connected_in_a_snapshot() {
    let mut users: HashMap<u128, User> = HashMap::new();
    users.insert(1, User { connected: true, enabled_prefix: Some(2), ..User::default() });
    users.insert(2, User { irc_blacklisted: true, ..User::default() });
    let rested = disconnected(&users);
    assert_eq!(rested.len(), 2);
    assert_eq!(rested[&1], User { enabled_prefix: Some(2), ..User::default() });
    assert_eq!(rested[&2], User { irc_blacklisted: true, ..User::default() });
    let saved = snapshot(&users, &Vec::new());
    assert_eq!(saved.users, rested);
    assert!(saved.cosmetics.is_empty());
    let loaded = retrieve_cosmetics(Some(CosmeticFile { cosmetics: Vec::new(), users }));
    assert_eq!(loaded.users, rested);
}

#[test]
fn missing_snapshot_is_an_empty_store() {
    let loaded = retrieve_cosmetics(None);
    assert!(loaded.cosmetics.is_empty());
    assert!(loaded.users.is_empty());
}
