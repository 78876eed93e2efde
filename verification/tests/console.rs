use starboard::console::{
    get_manageable_guilds, is_same_session, manageable_guilds, Listing, ManageableGuilds,
    StarboardId, Tab, UserGuild, ADMINISTRATOR,
};
use std::collections::HashMap;

fn guild(id: u64, name: &str, permissions: u64) -> UserGuild {
    UserGuild { id, name: name.to_string(), permissions }
}

fn ready(step: Listing) -> Option<HashMap<u64, UserGuild>> {
    match step {
        Listing::Ready(guilds) => guilds.map(|guilds| (*guilds).clone()),
        Listing::Fetch => panic!("asked for a listing"),
    }
}

#[test]
fn the_titles_of_the_tabs() {
    assert_eq!(Tab::Behavior.as_str(), "Behavior");
    assert_eq!(Tab::Regex.as_str(), "Regex");
    assert_eq!(Tab::Requirements.as_str(), "Requirements");
    assert_eq!(Tab::Style.as_str(), "Style");
    assert_eq!(StarboardId(3), StarboardId(3));
    assert_ne!(StarboardId(3), StarboardId(4));
}

#[test]
fn a_session_goes_by_its_nonce() {
    let one = Some("one".to_string());
    let two = Some("two".to_string());
    assert!(is_same_session(&one, &one.clone()));
    assert!(!is_same_session(&one, &two));
    assert!(!is_same_session(&one, &None));
    assert!(!is_same_session(&None, &two));
    assert!(is_same_session(&None, &None));
}

#[test]
fn a_guild_is_manageable_by_an_administrator() {
    assert_eq!(ADMINISTRATOR, 1 << 3);
    assert!(guild(1, "a", 8).is_manageable());
    assert!(guild(1, "a", 0xffff_ffff).is_manageable());
    assert!(guild(1, "a", 0x28).is_manageable());
    assert!(!guild(1, "a", 0).is_manageable());
    assert!(!guild(1, "a", 0x7).is_manageable());
    assert!(!guild(1, "a", 0x10).is_manageable());
}

#[test]
fn the_manageable_guilds_are_picked_by_id() {
    let listed = vec![
        guild(1, "first", 8),
        guild(2, "second", 0),
        guild(3, "third", 0x8 | 0x20),
        guild(1, "first again", 8),
        guild(3, "third again", 0x20),
    ];
    let mut expected = HashMap::new();
    expected.insert(1, guild(1, "first again", 8));
    expected.insert(3, guild(3, "third", 0x28));
    assert_eq!(manageable_guilds(listed), expected);
    assert_eq!(manageable_guilds(vec![]), HashMap::new());
}

#[test]
fn the_manageable_guilds_are_found_out_once() {
    let mut guilds = ManageableGuilds::new();
    assert!(matches!(get_manageable_guilds(&mut guilds, None), Listing::Fetch));
    let listed = vec![guild(1, "a", 8), guild(2, "b", 1)];
    let first = ready(get_manageable_guilds(&mut guilds, Some(Some(listed))));
    let mut expected = HashMap::new();
    expected.insert(1, guild(1, "a", 8));
    assert_eq!(first, Some(expected.clone()));
    assert_eq!(ready(get_manageable_guilds(&mut guilds, None)), Some(expected.clone()));
    let again = ready(get_manageable_guilds(&mut guilds, Some(Some(vec![guild(5, "late", 8)]))));
    assert_eq!(again, Some(expected.clone()));
    assert_eq!(ready(get_manageable_guilds(&mut guilds, Some(None))), Some(expected));
}

#[test]
fn a_listing_that_failed_is_not_kept() {
    let mut guilds = ManageableGuilds::new();
    assert_eq!(ready(get_manageable_guilds(&mut guilds, Some(None))), None);
    assert!(matches!(get_manageable_guilds(&mut guilds, None), Listing::Fetch));
    let found = ready(get_manageable_guilds(&mut guilds, Some(Some(vec![]))));
    assert_eq!(found, Some(HashMap::new()));
    assert_eq!(ready(get_manageable_guilds(&mut guilds, None)), Some(HashMap::new()));
}
