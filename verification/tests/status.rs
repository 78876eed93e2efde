use starboard::config::Config;
use starboard::status::{get_message_status, MessageStatus, StarredMessage, Starboard};

const BOARD: Starboard = Starboard { id: 4, required: 3, required_remove: 0 };

fn message() -> StarredMessage {
    StarredMessage { is_nsfw: false, trashed: false, frozen: false, forced_to: vec![] }
}

#[test]
fn nothing_is_done_while_the_starboard_is_not_resolved() {
    let mut trashed = message();
    trashed.trashed = true;
    assert_eq!(get_message_status(None, &BOARD, &trashed, 10), MessageStatus::NoAction);
    assert_eq!(get_message_status(None, &BOARD, &message(), -10), MessageStatus::NoAction);
}

#[test]
fn an_age_restricted_message_is_taken_off_a_starboard_that_is_not() {
    let mut nsfw = message();
    nsfw.is_nsfw = true;
    nsfw.trashed = true;
    nsfw.forced_to = vec![4];
    assert_eq!(get_message_status(Some(false), &BOARD, &nsfw, 10), MessageStatus::Remove);
    assert_eq!(get_message_status(Some(true), &BOARD, &nsfw, 10), MessageStatus::Trash);
}

#[test]
fn a_trashed_message_is_shown_as_trashed() {
    let mut trashed = message();
    trashed.trashed = true;
    trashed.forced_to = vec![4];
    trashed.frozen = true;
    assert_eq!(get_message_status(Some(false), &BOARD, &trashed, 10), MessageStatus::Trash);
    assert_eq!(get_message_status(Some(true), &BOARD, &trashed, -10), MessageStatus::Trash);
}

#[test]
fn a_message_forced_to_the_starboard_is_shown() {
    let mut forced = message();
    forced.forced_to = vec![1, 4, 9];
    forced.frozen = true;
    assert_eq!(get_message_status(Some(false), &BOARD, &forced, -10), MessageStatus::Send);
    forced.forced_to = vec![1, 9];
    assert_eq!(get_message_status(Some(false), &BOARD, &forced, -10), MessageStatus::NoAction);
}

#[test]
fn a_frozen_message_is_left_alone() {
    let mut frozen = message();
    frozen.frozen = true;
    assert_eq!(get_message_status(Some(false), &BOARD, &frozen, 10), MessageStatus::NoAction);
    assert_eq!(get_message_status(Some(false), &BOARD, &frozen, -10), MessageStatus::NoAction);
}

#[test]
fn the_points_decide_for_an_ordinary_message() {
    assert_eq!(get_message_status(Some(false), &BOARD, &message(), 3), MessageStatus::Send);
    assert_eq!(get_message_status(Some(false), &BOARD, &message(), 4), MessageStatus::Send);
    assert_eq!(get_message_status(Some(false), &BOARD, &message(), 2), MessageStatus::NoAction);
    assert_eq!(get_message_status(Some(false), &BOARD, &message(), 1), MessageStatus::NoAction);
    assert_eq!(get_message_status(Some(false), &BOARD, &message(), 0), MessageStatus::Remove);
    assert_eq!(get_message_status(Some(true), &BOARD, &message(), -1), MessageStatus::Remove);
}

#[test]
fn showing_wins_where_the_bounds_cross() {
    let board = Starboard { id: 4, required: 2, required_remove: 5 };
    assert_eq!(get_message_status(Some(false), &board, &message(), 3), MessageStatus::Send);
    assert_eq!(get_message_status(Some(false), &board, &message(), 1), MessageStatus::Remove);
}

#[test]
fn the_settings_take_what_is_given() {
    let config = Config::from_env(
        "token".to_string(),
        Some(4),
        "postgres://db".to_string(),
        Some(99),
        Some(true),
    );
    assert_eq!(
        config,
        Config {
            token: "token".to_string(),
            shards: 4,
            db_url: "postgres://db".to_string(),
            error_channel: Some(99),
            development: true,
        }
    );
}

#[test]
fn the_settings_fall_back_to_one_shard_and_no_development() {
    let config = Config::from_env("t".to_string(), None, "d".to_string(), None, None);
    assert_eq!(config.shards, 1);
    assert!(!config.development);
    assert_eq!(config.error_channel, None);
    let config = Config::from_env("t".to_string(), Some(0), "d".to_string(), None, Some(false));
    assert_eq!(config.shards, 0);
    assert!(!config.development);
}
