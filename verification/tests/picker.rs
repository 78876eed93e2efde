use starboard::model::{Channel, ChannelKind};
use starboard::ordering::{channel_sort_key, sort_channels};
use starboard::picker::{
    channels_to_picker_items, shown_name, CategoryItem, ChannelItem, PickerItems, ThreadItem,
};

fn channel(id: u64, kind: ChannelKind, parent_id: Option<u64>, position: Option<i32>) -> Channel {
    Channel {
        id,
        guild_id: Some(1),
        kind,
        parent_id,
        name: Some(format!("c{}", id)),
        position,
        nsfw: None,
    }
}

fn ids(channels: &[Channel]) -> Vec<u64> {
    channels.iter().map(|channel| channel.id).collect()
}

fn thread(value: u64) -> ThreadItem {
    ThreadItem { name: format!("c{}", value), value }
}

fn item(value: u64, threads: Vec<ThreadItem>) -> ChannelItem {
    ChannelItem { name: format!("c{}", value), value, threads }
}

#[test]
fn the_sort_key_of_a_channel() {
    let text = channel(1, ChannelKind::GuildText, None, Some(4));
    assert_eq!(channel_sort_key(&text), (0, Some(4)));
    let category = channel(1, ChannelKind::GuildCategory, None, None);
    assert_eq!(channel_sort_key(&category), (-1, None));
    let voice = channel(1, ChannelKind::GuildVoice, None, Some(-2));
    assert_eq!(channel_sort_key(&voice), (1, Some(-2)));
    let stage = channel(1, ChannelKind::GuildStageVoice, None, Some(0));
    assert_eq!(channel_sort_key(&stage), (1, Some(0)));
    let forum = channel(1, ChannelKind::GuildForum, None, Some(0));
    assert_eq!(channel_sort_key(&forum), (0, Some(0)));
    assert_eq!(ChannelKind::Unknown(4).rank(), 0);
}

#[test]
fn channels_are_sorted_by_kind_and_then_by_position() {
    let sorted = sort_channels(
        vec![
            channel(1, ChannelKind::GuildVoice, None, Some(0)),
            channel(2, ChannelKind::GuildText, None, Some(5)),
            channel(3, ChannelKind::GuildCategory, None, Some(9)),
            channel(4, ChannelKind::GuildText, None, None),
            channel(5, ChannelKind::GuildCategory, None, Some(1)),
            channel(6, ChannelKind::GuildText, None, Some(-3)),
        ],
        true,
    );
    assert_eq!(ids(&sorted), vec![5, 3, 4, 6, 2, 1]);
}

#[test]
fn channels_that_tie_stay_as_they_came() {
    let sorted = sort_channels(
        vec![
            channel(1, ChannelKind::GuildText, None, Some(2)),
            channel(2, ChannelKind::GuildForum, None, Some(2)),
            channel(3, ChannelKind::GuildText, None, Some(1)),
            channel(4, ChannelKind::GuildAnnouncement, None, Some(2)),
            channel(5, ChannelKind::GuildText, None, Some(1)),
        ],
        true,
    );
    assert_eq!(ids(&sorted), vec![3, 5, 1, 2, 4]);
}

#[test]
fn threads_are_sorted_by_position_alone() {
    let sorted = sort_channels(
        vec![
            channel(1, ChannelKind::GuildVoice, None, Some(3)),
            channel(2, ChannelKind::GuildCategory, None, Some(5)),
            channel(3, ChannelKind::PublicThread, None, Some(4)),
            channel(4, ChannelKind::PublicThread, None, None),
        ],
        false,
    );
    assert_eq!(ids(&sorted), vec![4, 1, 3, 2]);
}

#[test]
fn sorting_agrees_with_a_stable_sort() {
    let kinds = [
        ChannelKind::GuildText,
        ChannelKind::GuildCategory,
        ChannelKind::GuildVoice,
        ChannelKind::GuildForum,
        ChannelKind::GuildStageVoice,
    ];
    let mut seed: u64 = 3;
    let mut channels = Vec::new();
    for id in 0..300u64 {
        seed = seed.wrapping_mul(6364136223846793005).wrapping_add(1442695040888963407);
        let kind = kinds[((seed >> 33) % 5) as usize];
        let position = match (seed >> 40) % 7 {
            0 => None,
            n => Some(n as i32 - 3),
        };
        channels.push(channel(id, kind, None, position));
    }
    let mut expected = channels.clone();
    expected.sort_by_key(channel_sort_key);
    assert_eq!(sort_channels(channels.clone(), true), expected);
    let mut expected = channels.clone();
    expected.sort_by(|l, r| l.position.cmp(&r.position));
    assert_eq!(sort_channels(channels, false), expected);
}

#[test]
fn nothing_to_sort() {
    assert_eq!(sort_channels(vec![], true), vec![]);
    let one = channel(1, ChannelKind::GuildText, None, None);
    assert_eq!(sort_channels(vec![one.clone()], false), vec![one]);
}

#[test]
fn a_channel_without_a_name_is_shown_as_unknown() {
    let mut nameless = channel(1, ChannelKind::GuildText, None, None);
    nameless.name = None;
    assert_eq!(shown_name(&nameless), "unknown");
    assert_eq!(shown_name(&channel(2, ChannelKind::GuildText, None, None)), "c2");
}

#[test]
fn the_items_of_a_picker() {
    let channels = vec![
        channel(10, ChannelKind::GuildText, Some(30), Some(2)),
        channel(11, ChannelKind::GuildText, None, Some(1)),
        channel(12, ChannelKind::GuildVoice, Some(30), Some(0)),
        channel(30, ChannelKind::GuildCategory, None, Some(1)),
        channel(31, ChannelKind::GuildCategory, None, Some(0)),
        channel(13, ChannelKind::GuildText, Some(30), Some(1)),
        channel(14, ChannelKind::GuildText, Some(99), Some(0)),
    ];
    let threads = vec![
        channel(20, ChannelKind::PublicThread, Some(10), Some(2)),
        channel(21, ChannelKind::PublicThread, Some(10), Some(1)),
        channel(22, ChannelKind::PrivateThread, Some(11), None),
        channel(23, ChannelKind::PublicThread, Some(30), None),
        channel(24, ChannelKind::PublicThread, Some(77), None),
        channel(25, ChannelKind::PublicThread, None, None),
    ];
    let items = channels_to_picker_items(channels, threads);
    assert_eq!(
        items,
        PickerItems {
            lone_channels: vec![item(14, vec![]), item(11, vec![thread(22)])],
            categories: vec![
                CategoryItem {
                    name: "c31".to_string(),
                    value: 31,
                    threads: vec![],
                    channels: vec![],
                },
                CategoryItem {
                    name: "c30".to_string(),
                    value: 30,
                    threads: vec![thread(23)],
                    channels: vec![
                        item(13, vec![]),
                        item(10, vec![thread(21), thread(20)]),
                        item(12, vec![]),
                    ],
                },
            ],
        }
    );
}

#[test]
fn a_picker_of_nothing() {
    assert_eq!(
        channels_to_picker_items(vec![], vec![]),
        PickerItems { lone_channels: vec![], categories: vec![] }
    );
}

#[test]
fn channels_that_share_an_id() {
    let channels = vec![
        channel(30, ChannelKind::GuildCategory, None, Some(0)),
        channel(30, ChannelKind::GuildCategory, None, Some(1)),
        channel(10, ChannelKind::GuildText, Some(30), Some(0)),
        channel(10, ChannelKind::GuildText, None, Some(1)),
    ];
    let threads = vec![
        channel(20, ChannelKind::PublicThread, Some(10), None),
        channel(21, ChannelKind::PublicThread, Some(30), None),
    ];
    let items = channels_to_picker_items(channels, threads);
    let empty =
        CategoryItem { name: "c30".to_string(), value: 30, threads: vec![], channels: vec![] };
    assert_eq!(
        items,
        PickerItems {
            lone_channels: vec![item(10, vec![])],
            categories: vec![
                CategoryItem { threads: vec![thread(21)], ..empty.clone() },
                CategoryItem { channels: vec![item(10, vec![thread(20)])], ..empty },
            ],
        }
    );
}
