//! The channel picker: the channels of a guild as a list to choose from,
//! with every thread under its channel and every channel under its category.
//!
//! Channels that belong to no category come first, then the categories, each
//! with the threads that hang on the category itself and then its channels.

use crate::model::{Channel, ChannelKind};
use crate::ordering::{sort_channels, sorted};
use vstd::prelude::*;

verus! {

broadcast use vstd::string::to_string_from_display_ensures_for_str;

/// A thread to pick.
#[derive(Clone, Debug, PartialEq, Eq)]
pub struct ThreadItem {
    pub name: String,
    pub value: u64,
}

/// A channel to pick, with its threads.
#[derive(Clone, Debug, PartialEq, Eq)]
pub struct ChannelItem {
    pub name: String,
    pub value: u64,
    pub threads: Vec<ThreadItem>,
}

/// A category to pick, with the threads that hang on it and its channels.
#[derive(Clone, Debug, PartialEq, Eq)]
pub struct CategoryItem {
    pub name: String,
    pub value: u64,
    pub threads: Vec<ThreadItem>,
    pub channels: Vec<ChannelItem>,
}

/// The items of a picker in the order they are shown in: the channels
/// without a category, then the categories.
#[derive(Clone, Debug, PartialEq, Eq)]
pub struct PickerItems {
    pub lone_channels: Vec<ChannelItem>,
    pub categories: Vec<CategoryItem>,
}

/// A thread item as plain values.
pub struct ThreadEntry {
    pub name: Seq<char>,
    pub value: u64,
}

/// A channel item as plain values.
pub struct ChannelEntry {
    pub name: Seq<char>,
    pub value: u64,
    pub threads: Seq<ThreadEntry>,
}

/// A category item as plain values.
pub struct CategoryEntry {
    pub name: Seq<char>,
    pub value: u64,
    pub threads: Seq<ThreadEntry>,
    pub channels: Seq<ChannelEntry>,
}

/// The items of a picker as plain values.
pub struct PickerEntries {
    pub lone_channels: Seq<ChannelEntry>,
    pub categories: Seq<CategoryEntry>,
}

impl View for ThreadItem {
    type V = ThreadEntry;

    open spec fn view(&self) -> ThreadEntry {
        ThreadEntry { name: self.name@, value: self.value }
    }
}

impl View for ChannelItem {
    type V = ChannelEntry;

    open spec fn view(&self) -> ChannelEntry {
        ChannelEntry {
            name: self.name@,
            value: self.value,
            threads: self.threads@.map_values(|item: ThreadItem| item@),
        }
    }
}

impl View for CategoryItem {
    type V = CategoryEntry;

    open spec fn view(&self) -> CategoryEntry {
        CategoryEntry {
            name: self.name@,
            value: self.value,
            threads: self.threads@.map_values(|item: ThreadItem| item@),
            channels: self.channels@.map_values(|item: ChannelItem| item@),
        }
    }
}

impl View for PickerItems {
    type V = PickerEntries;

    open spec fn view(&self) -> PickerEntries {
        PickerEntries {
            lone_channels: self.lone_channels@.map_values(|item: ChannelItem| item@),
            categories: self.categories@.map_values(|item: CategoryItem| item@),
        }
    }
}

/// The name a channel is shown under: its own, or `unknown` where it has
/// none.
pub open spec fn spec_shown_name(channel: &Channel) -> Seq<char> {
    match channel.name {
        Some(name) => name@,
        None => "unknown"@,
    }
}

/// The name a channel is shown under.
pub fn shown_name(channel: &Channel) -> (name: String)
    ensures
        name@ == spec_shown_name(channel),
{
    match &channel.name {
        Some(name) => name.clone(),
        None => "unknown".to_string(),
    }
}

/// The item for a thread.
pub open spec fn thread_entry(thread: Channel) -> ThreadEntry {
    ThreadEntry { name: spec_shown_name(&thread), value: thread.id }
}

/// The items for those of the first `upto` threads that live under channel
/// `parent`, in their order.
pub open spec fn thread_entries(threads: Seq<Channel>, parent: u64, upto: nat) -> Seq<ThreadEntry>
    decreases upto,
{
    if upto == 0 {
        Seq::empty()
    } else {
        let before = thread_entries(threads, parent, (upto - 1) as nat);
        if threads[upto - 1].parent_id == Some(parent) {
            before.push(thread_entry(threads[upto - 1]))
        } else {
            before
        }
    }
}

/// Whether no channel before the one at `at` has its id.
pub open spec fn first_with_id(channels: Seq<Channel>, at: int) -> bool {
    forall|i: int| 0 <= i < at ==> channels[i].id != channels[at].id
}

/// The thread items of the channel at `at`: the threads that live under it.
/// Where several channels share an id, the first of them has the threads.
pub open spec fn own_threads(channels: Seq<Channel>, threads: Seq<Channel>, at: int) -> Seq<
    ThreadEntry,
> {
    if first_with_id(channels, at) {
        thread_entries(threads, channels[at].id, threads.len())
    } else {
        Seq::empty()
    }
}

/// Whether a channel is a category.
pub open spec fn is_category(channel: Channel) -> bool {
    channel.kind == ChannelKind::GuildCategory
}

/// Among the first `upto` channels, the place of the last category that the
/// channel at `at` names as its parent.
pub open spec fn owner_below(channels: Seq<Channel>, at: int, upto: nat) -> Option<int>
    decreases upto,
{
    if upto == 0 {
        None
    } else if is_category(channels[upto - 1]) && channels[at].parent_id == Some(
        channels[upto - 1].id,
    ) {
        Some(upto - 1)
    } else {
        owner_below(channels, at, (upto - 1) as nat)
    }
}

/// The place of the category that the channel at `at` is shown under: the
/// last category before it that it names as its parent.
pub open spec fn owner(channels: Seq<Channel>, at: int) -> Option<int> {
    owner_below(channels, at, at as nat)
}

/// The item for the channel at `at`.
pub open spec fn channel_entry(
    channels: Seq<Channel>,
    threads: Seq<Channel>,
    at: int,
) -> ChannelEntry {
    ChannelEntry {
        name: spec_shown_name(&channels[at]),
        value: channels[at].id,
        threads: own_threads(channels, threads, at),
    }
}

/// The items for those of the first `upto` channels that are shown under the
/// category at `under`, or, where `under` is `None`, under no category.
pub open spec fn channel_entries(
    channels: Seq<Channel>,
    threads: Seq<Channel>,
    under: Option<int>,
    upto: nat,
) -> Seq<ChannelEntry>
    decreases upto,
{
    if upto == 0 {
        Seq::empty()
    } else {
        let before = channel_entries(channels, threads, under, (upto - 1) as nat);
        if !is_category(channels[upto - 1]) && owner(channels, upto - 1) == under {
            before.push(channel_entry(channels, threads, upto - 1))
        } else {
            before
        }
    }
}

/// The item for the category at `at`.
pub open spec fn category_entry(
    channels: Seq<Channel>,
    threads: Seq<Channel>,
    at: int,
) -> CategoryEntry {
    CategoryEntry {
        name: spec_shown_name(&channels[at]),
        value: channels[at].id,
        threads: own_threads(channels, threads, at),
        channels: channel_entries(channels, threads, Some(at), channels.len()),
    }
}

/// The items for the categories among the first `upto` channels.
pub open spec fn category_entries(channels: Seq<Channel>, threads: Seq<Channel>, upto: nat) -> Seq<
    CategoryEntry,
>
    decreases upto,
{
    if upto == 0 {
        Seq::empty()
    } else {
        let before = category_entries(channels, threads, (upto - 1) as nat);
        if is_category(channels[upto - 1]) {
            before.push(category_entry(channels, threads, upto - 1))
        } else {
            before
        }
    }
}

/// The items of the picker for `channels` and `threads`, each of which is
/// sorted first: channels by kind and position, threads by position.
pub open spec fn picker_entries(channels: Seq<Channel>, threads: Seq<Channel>) -> PickerEntries {
    let channels = sorted(channels, true);
    let threads = sorted(threads, false);
    PickerEntries {
        lone_channels: channel_entries(channels, threads, None, channels.len()),
        categories: category_entries(channels, threads, channels.len()),
    }
}

/// The last category among the first `upto` channels that a channel names
/// as its parent is found, if there is any.
pub proof fn lemma_owner_is_found(channels: Seq<Channel>, at: int, upto: nat, category: int)
    requires
        0 <= category < upto,
        is_category(channels[category]),
        channels[at].parent_id == Some(channels[category].id),
    ensures
        owner_below(channels, at, upto) matches Some(found) && category <= found < upto
            && is_category(channels[found]) && channels[found].id == channels[category].id,
    decreases upto,
{
    if !(is_category(channels[upto - 1]) && channels[at].parent_id == Some(channels[upto - 1].id)) {
        lemma_owner_is_found(channels, at, (upto - 1) as nat, category);
    }
}

/// The items for the threads that live under channel `parent`.
fn thread_items(threads: &Vec<Channel>, parent: u64) -> (items: Vec<ThreadItem>)
    ensures
        items@.map_values(|item: ThreadItem| item@) == thread_entries(
            threads@,
            parent,
            threads@.len(),
        ),
{
    let mut items: Vec<ThreadItem> = Vec::new();
    let mut i: usize = 0;
    while i < threads.len()
        invariant
            i <= threads@.len(),
            items@.map_values(|item: ThreadItem| item@) =~= thread_entries(
                threads@,
                parent,
                i as nat,
            ),
        decreases threads@.len() - i,
    {
        let under = match threads[i].parent_id {
            Some(id) => id == parent,
            None => false,
        };
        if under {
            items.push(ThreadItem { name: shown_name(&threads[i]), value: threads[i].id });
        }
        i += 1;
    }
    items
}

/// Whether no channel before the one at `at` has its id.
fn is_first_with_id(channels: &Vec<Channel>, at: usize) -> (first: bool)
    requires
        at < channels@.len(),
    ensures
        first == first_with_id(channels@, at as int),
{
    let mut i: usize = 0;
    while i < at
        invariant
            i <= at < channels@.len(),
            forall|j: int| 0 <= j < i ==> channels@[j].id != channels@[at as int].id,
        decreases at - i,
    {
        if channels[i].id == channels[at].id {
            return false;
        }
        i += 1;
    }
    true
}

/// The thread items of the channel at `at`.
fn own_thread_items(channels: &Vec<Channel>, threads: &Vec<Channel>, at: usize) -> (items: Vec<
    ThreadItem,
>)
    requires
        at < channels@.len(),
    ensures
        items@.map_values(|item: ThreadItem| item@) == own_threads(
            channels@,
            threads@,
            at as int,
        ),
{
    if is_first_with_id(channels, at) {
        thread_items(threads, channels[at].id)
    } else {
        let items: Vec<ThreadItem> = Vec::new();
        assert(items@.map_values(|item: ThreadItem| item@) =~= Seq::empty());
        items
    }
}

/// The place of the category that the channel at `at` is shown under.
fn owner_of(channels: &Vec<Channel>, at: usize) -> (place: Option<usize>)
    requires
        at < channels@.len(),
    ensures
        match place {
            Some(j) => owner(channels@, at as int) == Some(j as int) && j < at,
            None => owner(channels@, at as int) is None,
        },
{
    let parent = match channels[at].parent_id {
        Some(id) => id,
        None => {
            proof {
                lemma_no_parent_no_owner(channels@, at as int, at as nat);
            }
            return None;
        },
    };
    let mut upto: usize = at;
    while upto > 0
        invariant
            upto <= at < channels@.len(),
            channels@[at as int].parent_id == Some(parent),
            owner(channels@, at as int) == owner_below(channels@, at as int, upto as nat),
        decreases upto,
    {
        let candidate = &channels[upto - 1];
        if candidate.kind == ChannelKind::GuildCategory && candidate.id == parent {
            return Some(upto - 1);
        }
        upto -= 1;
    }
    None
}

/// A channel that names no parent is shown under no category.
proof fn lemma_no_parent_no_owner(channels: Seq<Channel>, at: int, upto: nat)
    requires
        channels[at].parent_id is None,
    ensures
        owner_below(channels, at, upto) is None,
    decreases upto,
{
    if upto > 0 {
        lemma_no_parent_no_owner(channels, at, (upto - 1) as nat);
    }
}

/// The items for the channels that are shown under the category at `under`,
/// or under none.
fn channel_items(channels: &Vec<Channel>, threads: &Vec<Channel>, under: Option<usize>) -> (items:
    Vec<ChannelItem>)
    ensures
        items@.map_values(|item: ChannelItem| item@) == channel_entries(
            channels@,
            threads@,
            match under {
                Some(j) => Some(j as int),
                None => None,
            },
            channels@.len(),
        ),
{
    let ghost place: Option<int> = match under {
        Some(j) => Some(j as int),
        None => None,
    };
    let mut items: Vec<ChannelItem> = Vec::new();
    let mut i: usize = 0;
    while i < channels.len()
        invariant
            i <= channels@.len(),
            place == (match under {
                Some(j) => Some(j as int),
                None => None::<int>,
            }),
            items@.map_values(|item: ChannelItem| item@) =~= channel_entries(
                channels@,
                threads@,
                place,
                i as nat,
            ),
        decreases channels@.len() - i,
    {
        if channels[i].kind != ChannelKind::GuildCategory {
            let shown_under = owner_of(channels, i);
            let here = match (shown_under, under) {
                (Some(a), Some(b)) => a == b,
                (None, None) => true,
                _ => false,
            };
            if here {
                items.push(
                    ChannelItem {
                        name: shown_name(&channels[i]),
                        value: channels[i].id,
                        threads: own_thread_items(channels, threads, i),
                    },
                );
            }
        }
        i += 1;
    }
    items
}

/// Turns the channels and threads of a guild into the items of a picker: see
/// `picker_entries`.
pub fn channels_to_picker_items(channels: Vec<Channel>, threads: Vec<Channel>) -> (items:
    PickerItems)
    ensures
        items@ == picker_entries(channels@, threads@),
{
    let channels = sort_channels(channels, true);
    let threads = sort_channels(threads, false);
    let lone_channels = channel_items(&channels, &threads, None);
    let mut categories: Vec<CategoryItem> = Vec::new();
    let mut i: usize = 0;
    while i < channels.len()
        invariant
            i <= channels@.len(),
            categories@.map_values(|item: CategoryItem| item@) =~= category_entries(
                channels@,
                threads@,
                i as nat,
            ),
        decreases channels@.len() - i,
    {
        if channels[i].kind == ChannelKind::GuildCategory {
            categories.push(
                CategoryItem {
                    name: shown_name(&channels[i]),
                    value: channels[i].id,
                    threads: own_thread_items(&channels, &threads, i),
                    channels: channel_items(&channels, &threads, Some(i)),
                },
            );
        }
        i += 1;
    }
    PickerItems { lone_channels, categories }
}

} // verus!
