//! The records the cache keeps, and the payloads of the remote API that they
//! are made from.
//!
//! Every identifier is the platform's 64-bit snowflake, held as a `u64`.

use std::collections::HashMap;
use vstd::prelude::*;

verus! {

broadcast use vstd::std_specs::hash::group_hash_axioms;

/// The kind of a channel, as the platform reports it.
#[derive(Clone, Copy, Debug, PartialEq, Eq, Structural)]
pub enum ChannelKind {
    GuildText,
    Private,
    GuildVoice,
    Group,
    GuildCategory,
    GuildAnnouncement,
    AnnouncementThread,
    PublicThread,
    PrivateThread,
    GuildStageVoice,
    GuildDirectory,
    GuildForum,
    Unknown(u8),
}

impl ChannelKind {
    /// Whether a channel of this kind is a thread, which lives under a parent
    /// channel.
    pub open spec fn spec_is_thread(self) -> bool {
        self == ChannelKind::AnnouncementThread || self == ChannelKind::PublicThread || self
            == ChannelKind::PrivateThread
    }

    #[verifier::when_used_as_spec(spec_is_thread)]
    pub fn is_thread(self) -> (thread: bool)
        ensures
            thread == self.spec_is_thread(),
    {
        match self {
            ChannelKind::AnnouncementThread => true,
            ChannelKind::PublicThread => true,
            ChannelKind::PrivateThread => true,
            _ => false,
        }
    }
}

/// A channel as the remote API returns it.
#[derive(Clone, Debug, PartialEq, Eq)]
pub struct Channel {
    pub id: u64,
    pub guild_id: Option<u64>,
    pub kind: ChannelKind,
    pub parent_id: Option<u64>,
    pub name: Option<String>,
    pub position: Option<i32>,
    pub nsfw: Option<bool>,
}

impl Channel {
    /// A thread names the channel it lives under. The platform sends no thread
    /// without one.
    pub open spec fn well_formed(&self) -> bool {
        self.kind.is_thread() ==> self.parent_id is Some
    }

    /// Tests `well_formed`.
    pub fn is_well_formed(&self) -> (ok: bool)
        ensures
            ok == self.well_formed(),
    {
        !self.kind.is_thread() || self.parent_id.is_some()
    }
}

/// What the cache knows of one channel. The channel's id is the key it is
/// stored under.
#[derive(Clone, Debug, PartialEq, Eq)]
pub struct CachedChannel {
    pub name: Option<String>,
    pub kind: ChannelKind,
    pub parent_id: Option<u64>,
    pub position: Option<i32>,
    /// `None` while it is not known whether the channel is age-restricted.
    pub is_nsfw: Option<bool>,
}

/// The record for a channel that was just fetched, given what was known of it
/// before: kind and parent are taken from the fetched channel; name, position
/// and the nsfw flag too where it reports them, and kept from the earlier
/// record where it does not.
pub open spec fn merged_channel(earlier: Option<CachedChannel>, channel: Channel) -> CachedChannel {
    CachedChannel {
        name: if channel.name is None && earlier is Some {
            earlier->0.name
        } else {
            channel.name
        },
        kind: channel.kind,
        parent_id: channel.parent_id,
        position: if channel.position is None && earlier is Some {
            earlier->0.position
        } else {
            channel.position
        },
        is_nsfw: if channel.nsfw is None && earlier is Some {
            earlier->0.is_nsfw
        } else {
            channel.nsfw
        },
    }
}

impl CachedChannel {
    /// Builds the record for `channel`, keeping from `earlier` what the fetched
    /// channel does not report.
    pub fn from_channel(earlier: Option<&CachedChannel>, channel: &Channel) -> (merged:
        CachedChannel)
        ensures
            merged == merged_channel(
                match earlier {
                    Some(o) => Some(*o),
                    None => None,
                },
                *channel,
            ),
    {
        let name = match &channel.name {
            Some(n) => Some(n.clone()),
            None => match earlier {
                Some(o) => match &o.name {
                    Some(n) => Some(n.clone()),
                    None => None,
                },
                None => None,
            },
        };
        let position = match channel.position {
            Some(p) => Some(p),
            None => match earlier {
                Some(o) => o.position,
                None => None,
            },
        };
        let is_nsfw = match channel.nsfw {
            Some(n) => Some(n),
            None => match earlier {
                Some(o) => o.is_nsfw,
                None => None,
            },
        };
        CachedChannel { name, kind: channel.kind, parent_id: channel.parent_id, position, is_nsfw }
    }
}

/// One guild's aggregate: its channels, the parent channel of each of its
/// active threads, and for each of its emojis whether it is animated.
#[derive(Clone, Debug)]
pub struct CachedGuild {
    pub channels: HashMap<u64, CachedChannel>,
    pub active_thread_parents: HashMap<u64, u64>,
    pub emojis: HashMap<u64, bool>,
}

/// A guild aggregate as three finite maps.
pub struct GuildView {
    pub channels: Map<u64, CachedChannel>,
    pub active_thread_parents: Map<u64, u64>,
    pub emojis: Map<u64, bool>,
}

impl View for CachedGuild {
    type V = GuildView;

    open spec fn view(&self) -> GuildView {
        GuildView {
            channels: self.channels@,
            active_thread_parents: self.active_thread_parents@,
            emojis: self.emojis@,
        }
    }
}

impl GuildView {
    /// A guild of which nothing is known yet.
    pub open spec fn empty() -> GuildView {
        GuildView {
            channels: Map::empty(),
            active_thread_parents: Map::empty(),
            emojis: Map::empty(),
        }
    }

    /// The guild knows finitely many channels and threads, as every guild
    /// that is held in memory does.
    pub open spec fn finite(self) -> bool {
        self.active_thread_parents.dom().finite() && self.channels.dom().finite()
    }

    /// What is known of channel `id`, if anything.
    pub open spec fn channel(self, id: u64) -> Option<CachedChannel> {
        if self.channels.contains_key(id) {
            Some(self.channels[id])
        } else {
            None
        }
    }

    /// The guild after a fetched channel was merged into its channel map.
    pub open spec fn with_channel(self, channel: Channel) -> GuildView {
        GuildView {
            channels: self.channels.insert(
                channel.id,
                merged_channel(self.channel(channel.id), channel),
            ),
            ..self
        }
    }
}

impl CachedGuild {
    /// Every guild that is held in memory knows finitely many channels and
    /// threads.
    pub proof fn lemma_finite(&self)
        ensures
            self@.finite(),
    {
        vstd::std_specs::hash::axiom_hashmap_view_finite_dom(self.channels);
        vstd::std_specs::hash::axiom_hashmap_view_finite_dom(self.active_thread_parents);
    }

    /// A guild of which nothing is known yet.
    pub fn new() -> (guild: CachedGuild)
        ensures
            guild@ == GuildView::empty(),
    {
        CachedGuild {
            channels: HashMap::new(),
            active_thread_parents: HashMap::new(),
            emojis: HashMap::new(),
        }
    }

    /// Merges a fetched channel into the channel map, under the channel's id.
    pub fn with_channel(self, channel: &Channel) -> (guild: CachedGuild)
        ensures
            guild@ == self@.with_channel(*channel),
    {
        let mut guild = self;
        let merged = CachedChannel::from_channel(guild.channels.get(&channel.id), channel);
        guild.channels.insert(channel.id, merged);
        guild
    }
}

/// A user as the remote API returns it.
#[derive(Clone, Debug, PartialEq, Eq)]
pub struct User {
    pub id: u64,
    pub name: String,
    pub bot: bool,
}

/// What the cache keeps of a user.
#[derive(Clone, Debug, PartialEq, Eq)]
pub struct CachedUser {
    pub id: u64,
    pub name: String,
    pub is_bot: bool,
}

/// The record kept of `user`.
pub open spec fn cached_user(user: User) -> CachedUser {
    CachedUser { id: user.id, name: user.name, is_bot: user.bot }
}

impl CachedUser {
    /// The record kept of `user`.
    pub fn from_user(user: &User) -> (cached: CachedUser)
        ensures
            cached == cached_user(*user),
    {
        CachedUser { id: user.id, name: user.name.clone(), is_bot: user.bot }
    }
}

/// A guild member as the remote API returns it, with the user it belongs to.
#[derive(Clone, Debug, PartialEq, Eq)]
pub struct Member {
    pub user: User,
    pub nick: Option<String>,
    pub roles: Vec<u64>,
}

/// What the cache keeps of a guild member.
#[derive(Clone, Debug, PartialEq, Eq)]
pub struct CachedMember {
    pub user_id: u64,
    pub is_bot: bool,
    pub nick: Option<String>,
    pub roles: Vec<u64>,
}

/// The record kept of `member`.
pub open spec fn cached_member(member: Member) -> CachedMember {
    CachedMember {
        user_id: member.user.id,
        is_bot: member.user.bot,
        nick: member.nick,
        roles: member.roles,
    }
}

impl CachedMember {
    /// The record kept of `member`.
    pub fn from_member(member: Member) -> (cached: CachedMember)
        ensures
            cached == cached_member(member),
    {
        CachedMember {
            user_id: member.user.id,
            is_bot: member.user.bot,
            nick: member.nick,
            roles: member.roles,
        }
    }
}

/// The interaction that a message answers: its own id, and the user who
/// invoked it.
#[derive(Clone, Debug, PartialEq, Eq)]
pub struct Interaction {
    pub id: u64,
    pub user: User,
}

/// A message as the remote API returns it.
#[derive(Clone, Debug, PartialEq, Eq)]
pub struct Message {
    pub id: u64,
    pub channel_id: u64,
    pub author: User,
    pub interaction: Option<Interaction>,
    pub content: String,
}

impl Message {
    /// The user a message counts as written by: whoever invoked the interaction
    /// that it answers, and its reported author where it answers none.
    pub open spec fn effective_author(self) -> User {
        match self.interaction {
            Some(interaction) => interaction.user,
            None => self.author,
        }
    }

    /// The effective author of the message.
    pub fn author(&self) -> (user: &User)
        ensures
            *user == self.effective_author(),
    {
        match &self.interaction {
            Some(interaction) => &interaction.user,
            None => &self.author,
        }
    }
}

/// What the cache keeps of a message.
#[derive(Clone, Debug, PartialEq, Eq)]
pub struct CachedMessage {
    pub author_id: u64,
    pub content: String,
}

/// The record kept of `message`, under its effective author.
pub open spec fn cached_message(message: Message) -> CachedMessage {
    CachedMessage { author_id: message.effective_author().id, content: message.content }
}

impl CachedMessage {
    /// The record kept of `message`, under its effective author.
    pub fn from_message(message: Message) -> (cached: CachedMessage)
        ensures
            cached == cached_message(message),
    {
        let author_id = message.author().id;
        CachedMessage { author_id, content: message.content }
    }
}

/// A webhook as the remote API returns it, which is also how it is kept.
#[derive(Clone, Debug, PartialEq, Eq)]
pub struct Webhook {
    pub id: u64,
    pub channel_id: u64,
    pub guild_id: Option<u64>,
    pub name: Option<String>,
    pub token: Option<String>,
}

} // verus!
