//! The channel hierarchy: which channel stands for a possibly threaded
//! channel where permissions and ownership are decided, and whether that
//! channel is age-restricted.
//!
//! Answers come from the guild aggregate where it has them. Where it has not,
//! the channel is fetched, and where that turns out to be a thread, its parent
//! after it: two fetches at most.

use crate::cache::{Cache, CacheView};
use crate::model::{Channel, GuildView};
use crate::remote::{Fetched, Request, Step};
use vstd::prelude::*;

verus! {

broadcast use vstd::std_specs::hash::group_hash_axioms;

/// The reply to one of the two fetches of a resolution.
#[derive(Clone, Debug, PartialEq, Eq)]
pub enum ChannelReply {
    /// The reply to the fetch of the channel that is being resolved.
    Channel(Fetched<Channel>),
    /// The reply to the fetch of the parent of that channel, a thread.
    Parent(Fetched<Channel>),
}

impl ChannelReply {
    /// A channel that is being resolved and was found is well formed: as a
    /// thread it names its parent.
    pub open spec fn well_formed(self) -> bool {
        self matches ChannelReply::Channel(Fetched::Found(channel)) ==> channel.well_formed()
    }

    /// Tests `well_formed`.
    pub fn is_well_formed(&self) -> (ok: bool)
        ensures
            ok == self.well_formed(),
    {
        match self {
            ChannelReply::Channel(Fetched::Found(channel)) => channel.is_well_formed(),
            _ => true,
        }
    }
}

/// Where a reply leaves the resolution of a channel: at the channel that
/// stands for it, at the knowledge that there is none (the API answered 404),
/// at a failure, or at the fetch of the parent of the thread that was found.
/// The parent of a thread is taken as it comes, whatever its kind.
pub open spec fn resolved_channel(reply: ChannelReply) -> Step<Option<Channel>> {
    match reply {
        ChannelReply::Channel(Fetched::Found(channel)) => if channel.kind.is_thread() {
            Step::Fetch(Request::Channel(channel.parent_id->0))
        } else {
            Step::Done(Ok(Some(channel)))
        },
        ChannelReply::Parent(Fetched::Found(channel)) => Step::Done(Ok(Some(channel))),
        ChannelReply::Channel(Fetched::Failed(error)) | ChannelReply::Parent(
            Fetched::Failed(error),
        ) => if error.is_not_found() {
            Step::Done(Ok(None))
        } else {
            Step::Done(Err(error))
        },
    }
}

/// Takes one reply of the resolution of a channel: see `resolved_channel`.
pub fn fetch_channel_or_thread_parent(reply: ChannelReply) -> (step: Step<Option<Channel>>)
    requires
        reply.well_formed(),
    ensures
        step == resolved_channel(reply),
{
    let (found, first) = match reply {
        ChannelReply::Channel(found) => (found, true),
        ChannelReply::Parent(found) => (found, false),
    };
    match found {
        Fetched::Found(channel) => {
            if first && channel.kind.is_thread() {
                Step::Fetch(Request::Channel(channel.parent_id.unwrap()))
            } else {
                Step::Done(Ok(Some(channel)))
            }
        },
        Fetched::Failed(error) => {
            if error.is_not_found() {
                Step::Done(Ok(None))
            } else {
                Step::Done(Err(error))
            }
        },
    }
}

/// How the cache answers whether a channel is age-restricted.
#[derive(Clone, Copy, Debug, PartialEq, Eq, Structural)]
pub enum NsfwLookup {
    /// The guild is not cached: nothing can be said, and nothing is fetched.
    NoGuild,
    /// The channel is cached with its flag.
    Known(bool),
    /// The flag of this channel has to be fetched.
    Unknown(u64),
}

impl GuildView {
    /// The channel that stands for `channel_id`, as far as the guild knows:
    /// a channel of the guild stands for itself, a thread in the index for
    /// its indexed parent.
    pub open spec fn parent_of(self, channel_id: u64) -> Option<u64> {
        if self.channels.contains_key(channel_id) {
            Some(channel_id)
        } else if self.active_thread_parents.contains_key(channel_id) {
            Some(self.active_thread_parents[channel_id])
        } else {
            None
        }
    }

    /// The channel whose flag says whether `channel_id` is age-restricted:
    /// for a thread in the index its indexed parent, else the channel itself.
    pub open spec fn flag_holder(self, channel_id: u64) -> u64 {
        if self.active_thread_parents.contains_key(channel_id) {
            self.active_thread_parents[channel_id]
        } else {
            channel_id
        }
    }

    /// How the guild answers whether `channel_id` is age-restricted.
    pub open spec fn nsfw_lookup(self, channel_id: u64) -> NsfwLookup {
        let holder = self.flag_holder(channel_id);
        if self.channels.contains_key(holder) && self.channels[holder].is_nsfw is Some {
            NsfwLookup::Known(self.channels[holder].is_nsfw->0)
        } else {
            NsfwLookup::Unknown(holder)
        }
    }
}

impl CacheView {
    /// The channel that stands for `channel_id` in guild `guild_id`, as far
    /// as the cache knows.
    pub open spec fn cached_parent(self, guild_id: u64, channel_id: u64) -> Option<u64> {
        match self.guild(guild_id) {
            Some(guild) => guild.parent_of(channel_id),
            None => None,
        }
    }

    /// Whether guild `guild_id` is cached with a channel `channel_id`.
    pub open spec fn has_channel(self, guild_id: u64, channel_id: u64) -> bool {
        self.guilds.contains_key(guild_id) && self.guilds[guild_id].channels.contains_key(
            channel_id,
        )
    }

    /// How the cache answers whether channel `channel_id` of guild `guild_id`
    /// is age-restricted.
    pub open spec fn nsfw_lookup(self, guild_id: u64, channel_id: u64) -> NsfwLookup {
        match self.guild(guild_id) {
            Some(guild) => guild.nsfw_lookup(channel_id),
            None => NsfwLookup::NoGuild,
        }
    }

    /// The channel that a reply resolves to for guild `guild_id`, if any: the
    /// channel that the resolution ends at, unless it belongs to another
    /// guild or to none.
    pub open spec fn resolved_for(guild_id: u64, reply: ChannelReply) -> Option<Channel> {
        match resolved_channel(reply) {
            Step::Done(Ok(Some(channel))) => if channel.guild_id == Some(guild_id) {
                Some(channel)
            } else {
                None
            },
            _ => None,
        }
    }

    /// The cache after one step of a resolution for guild `guild_id`: the
    /// channel that a reply resolves to is merged into the guild's channel
    /// map, keeping what was known of it; nothing else changes.
    pub open spec fn after_resolution(
        self,
        guild_id: u64,
        reply: Option<ChannelReply>,
    ) -> CacheView {
        match reply {
            Some(r) => match CacheView::resolved_for(guild_id, r) {
                Some(channel) => self.with_channel(guild_id, channel),
                None => self,
            },
            None => self,
        }
    }

    /// One step of finding the channel that stands for `channel_id` in guild
    /// `guild_id`. Without a reply the cache answers, or the channel is to be
    /// fetched. With one, the resolution goes on to the parent of a thread, or
    /// ends: at the id of the channel resolved to, at `None` where there is no
    /// such channel or it is not of this guild, or at the failure.
    pub open spec fn parent_step(
        self,
        guild_id: u64,
        channel_id: u64,
        reply: Option<ChannelReply>,
    ) -> Step<Option<u64>> {
        match reply {
            None => match self.cached_parent(guild_id, channel_id) {
                Some(parent_id) => Step::Done(Ok(Some(parent_id))),
                None => Step::Fetch(Request::Channel(channel_id)),
            },
            Some(r) => match resolved_channel(r) {
                Step::Fetch(request) => Step::Fetch(request),
                Step::Done(Err(error)) => Step::Done(Err(error)),
                Step::Done(Ok(_)) => match CacheView::resolved_for(guild_id, r) {
                    Some(channel) => Step::Done(Ok(Some(channel.id))),
                    None => Step::Done(Ok(None)),
                },
            },
        }
    }

    /// One step of deciding whether channel `channel_id` belongs to guild
    /// `guild_id`: it does where the channel that stands for it is in the
    /// guild's channel map once the resolution is over.
    pub open spec fn membership_step(
        self,
        guild_id: u64,
        channel_id: u64,
        reply: Option<ChannelReply>,
    ) -> Step<bool> {
        match self.parent_step(guild_id, channel_id, reply) {
            Step::Fetch(request) => Step::Fetch(request),
            Step::Done(Err(error)) => Step::Done(Err(error)),
            Step::Done(Ok(None)) => Step::Done(Ok(false)),
            Step::Done(Ok(Some(parent_id))) => Step::Done(
                Ok(self.after_resolution(guild_id, reply).has_channel(guild_id, parent_id)),
            ),
        }
    }

    /// One step of deciding whether channel `channel_id` of guild `guild_id`
    /// is age-restricted. Without a reply the cache answers: `None` where the
    /// guild is not cached, the flag where it is known, and else the fetch of
    /// the channel that holds the flag. With a reply, the resolution goes on
    /// or ends: at the flag of the channel resolved to, which is `false` where
    /// the API left it out, at `None` where there is no such channel in this
    /// guild, or at the failure.
    pub open spec fn nsfw_step(
        self,
        guild_id: u64,
        channel_id: u64,
        reply: Option<ChannelReply>,
    ) -> Step<Option<bool>> {
        match reply {
            None => match self.nsfw_lookup(guild_id, channel_id) {
                NsfwLookup::NoGuild => Step::Done(Ok(None)),
                NsfwLookup::Known(nsfw) => Step::Done(Ok(Some(nsfw))),
                NsfwLookup::Unknown(holder) => Step::Fetch(Request::Channel(holder)),
            },
            Some(r) => match resolved_channel(r) {
                Step::Fetch(request) => Step::Fetch(request),
                Step::Done(Err(error)) => Step::Done(Err(error)),
                Step::Done(Ok(_)) => match CacheView::resolved_for(guild_id, r) {
                    Some(channel) => Step::Done(
                        Ok(
                            Some(
                                match channel.nsfw {
                                    Some(nsfw) => nsfw,
                                    None => false,
                                },
                            ),
                        ),
                    ),
                    None => Step::Done(Ok(None)),
                },
            },
        }
    }
}

impl Cache {
    /// Takes one reply of a resolution for guild `guild_id`, and merges the
    /// channel resolved to into the guild.
    fn resolve(&mut self, guild_id: u64, reply: ChannelReply) -> (step: Step<Option<Channel>>)
        requires
            reply.well_formed(),
        ensures
            final(self)@ == old(self)@.after_resolution(guild_id, Some(reply)),
            step == (match resolved_channel(reply) {
                Step::Done(Ok(_)) => Step::Done(Ok(CacheView::resolved_for(guild_id, reply))),
                other => other,
            }),
    {
        match fetch_channel_or_thread_parent(reply) {
            Step::Done(Ok(Some(channel))) => {
                let same_guild = match channel.guild_id {
                    Some(id) => id == guild_id,
                    None => false,
                };
                if same_guild {
                    self.merge_channel(guild_id, &channel);
                    Step::Done(Ok(Some(channel)))
                } else {
                    Step::Done(Ok(None))
                }
            },
            other => other,
        }
    }

    /// Finds the channel that stands for `channel_id` in guild `guild_id`: the
    /// channel itself, or for a thread its parent.
    ///
    /// Called without a reply, and again with the reply to each fetch it asks
    /// for; see `CacheView::parent_step`.
    pub fn fog_parent_channel_id(
        &mut self,
        guild_id: u64,
        channel_id: u64,
        reply: Option<ChannelReply>,
    ) -> (step: Step<Option<u64>>)
        requires
            reply matches Some(r) ==> r.well_formed(),
        ensures
            step == old(self)@.parent_step(guild_id, channel_id, reply),
            final(self)@ == old(self)@.after_resolution(guild_id, reply),
    {
        match reply {
            None => {
                let cached = match self.guild(guild_id) {
                    Some(guild) => {
                        if guild.channels.contains_key(&channel_id) {
                            Some(channel_id)
                        } else {
                            match guild.active_thread_parents.get(&channel_id) {
                                Some(parent_id) => Some(*parent_id),
                                None => None,
                            }
                        }
                    },
                    None => None,
                };
                match cached {
                    Some(parent_id) => Step::Done(Ok(Some(parent_id))),
                    None => Step::Fetch(Request::Channel(channel_id)),
                }
            },
            Some(r) => match self.resolve(guild_id, r) {
                Step::Fetch(request) => Step::Fetch(request),
                Step::Done(Err(error)) => Step::Done(Err(error)),
                Step::Done(Ok(Some(channel))) => Step::Done(Ok(Some(channel.id))),
                Step::Done(Ok(None)) => Step::Done(Ok(None)),
            },
        }
    }

    /// Decides whether channel `channel_id` belongs to guild `guild_id`; see
    /// `CacheView::membership_step`.
    pub fn guild_has_channel(
        &mut self,
        guild_id: u64,
        channel_id: u64,
        reply: Option<ChannelReply>,
    ) -> (step: Step<bool>)
        requires
            reply matches Some(r) ==> r.well_formed(),
        ensures
            step == old(self)@.membership_step(guild_id, channel_id, reply),
            final(self)@ == old(self)@.after_resolution(guild_id, reply),
    {
        match self.fog_parent_channel_id(guild_id, channel_id, reply) {
            Step::Fetch(request) => Step::Fetch(request),
            Step::Done(Err(error)) => Step::Done(Err(error)),
            Step::Done(Ok(None)) => Step::Done(Ok(false)),
            Step::Done(Ok(Some(parent_id))) => {
                let has = match self.guild(guild_id) {
                    Some(guild) => guild.channels.contains_key(&parent_id),
                    None => false,
                };
                Step::Done(Ok(has))
            },
        }
    }

    /// Decides whether channel `channel_id` of guild `guild_id` is
    /// age-restricted; see `CacheView::nsfw_step`.
    pub fn fog_channel_nsfw(
        &mut self,
        guild_id: u64,
        channel_id: u64,
        reply: Option<ChannelReply>,
    ) -> (step: Step<Option<bool>>)
        requires
            reply matches Some(r) ==> r.well_formed(),
        ensures
            step == old(self)@.nsfw_step(guild_id, channel_id, reply),
            final(self)@ == old(self)@.after_resolution(guild_id, reply),
    {
        match reply {
            None => {
                let lookup = match self.guild(guild_id) {
                    None => NsfwLookup::NoGuild,
                    Some(guild) => {
                        let holder = match guild.active_thread_parents.get(&channel_id) {
                            Some(parent_id) => *parent_id,
                            None => channel_id,
                        };
                        let known = match guild.channels.get(&holder) {
                            Some(channel) => channel.is_nsfw,
                            None => None,
                        };
                        match known {
                            Some(nsfw) => NsfwLookup::Known(nsfw),
                            None => NsfwLookup::Unknown(holder),
                        }
                    },
                };
                match lookup {
                    NsfwLookup::NoGuild => Step::Done(Ok(None)),
                    NsfwLookup::Known(nsfw) => Step::Done(Ok(Some(nsfw))),
                    NsfwLookup::Unknown(holder) => Step::Fetch(Request::Channel(holder)),
                }
            },
            Some(r) => match self.resolve(guild_id, r) {
                Step::Fetch(request) => Step::Fetch(request),
                Step::Done(Err(error)) => Step::Done(Err(error)),
                Step::Done(Ok(Some(channel))) => Step::Done(
                    Ok(Some(channel.nsfw.unwrap_or(false))),
                ),
                Step::Done(Ok(None)) => Step::Done(Ok(None)),
            },
        }
    }
}

} // verus!
