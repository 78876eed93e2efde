//! The ancestry of a channel: the channel itself, then the channel it lives
//! under, and so on up to one that lives under none.
//!
//! Each link is taken from the guild aggregate where it knows the channel,
//! and from a fetch of the channel where it does not. A channel is never
//! listed twice: where a link leads back into the list, the walk ends.

use crate::cache::{Cache, CacheView};
use crate::model::{CachedGuild, Channel, GuildView};
use crate::remote::{FetchError, Fetched, Request};
use vstd::prelude::*;

verus! {

broadcast use vstd::std_specs::hash::group_hash_axioms;

/// What a guild knows of the channel above a given one.
#[derive(Clone, Copy, Debug, PartialEq, Eq, Structural)]
pub enum Link {
    /// The channel lives under this one.
    Parent(u64),
    /// The channel lives under none.
    Top,
    /// The guild does not know the channel.
    Unknown,
}

/// Where a walk stands.
pub enum Trail {
    /// The walk is over, and this is the ancestry.
    Complete(Seq<u64>),
    /// The walk has come this far. The guild does not know the last channel
    /// listed, which has to be fetched.
    Pending(Seq<u64>),
}

/// Where a walk stands, as `qualified_channel_ids` returns it.
#[derive(Debug, PartialEq, Eq)]
pub enum Walk {
    /// The walk is over, and this is the ancestry.
    Done(Vec<u64>),
    /// The walk has come as far as `visited`, whose last channel has to be
    /// fetched: `request` asks for it. The reply goes to the next call
    /// together with `visited`.
    Fetch { request: Request, visited: Vec<u64> },
}

impl View for Walk {
    type V = Trail;

    open spec fn view(&self) -> Trail {
        match *self {
            Walk::Done(chain) => Trail::Complete(chain@),
            Walk::Fetch { request, visited } => Trail::Pending(visited@),
        }
    }
}

impl GuildView {
    /// The link above `channel_id`: for a thread in the index, its indexed
    /// parent; for a channel of the guild, its recorded parent.
    pub open spec fn link(self, channel_id: u64) -> Link {
        if self.active_thread_parents.contains_key(channel_id) {
            Link::Parent(self.active_thread_parents[channel_id])
        } else if self.channels.contains_key(channel_id) {
            match self.channels[channel_id].parent_id {
                Some(parent_id) => Link::Parent(parent_id),
                None => Link::Top,
            }
        } else {
            Link::Unknown
        }
    }

    /// The channels the guild knows a link of.
    pub open spec fn known_ids(self) -> Set<u64> {
        self.active_thread_parents.dom().union(self.channels.dom())
    }

    /// The known channels that a walk has not visited yet.
    pub open spec fn unvisited(self, visited: Seq<u64>) -> Set<u64> {
        self.known_ids().filter(|id: u64| !visited.contains(id))
    }

    /// The walk from `cursor` upwards through what the guild knows, after
    /// `visited`: it lists `cursor` and follows its link, until it meets a
    /// channel that lives under none or that is listed already, where it is
    /// complete, or one that the guild does not know, where it is pending.
    pub open spec fn trail(self, cursor: u64, visited: Seq<u64>) -> Trail
        decreases self.unvisited(visited).len(),
        when self.finite()
    {
        if visited.contains(cursor) {
            Trail::Complete(visited)
        } else {
            match self.link(cursor) {
                Link::Parent(parent_id) => {
                    proof {
                        self.lemma_visit(cursor, visited);
                    }
                    self.trail(parent_id, visited.push(cursor))
                },
                Link::Top => Trail::Complete(visited.push(cursor)),
                Link::Unknown => Trail::Pending(visited.push(cursor)),
            }
        }
    }

    /// Visiting a known channel for the first time leaves fewer to visit.
    pub proof fn lemma_visit(self, cursor: u64, visited: Seq<u64>)
        requires
            self.finite(),
            self.known_ids().contains(cursor),
            !visited.contains(cursor),
        ensures
            self.unvisited(visited).finite(),
            self.unvisited(visited.push(cursor)).len() < self.unvisited(visited).len(),
    {
        let before = self.unvisited(visited);
        let after = self.unvisited(visited.push(cursor));
        vstd::set_lib::lemma_set_union_finite_iff(
            self.active_thread_parents.dom(),
            self.channels.dom(),
        );
        self.known_ids().lemma_len_filter(|id: u64| !visited.contains(id));
        assert(before.finite());
        assert(before.contains(cursor));
        assert forall|id: u64| after.contains(id) <==> before.remove(cursor).contains(id) by {
            if visited.contains(id) {
                let i = choose|i: int| 0 <= i < visited.len() && visited[i] == id;
                assert(visited.push(cursor)[i] == id);
            }
            if visited.push(cursor).contains(id) && id != cursor {
                let i = choose|i: int|
                    0 <= i < visited.push(cursor).len() && visited.push(cursor)[i] == id;
                assert(visited[i] == id);
            }
            assert(visited.push(cursor)[visited.len() as int] == cursor);
        }
        assert(after =~= before.remove(cursor));
    }
}

impl CacheView {
    /// One step of the walk up from a channel of guild `guild_id`.
    ///
    /// Without a reply the walk starts at `channel_id`, after `visited`.
    /// With a reply, which is that to the fetch of the last channel of
    /// `visited`, it goes on above that channel: at the parent that the
    /// fetched channel names, and nowhere where it names none or the API
    /// knows no such channel (404). A guild that is not cached knows no
    /// channel. Any other failure ends the walk.
    pub open spec fn ancestry_step(
        self,
        guild_id: u64,
        channel_id: u64,
        visited: Seq<u64>,
        reply: Option<Fetched<Channel>>,
    ) -> Result<Trail, FetchError> {
        let guild = match self.guild(guild_id) {
            Some(guild) => guild,
            None => GuildView::empty(),
        };
        match reply {
            None => Ok(guild.trail(channel_id, visited)),
            Some(Fetched::Found(channel)) => match channel.parent_id {
                Some(parent_id) => Ok(guild.trail(parent_id, visited)),
                None => Ok(Trail::Complete(visited)),
            },
            Some(Fetched::Failed(error)) => if error.is_not_found() {
                Ok(Trail::Complete(visited))
            } else {
                Err(error)
            },
        }
    }
}

/// Whether `chain` lists `id`.
fn lists(chain: &Vec<u64>, id: u64) -> (found: bool)
    ensures
        found == chain@.contains(id),
{
    let mut i: usize = 0;
    while i < chain.len()
        invariant
            i <= chain.len(),
            forall|j: int| 0 <= j < i ==> chain@[j] != id,
        decreases chain.len() - i,
    {
        if chain[i] == id {
            return true;
        }
        i += 1;
    }
    false
}

impl CachedGuild {
    /// The link above `channel_id`.
    pub fn link(&self, channel_id: u64) -> (link: Link)
        ensures
            link == self@.link(channel_id),
    {
        match self.active_thread_parents.get(&channel_id) {
            Some(parent_id) => Link::Parent(*parent_id),
            None => match self.channels.get(&channel_id) {
                Some(channel) => match channel.parent_id {
                    Some(parent_id) => Link::Parent(parent_id),
                    None => Link::Top,
                },
                None => Link::Unknown,
            },
        }
    }

    /// Walks up from `cursor` through what the guild knows, after `visited`.
    pub fn walk(&self, cursor: u64, visited: Vec<u64>) -> (walk: Walk)
        ensures
            walk@ == self@.trail(cursor, visited@),
            walk matches Walk::Fetch { request, visited: so_far } ==> so_far@.len() > 0 && request
                == Request::Channel(so_far@.last()),
    {
        let mut current = cursor;
        let mut chain = visited;
        proof {
            self.lemma_finite();
        }
        loop
            invariant
                self@.finite(),
                self@.trail(current, chain@) == self@.trail(cursor, visited@),
            decreases self@.unvisited(chain@).len(),
        {
            if lists(&chain, current) {
                return Walk::Done(chain);
            }
            let link = self.link(current);
            proof {
                if link is Parent {
                    self@.lemma_visit(current, chain@);
                }
            }
            chain.push(current);
            match link {
                Link::Parent(parent_id) => {
                    current = parent_id;
                },
                Link::Top => {
                    return Walk::Done(chain);
                },
                Link::Unknown => {
                    return Walk::Fetch { request: Request::Channel(current), visited: chain };
                },
            }
        }
    }
}

impl Cache {
    /// Lists channel `channel_id` of guild `guild_id` and the channels above
    /// it, nearest first.
    ///
    /// Called with the channel and an empty `visited`, and no reply. Where
    /// it returns `Walk::Fetch`, it is called again with what was visited and
    /// the reply to that fetch. See `CacheView::ancestry_step`.
    pub fn qualified_channel_ids(
        &self,
        guild_id: u64,
        channel_id: u64,
        visited: Vec<u64>,
        reply: Option<Fetched<Channel>>,
    ) -> (result: Result<Walk, FetchError>)
        ensures
            match result {
                Ok(walk) => self@.ancestry_step(guild_id, channel_id, visited@, reply) == Ok::<
                    Trail,
                    FetchError,
                >(walk@),
                Err(error) => self@.ancestry_step(guild_id, channel_id, visited@, reply) == Err::<
                    Trail,
                    FetchError,
                >(error),
            },
            result matches Ok(Walk::Fetch { request, visited: so_far }) ==> so_far@.len() > 0
                && request == Request::Channel(so_far@.last()),
    {
        let guild = match self.guild(guild_id) {
            Some(guild) => guild,
            None => CachedGuild::new(),
        };
        match reply {
            None => Ok(guild.walk(channel_id, visited)),
            Some(Fetched::Found(channel)) => match channel.parent_id {
                Some(parent_id) => Ok(guild.walk(parent_id, visited)),
                None => Ok(Walk::Done(visited)),
            },
            Some(Fetched::Failed(error)) => {
                if error.is_not_found() {
                    Ok(Walk::Done(visited))
                } else {
                    Err(error)
                }
            },
        }
    }
}

} // verus!
