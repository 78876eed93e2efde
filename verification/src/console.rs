//! What the web console decides: which guilds a signed-in user may manage,
//! whether a session is the one that was signed in, and the tabs of a
//! starboard's page.

use std::collections::HashMap;
use std::sync::Arc;
use vstd::prelude::*;

verus! {

broadcast use vstd::std_specs::hash::group_hash_axioms;

/// The id of a starboard.
#[derive(Clone, Copy, Debug, PartialEq, Eq, Structural)]
pub struct StarboardId(pub i32);

/// The tabs of a starboard's page.
#[derive(Clone, Copy, Debug, PartialEq, Eq, Structural)]
pub enum Tab {
    Behavior,
    Regex,
    Requirements,
    Style,
}

impl Tab {
    /// The title of the tab.
    pub open spec fn title(self) -> Seq<char> {
        match self {
            Tab::Behavior => "Behavior"@,
            Tab::Regex => "Regex"@,
            Tab::Requirements => "Requirements"@,
            Tab::Style => "Style"@,
        }
    }

    /// The title of the tab.
    pub fn as_str(&self) -> (title: &'static str)
        ensures
            title@ == self.title(),
    {
        match self {
            Tab::Behavior => "Behavior",
            Tab::Regex => "Regex",
            Tab::Requirements => "Requirements",
            Tab::Style => "Style",
        }
    }
}

/// Whether the nonce that a session token claims is the one that was stored
/// when the user signed in. Two absent nonces are the same.
pub open spec fn same_nonce(claimed: Option<String>, stored: Option<String>) -> bool {
    match (claimed, stored) {
        (Some(a), Some(b)) => a@ == b@,
        (None, None) => true,
        _ => false,
    }
}

/// Whether a session token belongs to the session that is stored: it does
/// where its nonce is the stored one.
pub fn is_same_session(claimed: &Option<String>, stored: &Option<String>) -> (same: bool)
    ensures
        same == same_nonce(*claimed, *stored),
{
    match (claimed, stored) {
        (Some(a), Some(b)) => *a == *b,
        (None, None) => true,
        _ => false,
    }
}

/// The permission that lets a user manage a guild.
pub const ADMINISTRATOR: u64 = 0x8;

/// A guild as the remote API lists it for the signed-in user, with the
/// user's permissions in it as a set of bits.
#[derive(Clone, Debug, PartialEq, Eq)]
pub struct UserGuild {
    pub id: u64,
    pub name: String,
    pub permissions: u64,
}

impl UserGuild {
    /// Whether the user may manage the guild: the administrator bit is set.
    pub open spec fn spec_is_manageable(&self) -> bool {
        self.permissions & ADMINISTRATOR == ADMINISTRATOR
    }

    #[verifier::when_used_as_spec(spec_is_manageable)]
    pub fn is_manageable(&self) -> (manageable: bool)
        ensures
            manageable == self.spec_is_manageable(),
    {
        self.permissions & ADMINISTRATOR == ADMINISTRATOR
    }
}

/// The guilds among `listed` that the user may manage, by id. Where an id is
/// listed twice, the later guild stands.
pub open spec fn manageable(listed: Seq<UserGuild>) -> Map<u64, UserGuild>
    decreases listed.len(),
{
    if listed.len() == 0 {
        Map::empty()
    } else {
        let before = manageable(listed.drop_last());
        if listed.last().is_manageable() {
            before.insert(listed.last().id, listed.last())
        } else {
            before
        }
    }
}

/// Picks the guilds that the user may manage: see `manageable`.
pub fn manageable_guilds(listed: Vec<UserGuild>) -> (guilds: HashMap<u64, UserGuild>)
    ensures
        guilds@ == manageable(listed@),
{
    let mut left = listed;
    let mut turned: Vec<UserGuild> = Vec::new();
    while left.len() > 0
        invariant
            left@.len() + turned@.len() == listed@.len(),
            left@ =~= listed@.take(left@.len() as int),
            forall|i: int|
                0 <= i < turned@.len() ==> turned@[i] == listed@[listed@.len() - 1 - i],
        decreases left@.len(),
    {
        let guild = left.pop().unwrap();
        turned.push(guild);
    }
    let mut guilds: HashMap<u64, UserGuild> = HashMap::new();
    proof {
        assert(listed@.take(0) =~= Seq::empty());
    }
    while turned.len() > 0
        invariant
            turned@.len() <= listed@.len(),
            forall|i: int|
                0 <= i < turned@.len() ==> turned@[i] == listed@[listed@.len() - 1 - i],
            guilds@ == manageable(listed@.take(listed@.len() - turned@.len())),
        decreases turned@.len(),
    {
        let ghost done = listed@.len() - turned@.len();
        let guild = turned.pop().unwrap();
        proof {
            assert(guild == listed@[done]);
            assert(listed@.take(done + 1).drop_last() =~= listed@.take(done));
            assert(listed@.take(done + 1).last() == guild);
        }
        if guild.is_manageable() {
            guilds.insert(guild.id, guild);
        }
    }
    proof {
        assert(listed@.take(listed@.len() as int) =~= listed@);
    }
    guilds
}

/// `Arc::clone`: another handle to the same value.
#[verifier::external_body]
fn share<T>(value: &Arc<T>) -> (shared: Arc<T>)
    ensures
        shared == *value,
{
    Arc::clone(value)
}

/// How one step of getting the manageable guilds ends.
#[derive(Debug)]
pub enum Listing {
    /// With the guilds, or with `None` where the remote API failed to list
    /// them.
    Ready(Option<Arc<HashMap<u64, UserGuild>>>),
    /// With the need to have the guilds of the user listed by the remote API.
    Fetch,
}

/// The guilds that a signed-in user may manage, found out once and kept.
pub struct ManageableGuilds {
    slot: Option<Arc<HashMap<u64, UserGuild>>>,
}

impl View for ManageableGuilds {
    type V = Option<Map<u64, UserGuild>>;

    closed spec fn view(&self) -> Option<Map<u64, UserGuild>> {
        match self.slot {
            Some(guilds) => Some(guilds@),
            None => None,
        }
    }
}

/// What is kept after one step: guilds that are kept stay; else those that
/// the reply lists are kept, and a failure keeps nothing.
pub open spec fn kept_after(
    kept: Option<Map<u64, UserGuild>>,
    reply: Option<Option<Vec<UserGuild>>>,
) -> Option<Map<u64, UserGuild>> {
    match (kept, reply) {
        (None, Some(Some(listed))) => Some(manageable(listed@)),
        _ => kept,
    }
}

impl ManageableGuilds {
    /// Nothing is kept yet.
    pub fn new() -> (guilds: ManageableGuilds)
        ensures
            guilds@ is None,
    {
        ManageableGuilds { slot: None }
    }
}

/// Gets the guilds that the user may manage.
///
/// Without a reply this answers with the guilds that are kept, or asks for
/// the user's guilds to be listed. With the reply it keeps the manageable
/// ones among the guilds listed and answers with them, unless guilds are
/// kept by now, which then are the answer. A reply of `None`, for a listing
/// that failed, is answered with `None` and keeps nothing.
pub fn get_manageable_guilds(
    guilds: &mut ManageableGuilds,
    reply: Option<Option<Vec<UserGuild>>>,
) -> (step: Listing)
    ensures
        final(guilds)@ == kept_after(old(guilds)@, reply),
        match step {
            Listing::Ready(Some(kept)) => final(guilds)@ == Some(kept@),
            Listing::Ready(None) => old(guilds)@ is None && reply == Some(None::<Vec<UserGuild>>),
            Listing::Fetch => old(guilds)@ is None && reply is None,
        },
{
    match &guilds.slot {
        Some(kept) => {
            return Listing::Ready(Some(share(kept)));
        },
        None => {},
    }
    match reply {
        None => Listing::Fetch,
        Some(None) => Listing::Ready(None),
        Some(Some(listed)) => {
            let kept = Arc::new(manageable_guilds(listed));
            let answer = share(&kept);
            guilds.slot = Some(kept);
            Listing::Ready(Some(answer))
        },
    }
}

} // verus!
