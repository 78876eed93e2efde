//! Fetch or get: users, members, webhooks and messages are answered from the
//! cache where it holds them, and fetched, then cached, where it does not.
//!
//! Each operation is one step function. Called without a reply it looks the
//! key up and either answers or names the fetch it needs; called with the
//! reply to that fetch it caches what the reply says and answers.

use crate::cache::{Cache, CacheView};
use crate::model::{
    cached_member, cached_message, cached_user, CachedMember, CachedMessage, CachedUser, Member,
    Message, User, Webhook,
};
use crate::remote::{FetchError, Fetched, Request, Step};
use std::sync::Arc;
use vstd::prelude::*;

verus! {

/// The result of getting a message: the message, the knowledge that there is
/// none, or the knowledge that it may not be read.
#[derive(Clone, Debug, PartialEq, Eq)]
pub enum MessageResult {
    Found(Arc<CachedMessage>),
    Missing,
    Forbidden,
}

/// The result that an entry of the message cache stands for.
pub open spec fn message_result(entry: Option<Arc<CachedMessage>>) -> MessageResult {
    match entry {
        Some(message) => MessageResult::Found(message),
        None => MessageResult::Missing,
    }
}

impl MessageResult {
    /// The message, if there is one.
    pub fn into_option(self) -> (message: Option<Arc<CachedMessage>>)
        ensures
            message == (match self {
                MessageResult::Found(m) => Some(m),
                _ => None,
            }),
    {
        match self {
            MessageResult::Found(message) => Some(message),
            _ => None,
        }
    }

    /// The message, if there is one, without giving up the result.
    pub fn as_option(&self) -> (message: Option<&Arc<CachedMessage>>)
        ensures
            message == (match *self {
                MessageResult::Found(m) => Some(&m),
                _ => None,
            }),
    {
        match self {
            MessageResult::Found(message) => Some(message),
            _ => None,
        }
    }

    /// Whether the message is known not to exist.
    pub fn is_missing(&self) -> (missing: bool)
        ensures
            missing == (*self is Missing),
    {
        match self {
            MessageResult::Missing => true,
            _ => false,
        }
    }
}

impl From<Option<Arc<CachedMessage>>> for MessageResult {
    fn from(value: Option<Arc<CachedMessage>>) -> (result: MessageResult) {
        match value {
            None => MessageResult::Missing,
            Some(message) => MessageResult::Found(message),
        }
    }
}

impl vstd::std_specs::convert::FromSpecImpl<Option<Arc<CachedMessage>>> for MessageResult {
    open spec fn obeys_from_spec() -> bool {
        true
    }

    open spec fn from_spec(value: Option<Arc<CachedMessage>>) -> MessageResult {
        message_result(value)
    }
}

/// What a lookup in a cache leads to: the entry it found is the answer, and
/// where it found none, `request` has to be made.
pub open spec fn answer_or_fetch<T>(found: Option<T>, request: Request) -> Step<T> {
    match found {
        Some(entry) => Step::Done(Ok(entry)),
        None => Step::Fetch(request),
    }
}

/// Whether `step` is a way for the lookup of `key` to end in a cache whose
/// entries expire: with the entry last written under `key`, or, since that
/// may be gone, with the fetch `request`.
pub open spec fn looked_up<K, T>(
    entries: Map<K, T>,
    key: K,
    request: Request,
    step: Step<T>,
) -> bool {
    step == Step::<T>::Fetch(request) || (entries.contains_key(key) && step == Step::Done(
        Ok(entries[key]),
    ))
}

/// Whether `step` is a way for the lookup of message `message_id` of channel
/// `channel_id` to end: see `looked_up`.
pub open spec fn message_looked_up(
    entries: Map<u64, Option<Arc<CachedMessage>>>,
    channel_id: u64,
    message_id: u64,
    step: Step<MessageResult>,
) -> bool {
    step == Step::<MessageResult>::Fetch(Request::Message { channel_id, message_id }) || (
    entries.contains_key(message_id) && step == Step::Done(
        Ok(message_result(entries[message_id])),
    ))
}

/// Turns what a lookup found into a step: see `answer_or_fetch`.
pub fn after_lookup<T>(found: Option<T>, request: Request) -> (step: Step<T>)
    ensures
        step == answer_or_fetch(found, request),
{
    match found {
        Some(entry) => Step::Done(Ok(entry)),
        None => Step::Fetch(request),
    }
}

/// What the reply to the fetch of a user amounts to: the user, the knowledge
/// that there is none (the API answered 404), or the failure.
pub open spec fn user_answer(reply: Fetched<User>) -> Result<Option<Arc<CachedUser>>, FetchError> {
    match reply {
        Fetched::Found(user) => Ok(Some(Arc::new(cached_user(user)))),
        Fetched::Failed(error) => if error.is_not_found() {
            Ok(None)
        } else {
            Err(error)
        },
    }
}

/// What the reply to the fetch of a member amounts to. A member that may not
/// be read (403) counts as none, like one that does not exist (404).
pub open spec fn member_answer(reply: Fetched<Member>) -> Result<
    Option<Arc<CachedMember>>,
    FetchError,
> {
    match reply {
        Fetched::Found(member) => Ok(Some(Arc::new(cached_member(member)))),
        Fetched::Failed(error) => if error.is_not_found() || error.is_forbidden() {
            Ok(None)
        } else {
            Err(error)
        },
    }
}

/// What the reply to the fetch of a webhook amounts to.
pub open spec fn webhook_answer(reply: Fetched<Webhook>) -> Result<
    Option<Arc<Webhook>>,
    FetchError,
> {
    match reply {
        Fetched::Found(webhook) => Ok(Some(Arc::new(webhook))),
        Fetched::Failed(error) => if error.is_not_found() {
            Ok(None)
        } else {
            Err(error)
        },
    }
}

/// What the reply to the fetch of a message amounts to. Unlike a member, a
/// message that may not be read (403) is told apart from one that does not
/// exist (404).
pub open spec fn message_answer(reply: Fetched<Message>) -> Result<MessageResult, FetchError> {
    match reply {
        Fetched::Found(message) => Ok(MessageResult::Found(Arc::new(cached_message(message)))),
        Fetched::Failed(error) => if error.is_not_found() {
            Ok(MessageResult::Missing)
        } else if error.is_forbidden() {
            Ok(MessageResult::Forbidden)
        } else {
            Err(error)
        },
    }
}

impl CacheView {
    /// The cache after the reply to the fetch of user `user_id` was taken in:
    /// the user, or the knowledge that there is none, is written under
    /// `user_id`; a failure changes nothing.
    pub open spec fn after_user(self, user_id: u64, reply: Fetched<User>) -> CacheView {
        match user_answer(reply) {
            Ok(entry) => self.with_user(user_id, entry),
            Err(_) => self,
        }
    }

    /// The cache after the reply to the fetch of a member was taken in. A
    /// member that was found brings its user along, who is written to the
    /// user cache under the user's own id.
    pub open spec fn after_member(
        self,
        guild_id: u64,
        user_id: u64,
        reply: Fetched<Member>,
    ) -> CacheView {
        match reply {
            Fetched::Found(member) => self.with_user(
                member.user.id,
                Some(Arc::new(cached_user(member.user))),
            ).with_member(guild_id, user_id, Some(Arc::new(cached_member(member)))),
            Fetched::Failed(error) => if error.is_not_found() || error.is_forbidden() {
                self.with_member(guild_id, user_id, None)
            } else {
                self
            },
        }
    }

    /// How the lookup of webhook `webhook_id` ends: with the stored webhook
    /// where there is one and the cache is allowed to answer, and else with
    /// the fetch of the webhook.
    pub open spec fn webhook_lookup(self, webhook_id: u64, allow_cache: bool) -> Step<
        Option<Arc<Webhook>>,
    > {
        if allow_cache && self.webhooks.contains_key(webhook_id) {
            Step::Done(Ok(Some(self.webhooks[webhook_id])))
        } else {
            Step::Fetch(Request::Webhook(webhook_id))
        }
    }

    /// The cache after the reply to the fetch of webhook `webhook_id` was
    /// taken in: a webhook that was found is stored, one that does not exist
    /// is removed; any other failure changes nothing.
    pub open spec fn after_webhook(self, webhook_id: u64, reply: Fetched<Webhook>) -> CacheView {
        match webhook_answer(reply) {
            Ok(Some(webhook)) => self.with_webhook(webhook_id, webhook),
            Ok(None) => self.without_webhook(webhook_id),
            Err(_) => self,
        }
    }

    /// The cache after the reply to the fetch of message `message_id` was
    /// taken in. A message that was found brings its effective author along,
    /// who is written to the user cache. A message that may not be read
    /// changes nothing, like any other failure but 404.
    pub open spec fn after_message(self, message_id: u64, reply: Fetched<Message>) -> CacheView {
        match reply {
            Fetched::Found(message) => self.with_user(
                message.effective_author().id,
                Some(Arc::new(cached_user(message.effective_author()))),
            ).with_message(message_id, Some(Arc::new(cached_message(message)))),
            Fetched::Failed(error) => if error.is_not_found() {
                self.with_message(message_id, None)
            } else {
                self
            },
        }
    }
}

impl Cache {
    /// Gets user `user_id`.
    ///
    /// Without a reply this looks the user up: it answers with the entry of
    /// the user cache, or asks for the user to be fetched; which of the two is
    /// up to the user cache, whose entries expire. With the reply to that
    /// fetch it writes what the reply says to the user cache and answers.
    pub fn fog_user(&mut self, user_id: u64, reply: Option<Fetched<User>>) -> (step: Step<
        Option<Arc<CachedUser>>,
    >)
        ensures
            reply matches Some(r) ==> step == Step::Done(user_answer(r)) && final(self)@ == old(
                self,
            )@.after_user(user_id, r),
            reply is None ==> final(self)@ == old(self)@,
            reply is None ==> looked_up(old(self)@.users, user_id, Request::User(user_id), step),
    {
        match reply {
            None => after_lookup(self.user_entry(user_id), Request::User(user_id)),
            Some(Fetched::Found(user)) => {
                let entry = Some(Arc::new(CachedUser::from_user(&user)));
                self.store_user(user_id, &entry);
                Step::Done(Ok(entry))
            },
            Some(Fetched::Failed(error)) => {
                if error.is_not_found() {
                    self.store_user(user_id, &None);
                    Step::Done(Ok(None))
                } else {
                    Step::Done(Err(error))
                }
            },
        }
    }

    /// Gets the member of guild `guild_id` that is user `user_id`; see
    /// `fog_user`. A member that was fetched has its user written to the user
    /// cache too.
    pub fn fog_member(
        &mut self,
        guild_id: u64,
        user_id: u64,
        reply: Option<Fetched<Member>>,
    ) -> (step: Step<Option<Arc<CachedMember>>>)
        ensures
            reply matches Some(r) ==> step == Step::Done(member_answer(r)) && final(self)@ == old(
                self,
            )@.after_member(guild_id, user_id, r),
            reply is None ==> final(self)@ == old(self)@,
            reply is None ==> looked_up(
                old(self)@.members,
                (guild_id, user_id),
                Request::Member { guild_id, user_id },
                step,
            ),
    {
        match reply {
            None => after_lookup(
                self.member_entry(guild_id, user_id),
                Request::Member { guild_id, user_id },
            ),
            Some(Fetched::Found(member)) => {
                let user = Some(Arc::new(CachedUser::from_user(&member.user)));
                self.store_user(member.user.id, &user);
                let entry = Some(Arc::new(CachedMember::from_member(member)));
                self.store_member(guild_id, user_id, &entry);
                Step::Done(Ok(entry))
            },
            Some(Fetched::Failed(error)) => {
                if error.is_not_found() || error.is_forbidden() {
                    self.store_member(guild_id, user_id, &None);
                    Step::Done(Ok(None))
                } else {
                    Step::Done(Err(error))
                }
            },
        }
    }

    /// Gets webhook `webhook_id`.
    ///
    /// Without a reply this answers with the stored webhook where there is
    /// one and `allow_cache` is set, and asks for the webhook to be fetched
    /// otherwise. With the reply to that fetch it stores the webhook, or
    /// removes the stored one where the API knows none, and answers.
    pub fn fog_webhook(
        &mut self,
        webhook_id: u64,
        allow_cache: bool,
        reply: Option<Fetched<Webhook>>,
    ) -> (step: Step<Option<Arc<Webhook>>>)
        ensures
            reply matches Some(r) ==> step == Step::Done(webhook_answer(r)) && final(self)@ == old(
                self,
            )@.after_webhook(webhook_id, r),
            reply is None ==> final(self)@ == old(self)@,
            reply is None ==> step == old(self)@.webhook_lookup(webhook_id, allow_cache),
    {
        match reply {
            None => {
                if allow_cache {
                    let cached = self.webhook(webhook_id);
                    if cached.is_some() {
                        return Step::Done(Ok(cached));
                    }
                }
                Step::Fetch(Request::Webhook(webhook_id))
            },
            Some(Fetched::Found(webhook)) => {
                let webhook = Arc::new(webhook);
                self.insert_webhook(webhook_id, &webhook);
                Step::Done(Ok(Some(webhook)))
            },
            Some(Fetched::Failed(error)) => {
                if error.is_not_found() {
                    self.remove_webhook(webhook_id);
                    Step::Done(Ok(None))
                } else {
                    Step::Done(Err(error))
                }
            },
        }
    }

    /// Gets message `message_id` of channel `channel_id`; see `fog_user`.
    ///
    /// A message that was fetched is kept under its effective author, who is
    /// written to the user cache too. That a message may not be read is
    /// answered and never cached.
    pub fn fog_message(
        &mut self,
        channel_id: u64,
        message_id: u64,
        reply: Option<Fetched<Message>>,
    ) -> (step: Step<MessageResult>)
        ensures
            reply matches Some(r) ==> step == Step::Done(message_answer(r)) && final(self)@ == old(
                self,
            )@.after_message(message_id, r),
            reply is None ==> final(self)@ == old(self)@,
            reply is None ==> message_looked_up(old(self)@.messages, channel_id, message_id, step),
    {
        match reply {
            None => match self.message_entry(message_id) {
                Some(entry) => Step::Done(Ok(MessageResult::from(entry))),
                None => Step::Fetch(Request::Message { channel_id, message_id }),
            },
            Some(Fetched::Found(message)) => {
                let author = CachedUser::from_user(message.author());
                let author_id = author.id;
                self.store_user(author_id, &Some(Arc::new(author)));
                let entry = Some(Arc::new(CachedMessage::from_message(message)));
                self.store_message(message_id, &entry);
                Step::Done(Ok(MessageResult::from(entry)))
            },
            Some(Fetched::Failed(error)) => {
                if error.is_not_found() {
                    self.store_message(message_id, &None);
                    Step::Done(Ok(MessageResult::Missing))
                } else if error.is_forbidden() {
                    Step::Done(Ok(MessageResult::Forbidden))
                } else {
                    Step::Done(Err(error))
                }
            },
        }
    }
}

} // verus!
