use starboard::cache::Cache;
use starboard::fog::{after_lookup, MessageResult};
use starboard::model::{CachedMessage, CachedUser, Interaction, Message, User, Webhook};
use starboard::remote::{FetchError, Fetched, Request, Step};
use std::sync::Arc;

fn user(id: u64, name: &str) -> User {
    User { id, name: name.to_string(), bot: false }
}

fn cached_user(id: u64, name: &str) -> Option<Arc<CachedUser>> {
    Some(Arc::new(CachedUser { id, name: name.to_string(), is_bot: false }))
}

fn message(id: u64, author: User, interaction: Option<Interaction>) -> Message {
    Message { id, channel_id: 20, author, interaction, content: "hello".to_string() }
}

fn found(author_id: u64) -> MessageResult {
    MessageResult::Found(Arc::new(CachedMessage { author_id, content: "hello".to_string() }))
}

fn failed<T>(status: Option<u16>) -> Option<Fetched<T>> {
    Some(Fetched::Failed(FetchError { status }))
}

const FETCH: Step<MessageResult> = Step::Fetch(Request::Message { channel_id: 20, message_id: 30 });

#[test]
fn a_message_that_is_not_cached_is_fetched() {
    let mut cache = Cache::new();
    assert_eq!(cache.fog_message(20, 30, None), FETCH);
}

#[test]
fn a_fetched_message_is_cached_with_its_author() {
    let mut cache = Cache::new();
    let step = cache.fog_message(20, 30, Some(Fetched::Found(message(30, user(7, "ada"), None))));
    assert_eq!(step, Step::Done(Ok(found(7))));
    assert_eq!(cache.fog_message(20, 30, None), Step::Done(Ok(found(7))));
    assert_eq!(cache.fog_user(7, None), Step::Done(Ok(cached_user(7, "ada"))));
}

#[test]
fn the_author_of_an_answer_to_an_interaction_is_who_invoked_it() {
    let mut cache = Cache::new();
    let interaction = Interaction { id: 99, user: user(8, "grace") };
    let step = cache.fog_message(
        20,
        30,
        Some(Fetched::Found(message(30, user(7, "hook"), Some(interaction)))),
    );
    assert_eq!(step, Step::Done(Ok(found(8))));
    assert_eq!(cache.fog_message(20, 30, None), Step::Done(Ok(found(8))));
    assert_eq!(cache.fog_user(8, None), Step::Done(Ok(cached_user(8, "grace"))));
    assert_eq!(cache.fog_user(7, None), Step::Fetch(Request::User(7)));
    assert_eq!(cache.fog_user(99, None), Step::Fetch(Request::User(99)));
}

#[test]
fn a_message_that_does_not_exist_is_cached_as_missing() {
    let mut cache = Cache::new();
    assert_eq!(
        cache.fog_message(20, 30, failed(Some(404))),
        Step::Done(Ok(MessageResult::Missing))
    );
    assert_eq!(cache.fog_message(20, 30, None), Step::Done(Ok(MessageResult::Missing)));
}

#[test]
fn a_forbidden_message_is_never_cached() {
    let mut cache = Cache::new();
    assert_eq!(
        cache.fog_message(20, 30, failed(Some(403))),
        Step::Done(Ok(MessageResult::Forbidden))
    );
    assert_eq!(cache.fog_message(20, 30, None), FETCH);
    assert_eq!(cache.message_entry(30), None);
}

#[test]
fn a_forbidden_message_leaves_an_earlier_entry() {
    let mut cache = Cache::new();
    cache.fog_message(20, 30, Some(Fetched::Found(message(30, user(7, "ada"), None))));
    assert_eq!(
        cache.fog_message(20, 30, failed(Some(403))),
        Step::Done(Ok(MessageResult::Forbidden))
    );
    assert_eq!(cache.fog_message(20, 30, None), Step::Done(Ok(found(7))));
}

#[test]
fn a_failed_fetch_of_a_message_is_not_cached() {
    let mut cache = Cache::new();
    let error = FetchError { status: Some(429) };
    assert_eq!(cache.fog_message(20, 30, failed(Some(429))), Step::Done(Err(error)));
    assert_eq!(cache.fog_message(20, 30, None), FETCH);
    let error = FetchError { status: None };
    assert_eq!(cache.fog_message(20, 30, failed(None)), Step::Done(Err(error)));
    assert_eq!(cache.fog_message(20, 30, None), FETCH);
}

#[test]
fn store_message_writes_the_entry() {
    let mut cache = Cache::new();
    let entry = Some(Arc::new(CachedMessage { author_id: 1, content: "x".to_string() }));
    cache.store_message(30, &entry);
    assert_eq!(cache.message_entry(30), Some(entry));
    assert_eq!(cache.message_entry(31), None);
}

#[test]
fn the_record_of_a_message_has_its_effective_author() {
    let plain = message(1, user(7, "ada"), None);
    assert_eq!(plain.author(), &user(7, "ada"));
    assert_eq!(
        CachedMessage::from_message(plain),
        CachedMessage { author_id: 7, content: "hello".to_string() }
    );
    let answer = message(1, user(7, "hook"), Some(Interaction { id: 5, user: user(8, "grace") }));
    assert_eq!(answer.author(), &user(8, "grace"));
    assert_eq!(
        CachedMessage::from_message(answer),
        CachedMessage { author_id: 8, content: "hello".to_string() }
    );
}

#[test]
fn a_message_result_as_an_option() {
    let message = Arc::new(CachedMessage { author_id: 7, content: "hello".to_string() });
    let result = MessageResult::Found(message.clone());
    assert_eq!(result.as_option(), Some(&message));
    assert!(!result.is_missing());
    assert_eq!(result.into_option(), Some(message));
    assert_eq!(MessageResult::Missing.as_option(), None);
    assert_eq!(MessageResult::Missing.into_option(), None);
    assert!(MessageResult::Missing.is_missing());
    assert_eq!(MessageResult::Forbidden.as_option(), None);
    assert_eq!(MessageResult::Forbidden.into_option(), None);
    assert!(!MessageResult::Forbidden.is_missing());
}

#[test]
fn a_message_result_from_an_entry() {
    let message = Arc::new(CachedMessage { author_id: 7, content: "hello".to_string() });
    assert_eq!(MessageResult::from(Some(message.clone())), MessageResult::Found(message));
    assert_eq!(MessageResult::from(None), MessageResult::Missing);
}

#[test]
fn what_a_lookup_found_decides_the_step() {
    assert_eq!(after_lookup(Some(5u8), Request::User(1)), Step::Done(Ok(5u8)));
    assert_eq!(after_lookup(None::<u8>, Request::User(1)), Step::Fetch(Request::User(1)));
}

fn webhook(id: u64, name: &str) -> Webhook {
    Webhook { id, channel_id: 20, guild_id: Some(1), name: Some(name.to_string()), token: None }
}

#[test]
fn a_webhook_that_is_not_stored_is_fetched() {
    let mut cache = Cache::new();
    assert_eq!(cache.fog_webhook(40, true, None), Step::Fetch(Request::Webhook(40)));
    assert_eq!(cache.fog_webhook(40, false, None), Step::Fetch(Request::Webhook(40)));
}

#[test]
fn a_fetched_webhook_is_stored() {
    let mut cache = Cache::new();
    let step = cache.fog_webhook(40, true, Some(Fetched::Found(webhook(40, "star"))));
    assert_eq!(step, Step::Done(Ok(Some(Arc::new(webhook(40, "star"))))));
    assert_eq!(
        cache.fog_webhook(40, true, None),
        Step::Done(Ok(Some(Arc::new(webhook(40, "star")))))
    );
    assert_eq!(cache.webhook(40), Some(Arc::new(webhook(40, "star"))));
    assert_eq!(cache.webhook(41), None);
}

#[test]
fn a_stored_webhook_is_fetched_again_where_the_cache_may_not_answer() {
    let mut cache = Cache::new();
    cache.fog_webhook(40, false, Some(Fetched::Found(webhook(40, "star"))));
    assert_eq!(cache.fog_webhook(40, false, None), Step::Fetch(Request::Webhook(40)));
    cache.fog_webhook(40, false, Some(Fetched::Found(webhook(40, "moon"))));
    assert_eq!(cache.webhook(40), Some(Arc::new(webhook(40, "moon"))));
}

#[test]
fn a_webhook_that_does_not_exist_any_more_is_evicted() {
    let mut cache = Cache::new();
    cache.fog_webhook(40, true, Some(Fetched::Found(webhook(40, "star"))));
    cache.fog_webhook(41, true, Some(Fetched::Found(webhook(41, "moon"))));
    assert_eq!(cache.fog_webhook(40, true, failed(Some(404))), Step::Done(Ok(None)));
    assert_eq!(cache.webhook(40), None);
    assert_eq!(cache.fog_webhook(40, true, None), Step::Fetch(Request::Webhook(40)));
    assert_eq!(cache.webhook(41), Some(Arc::new(webhook(41, "moon"))));
}

#[test]
fn a_failed_fetch_of_a_webhook_leaves_the_stored_one() {
    let mut cache = Cache::new();
    cache.fog_webhook(40, true, Some(Fetched::Found(webhook(40, "star"))));
    let error = FetchError { status: Some(500) };
    assert_eq!(cache.fog_webhook(40, false, failed(Some(500))), Step::Done(Err(error)));
    assert_eq!(cache.webhook(40), Some(Arc::new(webhook(40, "star"))));
    let error = FetchError { status: Some(403) };
    assert_eq!(cache.fog_webhook(40, false, failed(Some(403))), Step::Done(Err(error)));
    assert_eq!(cache.webhook(40), Some(Arc::new(webhook(40, "star"))));
}

#[test]
fn webhooks_are_inserted_and_removed() {
    let mut cache = Cache::new();
    cache.insert_webhook(40, &Arc::new(webhook(40, "star")));
    assert_eq!(cache.webhook(40), Some(Arc::new(webhook(40, "star"))));
    cache.insert_webhook(40, &Arc::new(webhook(40, "moon")));
    assert_eq!(cache.webhook(40), Some(Arc::new(webhook(40, "moon"))));
    cache.remove_webhook(40);
    assert_eq!(cache.webhook(40), None);
}

#[test]
fn the_status_of_a_failure_is_told_apart() {
    assert!(FetchError { status: Some(404) }.is_not_found());
    assert!(!FetchError { status: Some(404) }.is_forbidden());
    assert!(FetchError { status: Some(403) }.is_forbidden());
    assert!(!FetchError { status: Some(403) }.is_not_found());
    assert!(!FetchError { status: Some(500) }.is_not_found());
    assert!(!FetchError { status: None }.is_not_found());
    assert!(!FetchError { status: None }.is_forbidden());
}
