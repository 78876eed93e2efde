use starboard::cache::Cache;
use starboard::model::{CachedMember, CachedUser, Member, User};
use starboard::remote::{FetchError, Fetched, Request, Step};
use std::sync::Arc;

fn user(id: u64, name: &str) -> User {
    User { id, name: name.to_string(), bot: false }
}

fn cached(id: u64, name: &str) -> Option<Arc<CachedUser>> {
    Some(Arc::new(CachedUser { id, name: name.to_string(), is_bot: false }))
}

fn failed<T>(status: Option<u16>) -> Option<Fetched<T>> {
    Some(Fetched::Failed(FetchError { status }))
}

#[test]
fn a_user_that_is_not_cached_is_fetched() {
    let mut cache = Cache::new();
    assert_eq!(cache.fog_user(7, None), Step::Fetch(Request::User(7)));
}

#[test]
fn a_fetched_user_is_cached() {
    let mut cache = Cache::new();
    let step = cache.fog_user(7, Some(Fetched::Found(user(7, "ada"))));
    assert_eq!(step, Step::Done(Ok(cached(7, "ada"))));
    assert_eq!(cache.fog_user(7, None), Step::Done(Ok(cached(7, "ada"))));
}

#[test]
fn two_hits_in_a_row_answer_the_same() {
    let mut cache = Cache::new();
    cache.fog_user(7, Some(Fetched::Found(user(7, "ada"))));
    let first = cache.fog_user(7, None);
    let second = cache.fog_user(7, None);
    assert_eq!(first, second);
    assert_eq!(second, Step::Done(Ok(cached(7, "ada"))));
}

#[test]
fn a_user_that_does_not_exist_is_cached_as_absent() {
    let mut cache = Cache::new();
    assert_eq!(cache.fog_user(7, failed(Some(404))), Step::Done(Ok(None)));
    assert_eq!(cache.fog_user(7, None), Step::Done(Ok(None)));
}

#[test]
fn a_failed_fetch_of_a_user_is_not_cached() {
    let mut cache = Cache::new();
    let error = FetchError { status: Some(500) };
    assert_eq!(cache.fog_user(7, failed(Some(500))), Step::Done(Err(error)));
    assert_eq!(cache.fog_user(7, None), Step::Fetch(Request::User(7)));
    let error = FetchError { status: None };
    assert_eq!(cache.fog_user(7, failed(None)), Step::Done(Err(error)));
    assert_eq!(cache.fog_user(7, None), Step::Fetch(Request::User(7)));
}

#[test]
fn a_forbidden_user_is_a_failure() {
    let mut cache = Cache::new();
    let error = FetchError { status: Some(403) };
    assert_eq!(cache.fog_user(7, failed(Some(403))), Step::Done(Err(error)));
    assert_eq!(cache.fog_user(7, None), Step::Fetch(Request::User(7)));
}

#[test]
fn a_later_reply_replaces_an_earlier_one() {
    let mut cache = Cache::new();
    cache.fog_user(7, Some(Fetched::Found(user(7, "ada"))));
    cache.fog_user(7, Some(Fetched::Found(user(7, "grace"))));
    assert_eq!(cache.fog_user(7, None), Step::Done(Ok(cached(7, "grace"))));
    cache.fog_user(7, failed(Some(404)));
    assert_eq!(cache.fog_user(7, None), Step::Done(Ok(None)));
}

#[test]
fn users_are_kept_apart_by_id() {
    let mut cache = Cache::new();
    cache.fog_user(7, Some(Fetched::Found(user(7, "ada"))));
    assert_eq!(cache.fog_user(8, None), Step::Fetch(Request::User(8)));
    assert_eq!(cache.user_entry(7), Some(cached(7, "ada")));
    assert_eq!(cache.user_entry(8), None);
}

#[test]
fn store_user_writes_the_entry() {
    let mut cache = Cache::new();
    cache.store_user(3, &cached(3, "linus"));
    assert_eq!(cache.user_entry(3), Some(cached(3, "linus")));
    cache.store_user(3, &None);
    assert_eq!(cache.user_entry(3), Some(None));
}

fn member(user_id: u64, name: &str, nick: Option<&str>, roles: Vec<u64>) -> Member {
    Member { user: user(user_id, name), nick: nick.map(|n| n.to_string()), roles }
}

fn cached_member(user_id: u64, nick: Option<&str>, roles: Vec<u64>) -> Option<Arc<CachedMember>> {
    Some(Arc::new(CachedMember {
        user_id,
        is_bot: false,
        nick: nick.map(|n| n.to_string()),
        roles,
    }))
}

#[test]
fn a_member_that_is_not_cached_is_fetched() {
    let mut cache = Cache::new();
    assert_eq!(
        cache.fog_member(1, 7, None),
        Step::Fetch(Request::Member { guild_id: 1, user_id: 7 })
    );
}

#[test]
fn a_fetched_member_is_cached_with_its_user() {
    let mut cache = Cache::new();
    let found = member(7, "ada", Some("countess"), vec![5, 6]);
    let step = cache.fog_member(1, 7, Some(Fetched::Found(found)));
    assert_eq!(step, Step::Done(Ok(cached_member(7, Some("countess"), vec![5, 6]))));
    assert_eq!(
        cache.fog_member(1, 7, None),
        Step::Done(Ok(cached_member(7, Some("countess"), vec![5, 6])))
    );
    assert_eq!(cache.fog_user(7, None), Step::Done(Ok(cached(7, "ada"))));
}

#[test]
fn the_user_of_a_member_is_cached_under_its_own_id() {
    let mut cache = Cache::new();
    cache.fog_member(1, 7, Some(Fetched::Found(member(9, "eve", None, vec![]))));
    assert_eq!(cache.fog_user(9, None), Step::Done(Ok(cached(9, "eve"))));
    assert_eq!(cache.fog_user(7, None), Step::Fetch(Request::User(7)));
    assert_eq!(cache.fog_member(1, 7, None), Step::Done(Ok(cached_member(9, None, vec![]))));
}

#[test]
fn members_are_kept_apart_by_guild() {
    let mut cache = Cache::new();
    cache.fog_member(1, 7, Some(Fetched::Found(member(7, "ada", None, vec![]))));
    assert_eq!(
        cache.fog_member(2, 7, None),
        Step::Fetch(Request::Member { guild_id: 2, user_id: 7 })
    );
    assert_eq!(cache.member_entry(1, 7), Some(cached_member(7, None, vec![])));
    assert_eq!(cache.member_entry(7, 1), None);
}

#[test]
fn a_member_that_does_not_exist_is_cached_as_absent() {
    let mut cache = Cache::new();
    assert_eq!(cache.fog_member(1, 7, failed(Some(404))), Step::Done(Ok(None)));
    assert_eq!(cache.fog_member(1, 7, None), Step::Done(Ok(None)));
    assert_eq!(cache.fog_user(7, None), Step::Fetch(Request::User(7)));
}

#[test]
fn a_forbidden_member_is_cached_as_absent() {
    let mut cache = Cache::new();
    assert_eq!(cache.fog_member(1, 7, failed(Some(403))), Step::Done(Ok(None)));
    assert_eq!(cache.fog_member(1, 7, None), Step::Done(Ok(None)));
}

#[test]
fn a_failed_fetch_of_a_member_is_not_cached() {
    let mut cache = Cache::new();
    let error = FetchError { status: Some(502) };
    assert_eq!(cache.fog_member(1, 7, failed(Some(502))), Step::Done(Err(error)));
    assert_eq!(
        cache.fog_member(1, 7, None),
        Step::Fetch(Request::Member { guild_id: 1, user_id: 7 })
    );
}

#[test]
fn store_member_writes_the_entry() {
    let mut cache = Cache::new();
    cache.store_member(1, 7, &cached_member(7, None, vec![4]));
    assert_eq!(cache.member_entry(1, 7), Some(cached_member(7, None, vec![4])));
}

#[test]
fn the_record_of_a_user_keeps_its_fields() {
    let bot = User { id: 12, name: "beep".to_string(), bot: true };
    assert_eq!(
        CachedUser::from_user(&bot),
        CachedUser { id: 12, name: "beep".to_string(), is_bot: true }
    );
    let of_bot = Member { user: bot, nick: None, roles: vec![1] };
    assert_eq!(
        CachedMember::from_member(of_bot),
        CachedMember { user_id: 12, is_bot: true, nick: None, roles: vec![1] }
    );
}
