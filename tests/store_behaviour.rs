use crud_store::handlers::{
    create_post, create_post_at, create_user, create_user_at, delete_post, delete_post_at,
    delete_user, delete_user_at, deletion_outcome, get_post, get_posts, get_user, get_users,
    update_post_at, update_user_at, CreatePost, CreateUser, PostResponse, UserResponse,
};
use crud_store::model::{Timestamp, User};
use crud_store::store::{Store, StoreError};

fn at(m: i64) -> Timestamp {
    Timestamp::from_micros(m).unwrap()
}

fn nick(s: &str) -> CreateUser {
    CreateUser { nick: s.to_string() }
}

fn post(user_id: u128, title: &str, body: &str) -> CreatePost {
    CreatePost { user_id, title: title.to_string(), body: body.to_string() }
}

#[test]
fn timestamp_renders_as_display_text() {
    assert_eq!(at(0).render(), "1970-01-01 00:00:00");
    assert_eq!(at(1_000_444).render(), "1970-01-01 00:00:01.000444");
    assert_eq!(at(1_000_000_000_000_555).render(), "2001-09-09 01:46:40.000555");
    assert_eq!(at(-2_208_936_075_000_000).render(), "1900-01-01 14:38:45");
}

#[test]
fn timestamp_range_edges() {
    assert!(Timestamp::from_micros(crud_store::clock::MIN_MICROS).is_some());
    assert!(Timestamp::from_micros(crud_store::clock::MAX_MICROS).is_some());
    assert!(Timestamp::from_micros(crud_store::clock::MIN_MICROS - 1).is_none());
    assert!(Timestamp::from_micros(crud_store::clock::MAX_MICROS + 1).is_none());
    assert!(Timestamp::from_micros(i64::MAX).is_none());
    assert_eq!(at(crud_store::clock::MAX_MICROS).render(), "+262142-12-31 23:59:59.999999");
    assert_eq!(at(crud_store::clock::MIN_MICROS).render(), "-262143-01-01 00:00:00");
}

#[test]
fn now_is_after_epoch() {
    assert!(Timestamp::now().micros() > 0);
}

#[test]
fn create_then_get_user() {
    let mut store = Store::new();
    let created = create_user_at(&mut store, nick("ann"), 7, at(1_000_000)).unwrap();
    assert_eq!(created.id, 7);
    assert_eq!(created.nick, "ann");
    assert_eq!(created.created_at, "1970-01-01 00:00:01");
    assert_eq!(created.created_at, created.updated_at);
    let got: UserResponse = get_user(&store, 7).unwrap();
    assert_eq!(got.nick, "ann");
    assert_eq!(got.created_at, got.updated_at);
}

#[test]
fn create_user_with_fresh_id_then_delete_unknown() {
    let mut store = Store::new();
    let a = create_user(&mut store, nick("ann")).unwrap();
    let b = create_user(&mut store, nick("bob")).unwrap();
    assert_ne!(a.id, b.id);
    assert_eq!(a.nick, "ann");
    assert_eq!(a.created_at, a.updated_at);
    assert_eq!(get_users(&store).len(), 2);
    let unknown = a.id ^ b.id ^ 1;
    assert!(unknown != a.id && unknown != b.id);
    assert!(!delete_user(&mut store, unknown));
    assert!(delete_user(&mut store, a.id));
    assert_eq!(get_users(&store).len(), 1);
}

#[test]
fn duplicate_user_id_is_refused() {
    let mut store = Store::new();
    create_user_at(&mut store, nick("ann"), 1, at(10)).unwrap();
    let r = create_user_at(&mut store, nick("bob"), 1, at(20));
    assert_eq!(r.err(), Some(StoreError::DuplicateId));
    assert_eq!(store.users.len(), 1);
    assert_eq!(get_user(&store, 1).unwrap().nick, "ann");
}

#[test]
fn deleted_user_is_unlisted_but_found() {
    let mut store = Store::new();
    create_user_at(&mut store, nick("ann"), 1, at(10)).unwrap();
    create_user_at(&mut store, nick("bob"), 2, at(20)).unwrap();
    assert!(delete_user_at(&mut store, 1, at(30)));
    let listed = get_users(&store);
    assert_eq!(listed.len(), 1);
    assert_eq!(listed[0].id, 2);
    let found = get_user(&store, 1).unwrap();
    assert_eq!(found.nick, "ann");
    assert_eq!(store.users[0].deleted_at.map(|t| t.micros()), Some(30));
}

#[test]
fn update_user_sets_nick_and_time() {
    let mut store = Store::new();
    create_user_at(&mut store, nick("ann"), 1, at(10)).unwrap();
    let u = update_user_at(&mut store, 1, nick("anna"), at(2_000_000)).unwrap();
    assert_eq!(u.nick, "anna");
    assert_eq!(u.created_at, "1970-01-01 00:00:00.000010");
    assert_eq!(u.updated_at, "1970-01-01 00:00:02");
    assert!(update_user_at(&mut store, 9, nick("x"), at(30)).is_none());
}

#[test]
fn update_deleted_user_still_applies() {
    let mut store = Store::new();
    create_user_at(&mut store, nick("ann"), 1, at(10)).unwrap();
    delete_user_at(&mut store, 1, at(20));
    let u = update_user_at(&mut store, 1, nick("back"), at(30)).unwrap();
    assert_eq!(u.nick, "back");
    assert!(store.users[0].deleted_at.is_some());
    assert!(get_users(&store).is_empty());
}

#[test]
fn post_for_unknown_user_is_refused() {
    let mut store = Store::new();
    let r = create_post_at(&mut store, post(5, "t", "b"), 1, at(10));
    assert_eq!(r.err(), Some(StoreError::UnknownUser));
    assert!(store.posts.is_empty());
    let r2 = create_post(&mut store, post(5, "t", "b"));
    assert_eq!(r2.err(), Some(StoreError::UnknownUser));
}

#[test]
fn duplicate_post_id_is_refused() {
    let mut store = Store::new();
    create_user_at(&mut store, nick("ann"), 1, at(10)).unwrap();
    create_post_at(&mut store, post(1, "t", "b"), 100, at(20)).unwrap();
    let r = create_post_at(&mut store, post(1, "u", "c"), 100, at(30));
    assert_eq!(r.err(), Some(StoreError::DuplicateId));
    let r2 = create_post_at(&mut store, post(9, "u", "c"), 100, at(30));
    assert_eq!(r2.err(), Some(StoreError::DuplicateId));
}

#[test]
fn post_for_deleted_user_is_accepted() {
    let mut store = Store::new();
    create_user_at(&mut store, nick("ann"), 1, at(10)).unwrap();
    delete_user_at(&mut store, 1, at(20));
    let p = create_post_at(&mut store, post(1, "late", "b"), 100, at(30)).unwrap();
    assert_eq!(p.user_id, 1);
    assert_eq!(get_posts(&store).len(), 1);
}

#[test]
fn create_and_get_post() {
    let mut store = Store::new();
    create_user_at(&mut store, nick("ann"), 1, at(10)).unwrap();
    let p: PostResponse = create_post_at(&mut store, post(1, "hello", "world"), 100, at(3_000_000)).unwrap();
    assert_eq!(p.id, 100);
    assert_eq!(p.user_id, 1);
    assert_eq!(p.title, "hello");
    assert_eq!(p.body, "world");
    assert_eq!(p.created_at, "1970-01-01 00:00:03");
    assert_eq!(p.updated_at, "1970-01-01 00:00:03");
    let got = get_post(&store, 100).unwrap();
    assert_eq!(got.title, "hello");
    assert!(get_post(&store, 101).is_none());
    let fresh = create_post(&mut store, post(1, "again", "x")).unwrap();
    assert_ne!(fresh.id, 100);
    assert_eq!(get_posts(&store).len(), 2);
}

#[test]
fn update_post_changes_only_content_and_time() {
    let mut store = Store::new();
    create_user_at(&mut store, nick("ann"), 1, at(10)).unwrap();
    create_user_at(&mut store, nick("bob"), 2, at(10)).unwrap();
    create_post_at(&mut store, post(1, "t", "b"), 100, at(1_000_000)).unwrap();
    let u = update_post_at(&mut store, 100, post(2, "t2", "b2"), at(5_000_000)).unwrap();
    assert_eq!(u.id, 100);
    assert_eq!(u.user_id, 1);
    assert_eq!(u.title, "t2");
    assert_eq!(u.body, "b2");
    assert_eq!(u.created_at, "1970-01-01 00:00:01");
    assert_eq!(u.updated_at, "1970-01-01 00:00:05");
    assert!(update_post_at(&mut store, 7, post(1, "x", "y"), at(6)).is_none());
}

#[test]
fn delete_post_twice_touches_the_row_both_times() {
    let mut store = Store::new();
    create_user_at(&mut store, nick("ann"), 1, at(10)).unwrap();
    create_post_at(&mut store, post(1, "t", "b"), 100, at(20)).unwrap();
    assert!(delete_post_at(&mut store, 100, at(30)));
    assert_eq!(store.posts[0].deleted_at.map(|t| t.micros()), Some(30));
    assert!(delete_post_at(&mut store, 100, at(40)));
    assert_eq!(store.posts[0].deleted_at.map(|t| t.micros()), Some(40));
    assert!(get_post(&store, 100).is_none());
    assert!(get_posts(&store).is_empty());
    assert!(!delete_post_at(&mut store, 101, at(50)));
    assert!(delete_post(&mut store, 100));
}

#[test]
fn delete_user_cascades_to_posts() {
    let mut store = Store::new();
    create_user_at(&mut store, nick("ann"), 1, at(10)).unwrap();
    create_user_at(&mut store, nick("bob"), 2, at(10)).unwrap();
    create_post_at(&mut store, post(1, "first", "b"), 100, at(20)).unwrap();
    create_post_at(&mut store, post(1, "second", "b"), 101, at(20)).unwrap();
    create_post_at(&mut store, post(2, "q", "b"), 102, at(20)).unwrap();
    assert!(delete_user_at(&mut store, 1, at(30)));
    let listed = get_posts(&store);
    assert_eq!(listed.len(), 1);
    assert_eq!(listed[0].id, 102);
    assert!(get_post(&store, 100).is_none());
    assert!(get_post(&store, 101).is_none());
    assert_eq!(get_user(&store, 1).unwrap().nick, "ann");
}

#[test]
fn delete_unknown_user_is_false() {
    let mut store = Store::new();
    assert!(!delete_user_at(&mut store, 42, at(10)));
    create_user_at(&mut store, nick("ann"), 1, at(10)).unwrap();
    assert!(!delete_user_at(&mut store, 42, at(10)));
}

#[test]
fn deletion_outcome_counts_either_step() {
    assert!(!deletion_outcome(0, 0));
    assert!(deletion_outcome(2, 0));
    assert!(deletion_outcome(0, 1));
    assert!(deletion_outcome(3, 1));
}

#[test]
fn user_record_builder() {
    let u = User::new_record(3, "zed".to_string(), at(5));
    assert_eq!(u.created_at.micros(), 5);
    assert_eq!(u.updated_at.micros(), 5);
    assert!(u.deleted_at.is_none());
    let d = u.duplicate();
    assert_eq!(d.nick, "zed");
    let r = UserResponse::from_user(&d);
    assert_eq!(r.created_at, "1970-01-01 00:00:00.000005");
}
