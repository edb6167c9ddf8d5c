//! Request handling: what each operation on users and posts does to the store
//! and which payload it answers with.

use vstd::prelude::*;
use crate::clock::fresh_id;
use crate::model::{new_post, new_user, text_of, Post, Timestamp, User};
use crate::store::{
    active_post_with_id, active_posts, active_users, edited_posts, has_post, has_user,
    owned_count, post_deleted, post_with_id, posts_of_deleted, renamed_users, user_with_id,
    users_deleted, Store, StoreError,
};

verus! {

/// The body of a request that creates or renames a user.
pub struct CreateUser {
    pub nick: String,
}

/// The body of a request that creates or edits a post. An edit takes the
/// title and the body and leaves the owner as it is.
pub struct CreatePost {
    pub user_id: u128,
    pub title: String,
    pub body: String,
}

/// A user as responses show it.
pub struct UserResponse {
    pub id: u128,
    pub nick: String,
    pub created_at: String,
    pub updated_at: String,
}

/// A post as responses show it.
pub struct PostResponse {
    pub id: u128,
    pub user_id: u128,
    pub title: String,
    pub body: String,
    pub created_at: String,
    pub updated_at: String,
}

/// `r` shows the user `u`.
pub open spec fn shows_user(r: UserResponse, u: User) -> bool {
    &&& r.id == u.id
    &&& r.nick@ == u.nick@
    &&& r.created_at@ == text_of(u.created_at)
    &&& r.updated_at@ == text_of(u.updated_at)
}

/// `r` shows the post `p`.
pub open spec fn shows_post(r: PostResponse, p: Post) -> bool {
    &&& r.id == p.id
    &&& r.user_id == p.user_id
    &&& r.title@ == p.title@
    &&& r.body@ == p.body@
    &&& r.created_at@ == text_of(p.created_at)
    &&& r.updated_at@ == text_of(p.updated_at)
}

impl UserResponse {
    /// The payload that shows `u`.
    pub fn from_user(u: &User) -> (r: UserResponse)
        ensures
            shows_user(r, *u),
    {
        UserResponse {
            id: u.id,
            nick: u.nick.clone(),
            created_at: u.created_at.render(),
            updated_at: u.updated_at.render(),
        }
    }
}

impl PostResponse {
    /// The payload that shows `p`.
    pub fn from_post(p: &Post) -> (r: PostResponse)
        ensures
            shows_post(r, *p),
    {
        PostResponse {
            id: p.id,
            user_id: p.user_id,
            title: p.title.clone(),
            body: p.body.clone(),
            created_at: p.created_at.render(),
            updated_at: p.updated_at.render(),
        }
    }
}

/// The answer to a user deletion, from the number of posts and of user rows
/// that its two statements touched: whether anything was touched at all.
pub fn deletion_outcome(posts_deleted: usize, user_deleted: usize) -> (r: bool)
    ensures
        r == (posts_deleted > 0 || user_deleted > 0),
{
    posts_deleted > 0 || user_deleted > 0
}

/// Every active user, in row order.
pub fn get_users(store: &Store) -> (r: Vec<UserResponse>)
    ensures
        r@.len() == active_users(store.users@).len(),
        forall|i: int| 0 <= i < r@.len() ==> shows_user(#[trigger] r@[i], active_users(store.users@)[i]),
{
    let users = store.list_active_users();
    let mut r: Vec<UserResponse> = Vec::new();
    let mut i: usize = 0;
    while i < users.len()
        invariant
            i <= users@.len(),
            users@ == active_users(store.users@),
            r@.len() == i,
            forall|k: int| 0 <= k < i ==> shows_user(#[trigger] r@[k], users@[k]),
        decreases users@.len() - i,
    {
        r.push(UserResponse::from_user(&users[i]));
        i += 1;
    }
    r
}

/// The user `id`, deleted or not; `None` when there is no such row.
pub fn get_user(store: &Store, id: u128) -> (r: Option<UserResponse>)
    requires
        store.wf(),
    ensures
        r is Some <==> has_user(store.users@, id),
        r matches Some(resp) ==> shows_user(resp, user_with_id(store.users@, id)->Some_0),
{
    match store.find_user(id) {
        Some(u) => Some(UserResponse::from_user(&u)),
        None => None,
    }
}

/// Creates the user `id` named by `payload`, at `now`; refused when the id is
/// taken.
pub fn create_user_at(store: &mut Store, payload: CreateUser, id: u128, now: Timestamp) -> (r: Result<UserResponse, StoreError>)
    requires
        old(store).wf(),
    ensures
        final(store).wf(),
        final(store).posts@ == old(store).posts@,
        r is Err <==> has_user(old(store).users@, id),
        r matches Err(e) ==> e == StoreError::DuplicateId && final(store).users@ == old(store).users@,
        r matches Ok(resp) ==> final(store).users@ == old(store).users@.push(new_user(id, payload.nick, now))
            && shows_user(resp, new_user(id, payload.nick, now)),
{
    let u = User::new_record(id, payload.nick, now);
    let resp = UserResponse::from_user(&u);
    match store.insert_user(u) {
        Ok(()) => Ok(resp),
        Err(e) => Err(e),
    }
}

/// Creates a user named by `payload` with a fresh random id, at the current
/// time. Refused only when the drawn id is taken.
pub fn create_user(store: &mut Store, payload: CreateUser) -> (r: Result<UserResponse, StoreError>)
    requires
        old(store).wf(),
    ensures
        final(store).wf(),
        final(store).posts@ == old(store).posts@,
        old(store).users@.len() == 0 ==> r is Ok,
        r matches Err(e) ==> e == StoreError::DuplicateId && final(store).users@ == old(store).users@,
        r matches Ok(resp) ==> exists|id: u128, now: Timestamp|
            final(store).users@ == old(store).users@.push(#[trigger] new_user(id, payload.nick, now))
                && shows_user(resp, new_user(id, payload.nick, now)),
{
    let id = fresh_id();
    let now = Timestamp::now();
    create_user_at(store, payload, id, now)
}

/// Renames the user `id`, deleted or not, at `now`; `None` when there is no
/// such row.
pub fn update_user_at(store: &mut Store, id: u128, payload: CreateUser, now: Timestamp) -> (r: Option<UserResponse>)
    requires
        old(store).wf(),
    ensures
        final(store).wf(),
        final(store).users@ == renamed_users(old(store).users@, id, payload.nick, now),
        final(store).posts@ == old(store).posts@,
        r is Some <==> has_user(old(store).users@, id),
        r matches Some(resp) ==> shows_user(resp, user_with_id(final(store).users@, id)->Some_0),
{
    match store.update_user(id, payload.nick, now) {
        Some(u) => Some(UserResponse::from_user(&u)),
        None => None,
    }
}

/// Renames the user `id` at the current time.
pub fn update_user(store: &mut Store, id: u128, payload: CreateUser) -> (r: Option<UserResponse>)
    requires
        old(store).wf(),
    ensures
        final(store).wf(),
        exists|now: Timestamp| final(store).users@ == #[trigger] renamed_users(old(store).users@, id, payload.nick, now),
        final(store).posts@ == old(store).posts@,
        r is Some <==> has_user(old(store).users@, id),
        r matches Some(resp) ==> shows_user(resp, user_with_id(final(store).users@, id)->Some_0),
{
    let now = Timestamp::now();
    update_user_at(store, id, payload, now)
}

/// Deletes the user `id` at `now`: first every post it owns, then the user
/// row itself, all marked deleted whatever their state. Answers whether
/// either step touched a row.
pub fn delete_user_at(store: &mut Store, id: u128, now: Timestamp) -> (r: bool)
    requires
        old(store).wf(),
    ensures
        final(store).wf(),
        final(store).posts@ == posts_of_deleted(old(store).posts@, id, now),
        final(store).users@ == users_deleted(old(store).users@, id, now),
        r == (owned_count(old(store).posts@, id) > 0 || has_user(old(store).users@, id)),
{
    let posts_deleted = store.soft_delete_posts_of(id, now);
    let user_deleted = store.soft_delete_user(id, now);
    deletion_outcome(posts_deleted, user_deleted)
}

/// Deletes the user `id` and its posts at the current time.
pub fn delete_user(store: &mut Store, id: u128) -> (r: bool)
    requires
        old(store).wf(),
    ensures
        final(store).wf(),
        exists|now: Timestamp|
            final(store).posts@ == #[trigger] posts_of_deleted(old(store).posts@, id, now)
                && final(store).users@ == users_deleted(old(store).users@, id, now),
        r == (owned_count(old(store).posts@, id) > 0 || has_user(old(store).users@, id)),
{
    let now = Timestamp::now();
    delete_user_at(store, id, now)
}

/// Every active post, in row order.
pub fn get_posts(store: &Store) -> (r: Vec<PostResponse>)
    ensures
        r@.len() == active_posts(store.posts@).len(),
        forall|i: int| 0 <= i < r@.len() ==> shows_post(#[trigger] r@[i], active_posts(store.posts@)[i]),
{
    let posts = store.list_active_posts();
    let mut r: Vec<PostResponse> = Vec::new();
    let mut i: usize = 0;
    while i < posts.len()
        invariant
            i <= posts@.len(),
            posts@ == active_posts(store.posts@),
            r@.len() == i,
            forall|k: int| 0 <= k < i ==> shows_post(#[trigger] r@[k], posts@[k]),
        decreases posts@.len() - i,
    {
        r.push(PostResponse::from_post(&posts[i]));
        i += 1;
    }
    r
}

/// The post `id` if it is active; `None` when there is no such row or it is
/// deleted.
pub fn get_post(store: &Store, id: u128) -> (r: Option<PostResponse>)
    requires
        store.wf(),
    ensures
        r is Some <==> active_post_with_id(store.posts@, id) is Some,
        r matches Some(resp) ==> shows_post(resp, active_post_with_id(store.posts@, id)->Some_0),
{
    match store.find_active_post(id) {
        Some(p) => Some(PostResponse::from_post(&p)),
        None => None,
    }
}

/// Creates the post `id` described by `payload`, at `now`; refused when the
/// id is taken or the owner is not a user row.
pub fn create_post_at(store: &mut Store, payload: CreatePost, id: u128, now: Timestamp) -> (r: Result<PostResponse, StoreError>)
    requires
        old(store).wf(),
    ensures
        final(store).wf(),
        final(store).users@ == old(store).users@,
        (r matches Err(e) && e == StoreError::DuplicateId) <==> has_post(old(store).posts@, id),
        (r matches Err(e) && e == StoreError::UnknownUser) <==> !has_post(old(store).posts@, id)
            && !has_user(old(store).users@, payload.user_id),
        r is Ok <==> !has_post(old(store).posts@, id) && has_user(old(store).users@, payload.user_id),
        r is Err ==> final(store).posts@ == old(store).posts@,
        r matches Ok(resp) ==> final(store).posts@ == old(store).posts@.push(
            new_post(id, payload.user_id, payload.title, payload.body, now),
        ) && shows_post(resp, new_post(id, payload.user_id, payload.title, payload.body, now)),
{
    let p = Post::new_record(id, payload.user_id, payload.title, payload.body, now);
    let resp = PostResponse::from_post(&p);
    match store.insert_post(p) {
        Ok(()) => Ok(resp),
        Err(e) => Err(e),
    }
}

/// Creates the post described by `payload` with a fresh random id, at the
/// current time.
pub fn create_post(store: &mut Store, payload: CreatePost) -> (r: Result<PostResponse, StoreError>)
    requires
        old(store).wf(),
    ensures
        final(store).wf(),
        final(store).users@ == old(store).users@,
        !has_user(old(store).users@, payload.user_id) ==> r is Err,
        old(store).posts@.len() == 0 ==> (r is Ok <==> has_user(old(store).users@, payload.user_id)),
        old(store).posts@.len() == 0 && r is Err ==> (r matches Err(e) && e == StoreError::UnknownUser),
        r is Err ==> final(store).posts@ == old(store).posts@,
        r matches Ok(resp) ==> exists|id: u128, now: Timestamp|
            final(store).posts@ == old(store).posts@.push(
                #[trigger] new_post(id, payload.user_id, payload.title, payload.body, now),
            ) && shows_post(resp, new_post(id, payload.user_id, payload.title, payload.body, now)),
{
    let id = fresh_id();
    let now = Timestamp::now();
    create_post_at(store, payload, id, now)
}

/// Gives the post `id`, deleted or not, the title and the body of `payload`
/// at `now`; its owner stays. `None` when there is no such row.
pub fn update_post_at(store: &mut Store, id: u128, payload: CreatePost, now: Timestamp) -> (r: Option<PostResponse>)
    requires
        old(store).wf(),
    ensures
        final(store).wf(),
        final(store).posts@ == edited_posts(old(store).posts@, id, payload.title, payload.body, now),
        final(store).users@ == old(store).users@,
        r is Some <==> has_post(old(store).posts@, id),
        r matches Some(resp) ==> shows_post(resp, post_with_id(final(store).posts@, id)->Some_0),
{
    match store.update_post(id, payload.title, payload.body, now) {
        Some(p) => Some(PostResponse::from_post(&p)),
        None => None,
    }
}

/// Edits the post `id` at the current time.
pub fn update_post(store: &mut Store, id: u128, payload: CreatePost) -> (r: Option<PostResponse>)
    requires
        old(store).wf(),
    ensures
        final(store).wf(),
        exists|now: Timestamp|
            final(store).posts@ == #[trigger] edited_posts(old(store).posts@, id, payload.title, payload.body, now),
        final(store).users@ == old(store).users@,
        r is Some <==> has_post(old(store).posts@, id),
        r matches Some(resp) ==> shows_post(resp, post_with_id(final(store).posts@, id)->Some_0),
{
    let now = Timestamp::now();
    update_post_at(store, id, payload, now)
}

/// Marks the post `id` deleted at `now`, whatever its state. Answers whether
/// a row was touched.
pub fn delete_post_at(store: &mut Store, id: u128, now: Timestamp) -> (r: bool)
    requires
        old(store).wf(),
    ensures
        final(store).wf(),
        final(store).posts@ == post_deleted(old(store).posts@, id, now),
        final(store).users@ == old(store).users@,
        r == has_post(old(store).posts@, id),
{
    let n = store.soft_delete_post(id, now);
    n > 0
}

/// Marks the post `id` deleted at the current time.
pub fn delete_post(store: &mut Store, id: u128) -> (r: bool)
    requires
        old(store).wf(),
    ensures
        final(store).wf(),
        exists|now: Timestamp| final(store).posts@ == #[trigger] post_deleted(old(store).posts@, id, now),
        final(store).users@ == old(store).users@,
        r == has_post(old(store).posts@, id),
{
    let now = Timestamp::now();
    delete_post_at(store, id, now)
}

} // verus!
