//! Properties that hold across the store's operations, stated over the
//! specifications that the operations' contracts use.

use vstd::prelude::*;
use crate::model::{new_user, Post, Timestamp, User};
use crate::store::{
    active_post_with_id, active_posts, active_users, edited_posts, renamed_users, has_post, has_user,
    lemma_post_at, lemma_same_post_ids, lemma_same_user_ids, lemma_user_at, post_deleted,
    post_with_id, posts_of_deleted, unique_post_ids, unique_user_ids, user_with_id,
    users_deleted,
};

verus! {

/// Every listed user is an active row of the table.
pub proof fn lemma_active_users_from(s: Seq<User>)
    ensures
        forall|k: int| 0 <= k < active_users(s).len() ==> (#[trigger] active_users(s)[k]).deleted_at is None
            && exists|j: int| 0 <= j < s.len() && s[j] == active_users(s)[k],
    decreases s.len(),
{
    if s.len() > 0 {
        let t = s.drop_last();
        lemma_active_users_from(t);
        assert forall|k: int| 0 <= k < active_users(s).len() implies (#[trigger] active_users(s)[k]).deleted_at is None
            && exists|j: int| 0 <= j < s.len() && s[j] == active_users(s)[k] by {
            if k < active_users(t).len() {
                let j = choose|j: int| 0 <= j < t.len() && t[j] == active_users(t)[k];
                assert(s[j] == active_users(s)[k]);
            } else {
                assert(s[s.len() - 1] == active_users(s)[k]);
            }
        }
    }
}

/// Every listed post is an active row of the table.
pub proof fn lemma_active_posts_from(s: Seq<Post>)
    ensures
        forall|k: int| 0 <= k < active_posts(s).len() ==> (#[trigger] active_posts(s)[k]).deleted_at is None
            && exists|j: int| 0 <= j < s.len() && s[j] == active_posts(s)[k],
    decreases s.len(),
{
    if s.len() > 0 {
        let t = s.drop_last();
        lemma_active_posts_from(t);
        assert forall|k: int| 0 <= k < active_posts(s).len() implies (#[trigger] active_posts(s)[k]).deleted_at is None
            && exists|j: int| 0 <= j < s.len() && s[j] == active_posts(s)[k] by {
            if k < active_posts(t).len() {
                let j = choose|j: int| 0 <= j < t.len() && t[j] == active_posts(t)[k];
                assert(s[j] == active_posts(s)[k]);
            } else {
                assert(s[s.len() - 1] == active_posts(s)[k]);
            }
        }
    }
}

/// A user just created is found by its id, with the nick it was given and
/// with its creation and update times equal.
pub proof fn law_create_then_get_user(users: Seq<User>, id: u128, nick: String, now: Timestamp)
    requires
        unique_user_ids(users),
        !has_user(users, id),
    ensures
        user_with_id(users.push(new_user(id, nick, now)), id) == Some(new_user(id, nick, now)),
        new_user(id, nick, now).nick == nick,
        new_user(id, nick, now).created_at == new_user(id, nick, now).updated_at,
{
    let after = users.push(new_user(id, nick, now));
    assert(unique_user_ids(after)) by {
        assert forall|i: int, j: int| 0 <= i < after.len() && 0 <= j < after.len() && i != j implies after[i].id
            != after[j].id by {
            if i < users.len() && j < users.len() {
                assert(users[i].id != users[j].id);
            } else if i < users.len() {
                assert(after[i] == users[i]);
            } else {
                assert(after[j] == users[j]);
            }
        }
    }
    lemma_user_at(after, users.len() as int);
}

/// A deleted user is never listed, yet a lookup by its id still finds it.
pub proof fn law_deleted_user_unlisted_but_found(users: Seq<User>, i: int)
    requires
        unique_user_ids(users),
        0 <= i < users.len(),
        users[i].deleted_at is Some,
    ensures
        forall|k: int| 0 <= k < active_users(users).len() ==> (#[trigger] active_users(users)[k]).id != users[i].id,
        user_with_id(users, users[i].id) == Some(users[i]),
{
    lemma_active_users_from(users);
    lemma_user_at(users, i);
}

/// Editing a post changes its title, its body and its update time; its id,
/// its owner, its creation time and its deletion mark stay.
pub proof fn law_edit_post_keeps_identity(posts: Seq<Post>, id: u128, title: String, body: String, now: Timestamp)
    requires
        unique_post_ids(posts),
        has_post(posts, id),
    ensures
        ({
            let before = post_with_id(posts, id)->Some_0;
            post_with_id(edited_posts(posts, id, title, body, now), id) == Some(
                Post { title: title, body: body, updated_at: now, ..before },
            )
        }),
{
    let i = choose|i: int| 0 <= i < posts.len() && posts[i].id == id;
    lemma_post_at(posts, i);
    let after = edited_posts(posts, id, title, body, now);
    lemma_same_post_ids(posts, after);
    lemma_post_at(after, i);
}

/// Deleting a post twice touches the row both times (the answer is `true`
/// both times), and the second deletion's time replaces the first.
pub proof fn law_delete_post_twice(posts: Seq<Post>, id: u128, first: Timestamp, second: Timestamp)
    requires
        unique_post_ids(posts),
        has_post(posts, id),
    ensures
        has_post(post_deleted(posts, id, first), id),
        ({
            let before = post_with_id(posts, id)->Some_0;
            post_with_id(post_deleted(post_deleted(posts, id, first), id, second), id) == Some(
                Post { deleted_at: Some(second), ..before },
            )
        }),
{
    let i = choose|i: int| 0 <= i < posts.len() && posts[i].id == id;
    lemma_post_at(posts, i);
    let mid = post_deleted(posts, id, first);
    lemma_same_post_ids(posts, mid);
    lemma_post_at(mid, i);
    let end = post_deleted(mid, id, second);
    lemma_same_post_ids(mid, end);
    lemma_post_at(end, i);
}

/// After a user is deleted, none of its posts is listed or found by id, and
/// the user itself is still found by id, marked deleted.
pub proof fn law_delete_user_cascades(users: Seq<User>, posts: Seq<Post>, id: u128, now: Timestamp)
    requires
        unique_user_ids(users),
        unique_post_ids(posts),
    ensures
        forall|k: int| 0 <= k < active_posts(posts_of_deleted(posts, id, now)).len()
            ==> (#[trigger] active_posts(posts_of_deleted(posts, id, now))[k]).user_id != id,
        forall|j: int| 0 <= j < posts.len() && posts[j].user_id == id
            ==> active_post_with_id(posts_of_deleted(posts, id, now), #[trigger] posts[j].id) is None,
        has_user(users, id) ==> user_with_id(users_deleted(users, id, now), id) == Some(
            User { deleted_at: Some(now), ..user_with_id(users, id)->Some_0 },
        ),
{
    let after = posts_of_deleted(posts, id, now);
    lemma_active_posts_from(after);
    lemma_same_post_ids(posts, after);
    assert forall|j: int| 0 <= j < posts.len() && posts[j].user_id == id
        implies active_post_with_id(after, #[trigger] posts[j].id) is None by {
        lemma_post_at(after, j);
    }
    if has_user(users, id) {
        let i = choose|i: int| 0 <= i < users.len() && users[i].id == id;
        lemma_user_at(users, i);
        let gone = users_deleted(users, id, now);
        lemma_same_user_ids(users, gone);
        lemma_user_at(gone, i);
    }
}

/// No operation clears a deletion mark: a row marked deleted before any
/// update, rename or soft deletion is still marked after it.
pub proof fn law_deletion_marks_stay(
    users: Seq<User>,
    posts: Seq<Post>,
    id: u128,
    nick: String,
    title: String,
    body: String,
    now: Timestamp,
)
    ensures
        forall|k: int| 0 <= k < users.len() && (#[trigger] users[k]).deleted_at is Some ==> {
            &&& renamed_users(users, id, nick, now)[k].deleted_at == users[k].deleted_at
            &&& users_deleted(users, id, now)[k].deleted_at is Some
        },
        forall|k: int| 0 <= k < posts.len() && (#[trigger] posts[k]).deleted_at is Some ==> {
            &&& edited_posts(posts, id, title, body, now)[k].deleted_at == posts[k].deleted_at
            &&& post_deleted(posts, id, now)[k].deleted_at is Some
            &&& posts_of_deleted(posts, id, now)[k].deleted_at is Some
        },
{
}

} // verus!
