//! The repository: users and posts kept in insertion order, with lookups,
//! listings of active rows, updates and soft deletion.

use vstd::prelude::*;
use crate::model::{Post, Timestamp, User};

verus! {

/// Why a write was refused by the store's constraints.
#[derive(Clone, Copy, Debug, PartialEq, Eq, Structural)]
pub enum StoreError {
    /// A row with the new row's id exists already.
    DuplicateId,
    /// The post's owner is not a user row.
    UnknownUser,
}

/// Whether some user row has the id `id`.
pub open spec fn has_user(s: Seq<User>, id: u128) -> bool {
    exists|i: int| 0 <= i < s.len() && s[i].id == id
}

/// Whether some post row has the id `id`.
pub open spec fn has_post(s: Seq<Post>, id: u128) -> bool {
    exists|i: int| 0 <= i < s.len() && s[i].id == id
}

/// The user row with the id `id`, whether deleted or not.
pub open spec fn user_with_id(s: Seq<User>, id: u128) -> Option<User> {
    if has_user(s, id) {
        Some(s[choose|i: int| 0 <= i < s.len() && s[i].id == id])
    } else {
        None
    }
}

/// The post row with the id `id`, whether deleted or not.
pub open spec fn post_with_id(s: Seq<Post>, id: u128) -> Option<Post> {
    if has_post(s, id) {
        Some(s[choose|i: int| 0 <= i < s.len() && s[i].id == id])
    } else {
        None
    }
}

/// The post with the id `id` if it is active.
pub open spec fn active_post_with_id(s: Seq<Post>, id: u128) -> Option<Post> {
    match post_with_id(s, id) {
        Some(p) => if p.deleted_at is None { Some(p) } else { None },
        None => None,
    }
}

/// The active users, in row order.
pub open spec fn active_users(s: Seq<User>) -> Seq<User>
    decreases s.len(),
{
    if s.len() == 0 {
        Seq::empty()
    } else if s.last().deleted_at is None {
        active_users(s.drop_last()).push(s.last())
    } else {
        active_users(s.drop_last())
    }
}

/// The active posts, in row order.
pub open spec fn active_posts(s: Seq<Post>) -> Seq<Post>
    decreases s.len(),
{
    if s.len() == 0 {
        Seq::empty()
    } else if s.last().deleted_at is None {
        active_posts(s.drop_last()).push(s.last())
    } else {
        active_posts(s.drop_last())
    }
}

/// How many posts `user_id` owns, deleted or not.
pub open spec fn owned_count(s: Seq<Post>, user_id: u128) -> nat
    decreases s.len(),
{
    if s.len() == 0 {
        0
    } else if s.last().user_id == user_id {
        owned_count(s.drop_last(), user_id) + 1
    } else {
        owned_count(s.drop_last(), user_id)
    }
}

/// The users after the row `id` gets the nick `nick` and the update time `now`.
pub open spec fn renamed_users(s: Seq<User>, id: u128, nick: String, now: Timestamp) -> Seq<User> {
    s.map_values(|u: User| if u.id == id { User { nick: nick, updated_at: now, ..u } } else { u })
}

/// The posts after the row `id` gets the given title and body and the update
/// time `now`.
pub open spec fn edited_posts(s: Seq<Post>, id: u128, title: String, body: String, now: Timestamp) -> Seq<Post> {
    s.map_values(
        |p: Post| if p.id == id { Post { title: title, body: body, updated_at: now, ..p } } else { p },
    )
}

/// The users after the row `id` is marked deleted at `now`.
pub open spec fn users_deleted(s: Seq<User>, id: u128, now: Timestamp) -> Seq<User> {
    s.map_values(|u: User| if u.id == id { User { deleted_at: Some(now), ..u } } else { u })
}

/// The posts after the row `id` is marked deleted at `now`.
pub open spec fn post_deleted(s: Seq<Post>, id: u128, now: Timestamp) -> Seq<Post> {
    s.map_values(|p: Post| if p.id == id { Post { deleted_at: Some(now), ..p } } else { p })
}

/// The posts after every post of `user_id` is marked deleted at `now`,
/// whatever its state was.
pub open spec fn posts_of_deleted(s: Seq<Post>, user_id: u128, now: Timestamp) -> Seq<Post> {
    s.map_values(
        |p: Post| if p.user_id == user_id { Post { deleted_at: Some(now), ..p } } else { p },
    )
}

/// No two user rows share an id.
pub open spec fn unique_user_ids(s: Seq<User>) -> bool {
    forall|i: int, j: int| 0 <= i < s.len() && 0 <= j < s.len() && i != j ==> s[i].id != s[j].id
}

/// No two post rows share an id.
pub open spec fn unique_post_ids(s: Seq<Post>) -> bool {
    forall|i: int, j: int| 0 <= i < s.len() && 0 <= j < s.len() && i != j ==> s[i].id != s[j].id
}

/// The row at `i` is the one that a lookup of its id finds.
pub proof fn lemma_user_at(s: Seq<User>, i: int)
    requires
        unique_user_ids(s),
        0 <= i < s.len(),
    ensures
        has_user(s, s[i].id),
        user_with_id(s, s[i].id) == Some(s[i]),
{
    assert(has_user(s, s[i].id));
}

/// The row at `i` is the one that a lookup of its id finds.
pub proof fn lemma_post_at(s: Seq<Post>, i: int)
    requires
        unique_post_ids(s),
        0 <= i < s.len(),
    ensures
        has_post(s, s[i].id),
        post_with_id(s, s[i].id) == Some(s[i]),
{
    assert(has_post(s, s[i].id));
}

/// Two user tables whose rows carry the same ids, row by row, hold the same
/// ids and keep them unique alike.
pub proof fn lemma_same_user_ids(a: Seq<User>, b: Seq<User>)
    requires
        a.len() == b.len(),
        forall|k: int| 0 <= k < a.len() ==> #[trigger] a[k].id == b[k].id,
    ensures
        forall|x: u128| has_user(a, x) ==> has_user(b, x),
        unique_user_ids(a) ==> unique_user_ids(b),
{
    assert forall|x: u128| has_user(a, x) implies has_user(b, x) by {
        let k = choose|k: int| 0 <= k < a.len() && a[k].id == x;
        assert(b[k].id == x);
    }
    if unique_user_ids(a) {
        assert forall|i: int, j: int| 0 <= i < b.len() && 0 <= j < b.len() && i != j implies b[i].id
            != b[j].id by {
            assert(a[i].id == b[i].id && a[j].id == b[j].id);
        }
    }
}

/// Two post tables whose rows carry the same ids and owners, row by row, hold
/// the same ids and keep them unique alike.
pub proof fn lemma_same_post_ids(a: Seq<Post>, b: Seq<Post>)
    requires
        a.len() == b.len(),
        forall|k: int| 0 <= k < a.len() ==> #[trigger] a[k].id == b[k].id && a[k].user_id == b[k].user_id,
    ensures
        unique_post_ids(a) ==> unique_post_ids(b),
{
    if unique_post_ids(a) {
        assert forall|i: int, j: int| 0 <= i < b.len() && 0 <= j < b.len() && i != j implies b[i].id
            != b[j].id by {
            assert(a[i].id == b[i].id && a[j].id == b[j].id);
        }
    }
}

/// The rows of both tables. No row is ever removed.
pub struct Store {
    pub users: Vec<User>,
    pub posts: Vec<Post>,
}

impl Store {
    /// Ids are unique within each table, and every post's owner is a user row.
    pub open spec fn wf(&self) -> bool {
        &&& unique_user_ids(self.users@)
        &&& unique_post_ids(self.posts@)
        &&& forall|i: int|
            0 <= i < self.posts@.len() ==> has_user(self.users@, #[trigger] self.posts@[i].user_id)
    }

    /// An empty store.
    pub fn new() -> (r: Store)
        ensures
            r.wf(),
            r.users@ == Seq::<User>::empty(),
            r.posts@ == Seq::<Post>::empty(),
    {
        Store { users: Vec::new(), posts: Vec::new() }
    }

    fn user_index(&self, id: u128) -> (r: Option<usize>)
        requires
            self.wf(),
        ensures
            r is None <==> !has_user(self.users@, id),
            r matches Some(i) ==> i < self.users@.len() && self.users@[i as int].id == id
                && user_with_id(self.users@, id) == Some(self.users@[i as int]),
    {
        let mut i: usize = 0;
        while i < self.users.len()
            invariant
                self.wf(),
                i <= self.users@.len(),
                forall|k: int| 0 <= k < i ==> self.users@[k].id != id,
            decreases self.users@.len() - i,
        {
            if self.users[i].id == id {
                proof {
                    lemma_user_at(self.users@, i as int);
                }
                return Some(i);
            }
            i += 1;
        }
        None
    }

    fn post_index(&self, id: u128) -> (r: Option<usize>)
        requires
            self.wf(),
        ensures
            r is None <==> !has_post(self.posts@, id),
            r matches Some(i) ==> i < self.posts@.len() && self.posts@[i as int].id == id
                && post_with_id(self.posts@, id) == Some(self.posts@[i as int]),
    {
        let mut i: usize = 0;
        while i < self.posts.len()
            invariant
                self.wf(),
                i <= self.posts@.len(),
                forall|k: int| 0 <= k < i ==> self.posts@[k].id != id,
            decreases self.posts@.len() - i,
        {
            if self.posts[i].id == id {
                proof {
                    lemma_post_at(self.posts@, i as int);
                }
                return Some(i);
            }
            i += 1;
        }
        None
    }

    /// The user row with the id `id`, deleted or not.
    pub fn find_user(&self, id: u128) -> (r: Option<User>)
        requires
            self.wf(),
        ensures
            r == user_with_id(self.users@, id),
    {
        match self.user_index(id) {
            Some(i) => Some(self.users[i].duplicate()),
            None => None,
        }
    }

    /// The post row with the id `id`, if it is active.
    pub fn find_active_post(&self, id: u128) -> (r: Option<Post>)
        requires
            self.wf(),
        ensures
            r == active_post_with_id(self.posts@, id),
    {
        match self.post_index(id) {
            Some(i) => {
                if self.posts[i].deleted_at.is_none() {
                    Some(self.posts[i].duplicate())
                } else {
                    None
                }
            },
            None => None,
        }
    }

    /// The active users, in row order.
    pub fn list_active_users(&self) -> (r: Vec<User>)
        ensures
            r@ == active_users(self.users@),
    {
        let mut r: Vec<User> = Vec::new();
        let mut i: usize = 0;
        while i < self.users.len()
            invariant
                i <= self.users@.len(),
                r@ == active_users(self.users@.take(i as int)),
            decreases self.users@.len() - i,
        {
            proof {
                assert(self.users@.take(i + 1).drop_last() =~= self.users@.take(i as int));
            }
            if self.users[i].deleted_at.is_none() {
                r.push(self.users[i].duplicate());
            }
            i += 1;
        }
        proof {
            assert(self.users@.take(self.users@.len() as int) =~= self.users@);
        }
        r
    }

    /// The active posts, in row order.
    pub fn list_active_posts(&self) -> (r: Vec<Post>)
        ensures
            r@ == active_posts(self.posts@),
    {
        let mut r: Vec<Post> = Vec::new();
        let mut i: usize = 0;
        while i < self.posts.len()
            invariant
                i <= self.posts@.len(),
                r@ == active_posts(self.posts@.take(i as int)),
            decreases self.posts@.len() - i,
        {
            proof {
                assert(self.posts@.take(i + 1).drop_last() =~= self.posts@.take(i as int));
            }
            if self.posts[i].deleted_at.is_none() {
                r.push(self.posts[i].duplicate());
            }
            i += 1;
        }
        proof {
            assert(self.posts@.take(self.posts@.len() as int) =~= self.posts@);
        }
        r
    }

    /// Adds a user row, refused when its id is taken.
    pub fn insert_user(&mut self, u: User) -> (r: Result<(), StoreError>)
        requires
            old(self).wf(),
        ensures
            final(self).wf(),
            r is Err <==> has_user(old(self).users@, u.id),
            r is Err ==> r == Err::<(), StoreError>(StoreError::DuplicateId) && final(self).users@
                == old(self).users@,
            r is Ok ==> final(self).users@ == old(self).users@.push(u),
            final(self).posts@ == old(self).posts@,
    {
        match self.user_index(u.id) {
            Some(_) => Err(StoreError::DuplicateId),
            None => {
                let ghost before = self.users@;
                self.users.push(u);
                proof {
                    assert forall|x: u128| has_user(before, x) implies has_user(self.users@, x) by {
                        let k = choose|k: int| 0 <= k < before.len() && before[k].id == x;
                        assert(self.users@[k].id == x);
                    }
                }
                Ok(())
            },
        }
    }

    /// Adds a post row, refused when its id is taken or its owner is not a
    /// user row (deleted or not).
    pub fn insert_post(&mut self, p: Post) -> (r: Result<(), StoreError>)
        requires
            old(self).wf(),
        ensures
            final(self).wf(),
            r == Err::<(), StoreError>(StoreError::DuplicateId) <==> has_post(old(self).posts@, p.id),
            r == Err::<(), StoreError>(StoreError::UnknownUser) <==> !has_post(old(self).posts@, p.id)
                && !has_user(old(self).users@, p.user_id),
            r is Ok ==> final(self).posts@ == old(self).posts@.push(p),
            r is Err ==> final(self).posts@ == old(self).posts@,
            final(self).users@ == old(self).users@,
    {
        if self.post_index(p.id).is_some() {
            return Err(StoreError::DuplicateId);
        }
        if self.user_index(p.user_id).is_none() {
            return Err(StoreError::UnknownUser);
        }
        self.posts.push(p);
        Ok(())
    }

    /// Gives the user row `id` the nick `nick` and the update time `now`,
    /// whether it is deleted or not, and returns the row as it now stands.
    pub fn update_user(&mut self, id: u128, nick: String, now: Timestamp) -> (r: Option<User>)
        requires
            old(self).wf(),
        ensures
            final(self).wf(),
            final(self).users@ == renamed_users(old(self).users@, id, nick, now),
            final(self).posts@ == old(self).posts@,
            r == user_with_id(final(self).users@, id),
            r is Some <==> has_user(old(self).users@, id),
    {
        let ghost before = self.users@;
        match self.user_index(id) {
            Some(i) => {
                self.users[i].nick = nick;
                self.users[i].updated_at = now;
                proof {
                    assert(self.users@ =~= renamed_users(before, id, nick, now));
                    lemma_same_user_ids(before, self.users@);
                    lemma_user_at(self.users@, i as int);
                }
                Some(self.users[i].duplicate())
            },
            None => {
                proof {
                    assert(self.users@ =~= renamed_users(before, id, nick, now));
                }
                None
            },
        }
    }

    /// Marks the user row `id` deleted at `now`, whatever its state; returns
    /// how many rows that touched.
    pub fn soft_delete_user(&mut self, id: u128, now: Timestamp) -> (r: usize)
        requires
            old(self).wf(),
        ensures
            final(self).wf(),
            final(self).users@ == users_deleted(old(self).users@, id, now),
            final(self).posts@ == old(self).posts@,
            r == (if has_user(old(self).users@, id) { 1usize } else { 0usize }),
    {
        let ghost before = self.users@;
        match self.user_index(id) {
            Some(i) => {
                self.users[i].deleted_at = Some(now);
                proof {
                    assert(self.users@ =~= users_deleted(before, id, now));
                    lemma_same_user_ids(before, self.users@);
                }
                1
            },
            None => {
                proof {
                    assert(self.users@ =~= users_deleted(before, id, now));
                }
                0
            },
        }
    }

    /// Gives the post row `id` the title `title`, the body `body` and the
    /// update time `now`, whether it is deleted or not, and returns the row as
    /// it now stands.
    pub fn update_post(&mut self, id: u128, title: String, body: String, now: Timestamp) -> (r: Option<Post>)
        requires
            old(self).wf(),
        ensures
            final(self).wf(),
            final(self).posts@ == edited_posts(old(self).posts@, id, title, body, now),
            final(self).users@ == old(self).users@,
            r == post_with_id(final(self).posts@, id),
            r is Some <==> has_post(old(self).posts@, id),
    {
        let ghost before = self.posts@;
        match self.post_index(id) {
            Some(i) => {
                self.posts[i].title = title;
                self.posts[i].body = body;
                self.posts[i].updated_at = now;
                proof {
                    assert(self.posts@ =~= edited_posts(before, id, title, body, now));
                    lemma_same_post_ids(before, self.posts@);
                    lemma_post_at(self.posts@, i as int);
                }
                Some(self.posts[i].duplicate())
            },
            None => {
                proof {
                    assert(self.posts@ =~= edited_posts(before, id, title, body, now));
                }
                None
            },
        }
    }

    /// Marks the post row `id` deleted at `now`, whatever its state; returns
    /// how many rows that touched.
    pub fn soft_delete_post(&mut self, id: u128, now: Timestamp) -> (r: usize)
        requires
            old(self).wf(),
        ensures
            final(self).wf(),
            final(self).posts@ == post_deleted(old(self).posts@, id, now),
            final(self).users@ == old(self).users@,
            r == (if has_post(old(self).posts@, id) { 1usize } else { 0usize }),
    {
        let ghost before = self.posts@;
        match self.post_index(id) {
            Some(i) => {
                self.posts[i].deleted_at = Some(now);
                proof {
                    assert(self.posts@ =~= post_deleted(before, id, now));
                    lemma_same_post_ids(before, self.posts@);
                }
                1
            },
            None => {
                proof {
                    assert(self.posts@ =~= post_deleted(before, id, now));
                }
                0
            },
        }
    }

    /// Marks every post of `user_id` deleted at `now`, whatever its state;
    /// returns how many rows that touched.
    pub fn soft_delete_posts_of(&mut self, user_id: u128, now: Timestamp) -> (r: usize)
        requires
            old(self).wf(),
        ensures
            final(self).wf(),
            final(self).posts@ == posts_of_deleted(old(self).posts@, user_id, now),
            final(self).users@ == old(self).users@,
            r as nat == owned_count(old(self).posts@, user_id),
    {
        let ghost before = self.posts@;
        let mut count: usize = 0;
        let mut i: usize = 0;
        while i < self.posts.len()
            invariant
                i <= self.posts@.len(),
                self.posts@.len() == before.len(),
                self.users@ == old(self).users@,
                before == old(self).posts@,
                forall|k: int| 0 <= k < i ==> #[trigger] self.posts@[k] == (if before[k].user_id == user_id {
                    Post { deleted_at: Some(now), ..before[k] }
                } else {
                    before[k]
                }),
                forall|k: int| i <= k < before.len() ==> #[trigger] self.posts@[k] == before[k],
                count as nat == owned_count(before.take(i as int), user_id),
                count <= i,
            decreases before.len() - i,
        {
            proof {
                assert(before.take(i + 1).drop_last() =~= before.take(i as int));
            }
            if self.posts[i].user_id == user_id {
                self.posts[i].deleted_at = Some(now);
                count += 1;
            }
            i += 1;
        }
        proof {
            assert(before.take(before.len() as int) =~= before);
            assert(self.posts@ =~= posts_of_deleted(before, user_id, now));
            lemma_same_post_ids(before, self.posts@);
        }
        count
    }
}

} // verus!
