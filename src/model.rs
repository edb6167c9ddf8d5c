//! The records kept by the store: users, posts, and their timestamps.

use vstd::prelude::*;
use crate::clock::{datetime_text, micros_in_range, now_micros, render_micros, MIN_MICROS, MAX_MICROS};

verus! {

/// An instant, as microseconds from the Unix epoch, always within the range
/// that timestamps can be rendered in.
#[derive(Clone, Copy, Debug)]
pub struct Timestamp {
    micros: i64,
}

impl View for Timestamp {
    type V = int;

    closed spec fn view(&self) -> int {
        self.micros as int
    }
}

impl Timestamp {
    #[verifier::type_invariant]
    closed spec fn in_range(self) -> bool {
        micros_in_range(self.micros as int)
    }

    /// The instant `m` microseconds after the epoch, or `None` when it lies
    /// outside the representable range.
    pub fn from_micros(m: i64) -> (r: Option<Timestamp>)
        ensures
            r is Some <==> micros_in_range(m as int),
            r matches Some(t) ==> t@ == m as int,
    {
        if MIN_MICROS <= m && m <= MAX_MICROS {
            Some(Timestamp { micros: m })
        } else {
            None
        }
    }

    /// Microseconds from the epoch.
    pub fn micros(&self) -> (r: i64)
        ensures
            r as int == self@,
            micros_in_range(r as int),
    {
        proof {
            use_type_invariant(self);
        }
        self.micros
    }

    /// The current instant.
    pub fn now() -> (r: Timestamp)
        ensures
            r@ >= 0,
    {
        let m = now_micros();
        Timestamp { micros: m }
    }

    /// The display text of this instant.
    pub fn render(&self) -> (r: String)
        ensures
            r@ == text_of(*self),
    {
        let m = self.micros();
        render_micros(m)
    }
}

/// The display text of a timestamp, as responses carry it.
pub open spec fn text_of(t: Timestamp) -> Seq<char> {
    datetime_text(t@)
}

/// A user row. `deleted_at` is `None` while the user is active.
pub struct User {
    pub id: u128,
    pub nick: String,
    pub created_at: Timestamp,
    pub updated_at: Timestamp,
    pub deleted_at: Option<Timestamp>,
}

impl User {
    /// A field-by-field copy.
    pub fn duplicate(&self) -> (r: User)
        ensures
            r == *self,
    {
        User {
            id: self.id,
            nick: self.nick.clone(),
            created_at: self.created_at,
            updated_at: self.updated_at,
            deleted_at: self.deleted_at,
        }
    }

    /// A freshly created, active user: both timestamps are `now`.
    pub fn new_record(id: u128, nick: String, now: Timestamp) -> (r: User)
        ensures
            r == new_user(id, nick, now),
    {
        User { id, nick, created_at: now, updated_at: now, deleted_at: None }
    }
}

/// The user that creation with these values produces.
pub open spec fn new_user(id: u128, nick: String, now: Timestamp) -> User {
    User { id, nick, created_at: now, updated_at: now, deleted_at: None }
}

/// A post row, owned by the user `user_id`.
pub struct Post {
    pub id: u128,
    pub user_id: u128,
    pub title: String,
    pub body: String,
    pub created_at: Timestamp,
    pub updated_at: Timestamp,
    pub deleted_at: Option<Timestamp>,
}

impl Post {
    /// A field-by-field copy.
    pub fn duplicate(&self) -> (r: Post)
        ensures
            r == *self,
    {
        Post {
            id: self.id,
            user_id: self.user_id,
            title: self.title.clone(),
            body: self.body.clone(),
            created_at: self.created_at,
            updated_at: self.updated_at,
            deleted_at: self.deleted_at,
        }
    }

    /// A freshly created, active post: both timestamps are `now`.
    pub fn new_record(id: u128, user_id: u128, title: String, body: String, now: Timestamp) -> (r: Post)
        ensures
            r == new_post(id, user_id, title, body, now),
    {
        Post { id, user_id, title, body, created_at: now, updated_at: now, deleted_at: None }
    }
}

/// The post that creation with these values produces.
pub open spec fn new_post(id: u128, user_id: u128, title: String, body: String, now: Timestamp) -> Post {
    Post { id, user_id, title, body, created_at: now, updated_at: now, deleted_at: None }
}

} // verus!
