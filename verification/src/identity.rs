//! The identity store: user records, found by name or by session token.

use crate::credentials::{uuid_text, TOKEN_LENGTH};
use crate::models::{copy_text, views, NewUser, User, UserView};
use vstd::pervasive::VecAdditionalExecFns;
use vstd::prelude::*;

verus! {

/// Why the store did not do what was asked.
#[derive(Clone, Copy, Debug, PartialEq, Eq, Structural)]
pub enum StoreError {
    /// The username is already present.
    Conflict,
    /// The store can take no more records.
    StorageUnavailable,
}

/// Whether `i` is the position of the first user with the given name.
pub open spec fn first_named(users: Seq<UserView>, name: Seq<char>, i: int) -> bool {
    &&& 0 <= i < users.len()
    &&& users[i].username == name
    &&& forall|j: int| 0 <= j < i ==> (#[trigger] users[j]).username != name
}

/// Whether some user has the given name.
pub open spec fn username_taken(users: Seq<UserView>, name: Seq<char>) -> bool {
    exists|i: int| 0 <= i < users.len() && (#[trigger] users[i]).username == name
}

/// The user with the given name.
pub open spec fn user_named(users: Seq<UserView>, name: Seq<char>) -> Option<UserView> {
    if exists|i: int| first_named(users, name, i) {
        Some(users[choose|i: int| first_named(users, name, i)])
    } else {
        None
    }
}

/// Whether `i` is the position of the first user whose live token is `token`.
pub open spec fn first_holding(users: Seq<UserView>, token: Seq<char>, i: int) -> bool {
    &&& 0 <= i < users.len()
    &&& users[i].session_token == Some(token)
    &&& forall|j: int| 0 <= j < i ==> (#[trigger] users[j]).session_token != Some(token)
}

/// Whether `token` is some user's live token.
pub open spec fn token_live(users: Seq<UserView>, token: Seq<char>) -> bool {
    exists|i: int| 0 <= i < users.len() && (#[trigger] users[i]).session_token == Some(token)
}

/// The user whose live token is `token`.
pub open spec fn token_holder(users: Seq<UserView>, token: Seq<char>) -> Option<UserView> {
    if exists|i: int| first_holding(users, token, i) {
        Some(users[choose|i: int| first_holding(users, token, i)])
    } else {
        None
    }
}

/// The users after the user `id` was given the live token `token`: every
/// other field, and every other user, is unchanged.
pub open spec fn with_token(users: Seq<UserView>, id: i32, token: Seq<char>) -> Seq<UserView> {
    Seq::new(
        users.len(),
        |i: int|
            if users[i].id == id {
                UserView { session_token: Some(token), ..users[i] }
            } else {
                users[i]
            },
    )
}

/// Whether some user has the given id.
pub open spec fn id_known(users: Seq<UserView>, id: i32) -> bool {
    exists|i: int| 0 <= i < users.len() && (#[trigger] users[i]).id == id
}

/// The agents among the users, in the order of their ids.
pub open spec fn agents_of(users: Seq<UserView>) -> Seq<UserView> {
    users.filter(|u: UserView| u.is_agent())
}

/// No two users share a live session token.
pub open spec fn tokens_distinct(users: Seq<UserView>) -> bool {
    forall|i: int, j: int|
        0 <= i < j < users.len() && (#[trigger] users[i]).session_token is Some
            ==> users[i].session_token != (#[trigger] users[j]).session_token
}

/// What holds of the records of every store: ids are positive, ascend with
/// the order of creation and lie below the next id to assign, and no two
/// users share a name.
pub open spec fn consistent(users: Seq<UserView>, next_id: i32) -> bool {
    &&& 1 <= next_id
    &&& forall|i: int| 0 <= i < users.len() ==> 1 <= (#[trigger] users[i]).id < next_id
    &&& forall|i: int, j: int|
        0 <= i < j < users.len() ==> (#[trigger] users[i]).id < (#[trigger] users[j]).id
    &&& forall|i: int, j: int|
        0 <= i < j < users.len() ==> (#[trigger] users[i]).username != (
        #[trigger] users[j]).username
}

/// The user records, in the order of their creation.
#[derive(Debug)]
pub struct IdentityStore {
    users: Vec<User>,
    next_id: i32,
}

impl View for IdentityStore {
    type V = Seq<UserView>;

    closed spec fn view(&self) -> Seq<UserView> {
        views(self.users@)
    }
}

impl IdentityStore {
    /// The id that the next user gets.
    pub closed spec fn next_id(&self) -> i32 {
        self.next_id
    }

    /// The store's invariant.
    pub open spec fn wf(&self) -> bool {
        consistent(self@, self.next_id())
    }

    /// Whether the store has run out of ids.
    pub open spec fn is_full(&self) -> bool {
        self.next_id() == i32::MAX
    }

    /// Whether this store holds what `other` holds.
    pub open spec fn same_as(&self, other: &IdentityStore) -> bool {
        self@ == other@ && self.next_id() == other.next_id()
    }

    /// Whether this store holds what `other` holds and, after it, `created`.
    pub open spec fn extends(&self, other: &IdentityStore, created: UserView) -> bool {
        self@ == other@.push(created) && self.next_id() == other.next_id() + 1
    }

    /// A store without users.
    pub fn new() -> (store: IdentityStore)
        ensures
            store.wf(),
            store@ == Seq::<UserView>::empty(),
            store.next_id() == 1,
    {
        IdentityStore { users: Vec::new(), next_id: 1 }
    }

    /// A store without users whose ids go on from `next_id`, for records
    /// of which the earlier ones are kept elsewhere. `None` where `next_id`
    /// is not positive.
    pub fn resuming(next_id: i32) -> (r: Option<IdentityStore>)
        ensures
            r is Some <==> next_id >= 1,
            r matches Some(store) ==> store.wf() && store@ == Seq::<UserView>::empty()
                && store.next_id() == next_id,
    {
        if next_id >= 1 {
            Some(IdentityStore { users: Vec::new(), next_id })
        } else {
            None
        }
    }

    /// The number of users.
    pub fn len(&self) -> (n: usize)
        ensures
            n == self@.len(),
    {
        self.users.len()
    }

    /// The user with the given name, by exact match. Absence is no error.
    pub fn find_by_username(&self, name: &str) -> (r: Option<&User>)
        ensures
            match r {
                Some(user) => user_named(self@, name@) == Some(user@),
                None => user_named(self@, name@) is None,
            },
            r is Some <==> username_taken(self@, name@),
    {
        let wanted = name.to_owned();
        let mut i: usize = 0;
        while i < self.users.len()
            invariant
                i <= self.users@.len(),
                wanted@ == name@,
                forall|j: int| 0 <= j < i ==> (#[trigger] self@[j]).username != name@,
            decreases self.users@.len() - i,
        {
            if self.users[i].username == wanted {
                assert(first_named(self@, name@, i as int));
                return Some(&self.users[i]);
            }
            i = i + 1;
        }
        None
    }

    /// The user whose live session token is `token`, by exact match.
    /// Absence is no error.
    pub fn find_by_session_token(&self, token: &str) -> (r: Option<&User>)
        ensures
            match r {
                Some(user) => token_holder(self@, token@) == Some(user@),
                None => token_holder(self@, token@) is None,
            },
            r is Some <==> token_live(self@, token@),
    {
        let wanted = token.to_owned();
        let mut i: usize = 0;
        while i < self.users.len()
            invariant
                i <= self.users@.len(),
                wanted@ == token@,
                forall|j: int| 0 <= j < i ==> (#[trigger] self@[j]).session_token != Some(token@),
            decreases self.users@.len() - i,
        {
            let holds = match &self.users[i].session_token {
                Some(live) => *live == wanted,
                None => false,
            };
            if holds {
                assert(first_holding(self@, token@, i as int));
                return Some(&self.users[i]);
            }
            i = i + 1;
        }
        None
    }

    /// Creates a user. The store assigns the next id; `now` becomes the
    /// creation time. A name that is present is a conflict, and a store that
    /// has run out of ids is unavailable; either way nothing changes.
    pub fn create(&mut self, request: NewUser, now: i64) -> (r: Result<User, StoreError>)
        requires
            old(self).wf(),
        ensures
            final(self).wf(),
            match r {
                Ok(user) => {
                    &&& !username_taken(old(self)@, request@.username)
                    &&& !old(self).is_full()
                    &&& user@ == request@.stored(old(self).next_id(), now)
                    &&& final(self)@ == old(self)@.push(user@)
                    &&& final(self).next_id() == old(self).next_id() + 1
                },
                Err(e) => {
                    &&& final(self)@ == old(self)@
                    &&& final(self).next_id() == old(self).next_id()
                    &&& e == if username_taken(old(self)@, request@.username) {
                        StoreError::Conflict
                    } else {
                        StoreError::StorageUnavailable
                    }
                    &&& username_taken(old(self)@, request@.username) || old(self).is_full()
                },
            },
    {
        if self.find_by_username(request.username.as_str()).is_some() {
            return Err(StoreError::Conflict);
        }
        if self.next_id == i32::MAX {
            return Err(StoreError::StorageUnavailable);
        }
        let user = User {
            id: self.next_id,
            username: request.username,
            password_hash: request.password_hash,
            user_type: request.user_type,
            ai_profile: request.ai_profile,
            created_at: now,
            session_token: request.session_token,
        };
        let stored = user.clone();
        let ghost before = self@;
        self.users.push(user);
        self.next_id = self.next_id + 1;
        assert(self@ =~= before.push(stored@));
        Ok(stored)
    }

    /// Makes `token` the live session token of the user `id`, whatever the
    /// user's token was. Returns whether there is such a user; without one
    /// nothing changes.
    pub fn assign_session_token(&mut self, id: i32, token: String) -> (known: bool)
        requires
            old(self).wf(),
        ensures
            final(self).wf(),
            known == id_known(old(self)@, id),
            final(self)@ == with_token(old(self)@, id, token@),
            final(self).next_id() == old(self).next_id(),
    {
        let mut i: usize = 0;
        while i < self.users.len()
            invariant
                i <= self.users@.len(),
                self.wf(),
                *self == *old(self),
                forall|j: int| 0 <= j < i ==> (#[trigger] self@[j]).id != id,
            decreases self.users@.len() - i,
        {
            if self.users[i].id == id {
                let ghost before = self@;
                let current = &self.users[i];
                let updated = User {
                    id: current.id,
                    username: current.username.clone(),
                    password_hash: current.password_hash.clone(),
                    user_type: current.user_type.clone(),
                    ai_profile: copy_text(&current.ai_profile),
                    created_at: current.created_at,
                    session_token: Some(token),
                };
                self.users.set(i, updated);
                proof {
                    let after = with_token(before, id, token@);
                    assert forall|j: int| 0 <= j < before.len() implies self@[j] == after[j] by {
                        if j > i {
                            assert(before[i as int].id < before[j].id);
                        }
                    }
                    assert(self@ =~= after);
                }
                return true;
            }
            i = i + 1;
        }
        false
    }

    /// Issues a fresh session token to the user `id` and returns it. Any
    /// earlier token of that user stops being live at once. `None`, and no
    /// change, where there is no such user.
    pub fn issue_session_token(&mut self, id: i32) -> (r: Option<String>)
        requires
            old(self).wf(),
        ensures
            final(self).wf(),
            r is Some <==> id_known(old(self)@, id),
            final(self).next_id() == old(self).next_id(),
            match r {
                Some(token) => token@.len() == TOKEN_LENGTH && final(self)@ == with_token(
                    old(self)@,
                    id,
                    token@,
                ),
                None => final(self)@ == old(self)@,
            },
    {
        let token = uuid_text();
        let issued = token.clone();
        if self.assign_session_token(id, token) {
            Some(issued)
        } else {
            None
        }
    }

    /// The agents, in the order of their ids.
    pub fn agents(&self) -> (found: Vec<User>)
        ensures
            views(found@) == agents_of(self@),
    {
        let mut found: Vec<User> = Vec::new();
        let mut i: usize = 0;
        proof {
            reveal(Seq::filter);
        }
        while i < self.users.len()
            invariant
                i <= self.users@.len(),
                views(found@) == agents_of(self@.take(i as int)),
            decreases self.users@.len() - i,
        {
            proof {
                self@.lemma_take_succ_push(i as int);
                self@.take(i as int).lemma_filter_push(self@[i as int], |u: UserView| u.is_agent());
            }
            if self.users[i].is_agent() {
                let agent = self.users[i].clone();
                found.push(agent);
            }
            i = i + 1;
        }
        assert(self@.take(i as int) =~= self@);
        found
    }
}

} // verus!
