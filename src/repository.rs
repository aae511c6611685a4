use vstd::prelude::*;
use crate::model::{NewSession, NewUser, Session, SessionView, User, UserView};

verus! {

/// A failure reported by a store.
#[derive(Debug, Clone, Copy, PartialEq, Eq, Structural)]
pub enum StoreError {
    /// An insert would duplicate a unique key.
    UniqueViolation,
    /// Any other failure of the storage engine.
    Other,
}

/// The row that inserting `s` leaves in a session table, up to the audit times
/// that the store sets.
pub open spec fn row_from_new(row: SessionView, s: NewSession) -> bool {
    &&& row.id == s.id
    &&& row.user_id == s.user_id
    &&& row.platform == s.platform@
    &&& row.sub_platform == s.sub_platform@
    &&& row.refreshed_at == Some(s.refreshed_at)
    &&& row.expires_at == s.expires_at
    &&& row.status == s.status
}

/// `new` is `old` with new refresh and expiry times; the store may also move
/// its update time.
pub open spec fn row_refreshed(old: SessionView, new: SessionView, refreshed_at: i64, expires_at: i64) -> bool {
    &&& new.id == old.id
    &&& new.user_id == old.user_id
    &&& new.platform == old.platform
    &&& new.sub_platform == old.sub_platform
    &&& new.refreshed_at == Some(refreshed_at)
    &&& new.expires_at == expires_at
    &&& new.status == old.status
    &&& new.created_at == old.created_at
}

/// A row that the clean-up after login removes: one of the user's sessions
/// that expired before `cutoff`.
pub open spec fn purged(row: SessionView, user_id: i64, cutoff: i64) -> bool {
    row.user_id == user_id && row.expires_at < cutoff
}

/// `table` without the rows that the clean-up after login removes.
pub open spec fn purge(table: Map<u128, SessionView>, user_id: i64, cutoff: i64) -> Map<u128, SessionView> {
    table.restrict(table.dom().filter(|id: u128| !purged(table[id], user_id, cutoff)))
}

/// `after` is `before` with one new row, made from `s`.
pub open spec fn session_created(before: Map<u128, SessionView>, after: Map<u128, SessionView>, s: NewSession) -> bool {
    &&& !before.contains_key(s.id)
    &&& after.contains_key(s.id)
    &&& row_from_new(after[s.id], s)
    &&& after.remove(s.id) == before
}

/// `after` is `before` with the row `id`, if there is one, refreshed.
pub open spec fn session_refreshed(
    before: Map<u128, SessionView>,
    after: Map<u128, SessionView>,
    id: u128,
    refreshed_at: i64,
    expires_at: i64,
) -> bool {
    &&& after.dom() == before.dom()
    &&& forall|k: u128| #[trigger] after.contains_key(k) && k != id ==> after[k] == before[k]
    &&& before.contains_key(id) ==> row_refreshed(before[id], after[id], refreshed_at, expires_at)
}

/// What a lookup by id finds in `table`.
pub open spec fn session_lookup(table: Map<u128, SessionView>, id: u128) -> Option<SessionView> {
    if table.contains_key(id) {
        Some(table[id])
    } else {
        None
    }
}

pub open spec fn session_views(v: Seq<Session>) -> Seq<SessionView> {
    v.map_values(|s: Session| s@)
}

/// `rows` lists, each once, exactly the sessions of `user_id` in `table`.
pub open spec fn lists_user_sessions(rows: Seq<SessionView>, table: Map<u128, SessionView>, user_id: i64) -> bool {
    &&& forall|i: int| 0 <= i < rows.len() ==> #[trigger] rows[i].user_id == user_id
        && table.contains_key(rows[i].id) && table[rows[i].id] == rows[i]
    &&& forall|id: u128| #[trigger] table.contains_key(id) && table[id].user_id == user_id
        ==> exists|i: int| 0 <= i < rows.len() && #[trigger] rows[i].id == id
    &&& forall|i: int, j: int| 0 <= i < j < rows.len() ==> rows[i].id != rows[j].id
}

/// Persistence of session records, keyed by session id.
pub trait SessionRepository {
    /// The session rows, by id. A store implemented outside verified code
    /// (a database) keeps this default: nothing checks such a store against
    /// the contracts below, and what they promise holds only of stores that
    /// model their rows here, as `InMemoryStore` does.
    closed spec fn session_table(&self) -> Map<u128, SessionView> {
        Map::empty()
    }

    /// The store's own consistency, kept by every operation.
    closed spec fn sessions_valid(&self) -> bool {
        true
    }

    /// The store answers every call: lookups and updates succeed, and an
    /// insert fails only on a duplicate id. A store that cannot promise this
    /// keeps the default, whose body callers do not see.
    closed spec fn sessions_answer(&self) -> bool {
        false
    }

    fn get_session_by_id(&self, id: u128) -> (r: Result<Option<Session>, StoreError>)
        requires
            self.sessions_valid(),
        ensures
            r matches Ok(found) ==> match found {
                Some(s) => session_lookup(self.session_table(), id) == Some(s@),
                None => session_lookup(self.session_table(), id) is None,
            },
            self.sessions_answer() ==> r is Ok,
    ;

    fn get_sessions_by_user_id(&self, user_id: i64) -> (r: Result<Vec<Session>, StoreError>)
        requires
            self.sessions_valid(),
        ensures
            r matches Ok(v) ==> lists_user_sessions(session_views(v@), self.session_table(), user_id),
            self.sessions_answer() ==> r is Ok,
    ;

    fn create_session(&mut self, session: &NewSession) -> (r: Result<usize, StoreError>)
        requires
            old(self).sessions_valid(),
        ensures
            final(self).sessions_valid(),
            r is Ok ==> session_created(old(self).session_table(), final(self).session_table(), *session),
            old(self).sessions_answer() && !old(self).session_table().contains_key(session.id) ==> r is Ok,
            old(self).sessions_answer() && old(self).session_table().contains_key(session.id) ==> r
                == Err::<usize, StoreError>(StoreError::UniqueViolation),
            final(self).sessions_answer() == old(self).sessions_answer(),
            r is Err ==> final(self).session_table() == old(self).session_table(),
    ;

    /// Removes the sessions of `user_id` that expired before `cutoff`.
    fn delete_expired_active_sessions(&mut self, user_id: i64, cutoff: i64) -> (r: Result<usize, StoreError>)
        requires
            old(self).sessions_valid(),
        ensures
            final(self).sessions_valid(),
            r is Ok ==> final(self).session_table() == purge(old(self).session_table(), user_id, cutoff),
            r matches Ok(n) ==> n as int == old(self).session_table().dom().len()
                - final(self).session_table().dom().len(),
            old(self).sessions_answer() ==> r is Ok,
            final(self).sessions_answer() == old(self).sessions_answer(),
            r is Err ==> final(self).session_table() == old(self).session_table(),
    ;

    fn update_refreshed_timestamps(&mut self, id: u128, refreshed_at: i64, expires_at: i64) -> (r: Result<usize, StoreError>)
        requires
            old(self).sessions_valid(),
        ensures
            final(self).sessions_valid(),
            r is Ok ==> session_refreshed(old(self).session_table(), final(self).session_table(), id, refreshed_at, expires_at),
            r matches Ok(n) ==> n == (if old(self).session_table().contains_key(id) { 1usize } else { 0usize }),
            old(self).sessions_answer() ==> r is Ok,
            final(self).sessions_answer() == old(self).sessions_answer(),
            r is Err ==> final(self).session_table() == old(self).session_table(),
    ;
}

/// What a lookup by user name finds among `users`.
pub open spec fn user_lookup(users: Seq<UserView>, username: Seq<char>, found: Option<UserView>) -> bool {
    match found {
        Some(u) => u.username == username && users.contains(u),
        None => forall|i: int| 0 <= i < users.len() ==> #[trigger] users[i].username != username,
    }
}

/// Some user of `users` is called `username`.
pub open spec fn name_taken(users: Seq<UserView>, username: Seq<char>) -> bool {
    exists|i: int| 0 <= i < users.len() && #[trigger] users[i].username == username
}

/// The row that inserting `u` appends to a user table, up to what the store
/// assigns (id and audit times).
pub open spec fn user_row_from_new(row: UserView, u: NewUser) -> bool {
    &&& row.username == u.username@
    &&& row.email == u.email@
    &&& row.password == u.password@
    &&& row.password_version == u.password_version
    &&& row.date_of_birth == u.date_of_birth
    &&& row.status == u.status
}

/// Persistence of user credential records.
pub trait UserRepository {
    /// The user rows. A store implemented outside verified code keeps this
    /// default: nothing checks such a store against the contracts below, and
    /// what they promise holds only of stores that model their rows here.
    closed spec fn user_table(&self) -> Seq<UserView> {
        Seq::empty()
    }

    /// The store's own consistency, kept by every operation.
    closed spec fn users_valid(&self) -> bool {
        true
    }

    /// The store answers every call: lookups succeed, and an insert fails
    /// only on a duplicate user name. A store that cannot promise this keeps
    /// the default, whose body callers do not see.
    closed spec fn users_answer(&self) -> bool {
        false
    }

    /// Looks a user up by the exact name given.
    fn get_user_by_username(&self, username: &str) -> (r: Result<Option<User>, StoreError>)
        requires
            self.users_valid(),
        ensures
            r matches Ok(found) ==> match found {
                Some(u) => user_lookup(self.user_table(), username@, Some(u@)),
                None => user_lookup(self.user_table(), username@, None),
            },
            self.users_answer() ==> r is Ok,
    ;

    fn create_user(&mut self, new_user: &NewUser) -> (r: Result<usize, StoreError>)
        requires
            old(self).users_valid(),
        ensures
            final(self).users_valid(),
            r matches Ok(n) ==> n == 1,
            old(self).users_answer() && !name_taken(old(self).user_table(), new_user.username@) ==> r is Ok,
            old(self).users_answer() && name_taken(old(self).user_table(), new_user.username@) ==> r
                == Err::<usize, StoreError>(StoreError::UniqueViolation),
            final(self).users_answer() == old(self).users_answer(),
            r is Ok ==> {
                &&& final(self).user_table().len() == old(self).user_table().len() + 1
                &&& final(self).user_table().drop_last() == old(self).user_table()
                &&& user_row_from_new(final(self).user_table().last(), *new_user)
            },
            r is Err ==> final(self).user_table() == old(self).user_table(),
    ;
}

} // verus!
