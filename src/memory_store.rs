use vstd::prelude::*;
use crate::model::{NewSession, NewUser, Session, SessionStatus, SessionView, User, UserView};
use crate::repository::{
    lists_user_sessions, purge, purged, row_from_new, row_refreshed, session_lookup, session_views,
    user_lookup, user_row_from_new, SessionRepository, StoreError, UserRepository,
};

verus! {

fn copy_session(s: &Session) -> (r: Session)
    ensures
        r@ == s@,
{
    Session {
        id: s.id,
        user_id: s.user_id,
        platform: s.platform.clone(),
        sub_platform: s.sub_platform.clone(),
        refreshed_at: s.refreshed_at,
        expires_at: s.expires_at,
        status: s.status,
        created_at: s.created_at,
        updated_at: s.updated_at,
    }
}

fn copy_user(u: &User) -> (r: User)
    ensures
        r@ == u@,
{
    User {
        id: u.id,
        username: u.username.clone(),
        email: u.email.clone(),
        password: u.password.clone(),
        password_version: u.password_version,
        date_of_birth: u.date_of_birth,
        status: u.status,
        created_at: u.created_at,
        updated_at: u.updated_at,
    }
}

/// Session and user records held in memory. Rows carry the creation time of
/// the session as their audit times; user rows carry none (zero). Users are
/// numbered from 1; the number stops growing at `i64::MAX`.
pub struct InMemoryStore {
    sessions: Vec<Session>,
    table: Ghost<Map<u128, SessionView>>,
    users: Vec<User>,
    next_user_id: i64,
}

impl InMemoryStore {
    /// An empty store.
    pub fn new() -> (r: Self)
        ensures
            r.sessions_valid(),
            r.users_valid(),
            r.sessions_answer(),
            r.users_answer(),
            r.session_table() == Map::<u128, SessionView>::empty(),
            r.user_table() == Seq::<UserView>::empty(),
    {
        let r = InMemoryStore {
            sessions: Vec::new(),
            table: Ghost(Map::empty()),
            users: Vec::new(),
            next_user_id: 1,
        };
        assert(r.user_table() =~= Seq::<UserView>::empty());
        r
    }

    /// Sets the status of the session `id`, if it is stored: the way an
    /// administrator revokes a session.
    pub fn set_session_status(&mut self, id: u128, status: SessionStatus) -> (found: bool)
        requires
            old(self).sessions_valid(),
        ensures
            final(self).sessions_valid(),
            final(self).sessions_answer() == old(self).sessions_answer(),
            final(self).user_table() == old(self).user_table(),
            final(self).users_answer() == old(self).users_answer(),
            found == old(self).session_table().contains_key(id),
            found ==> final(self).session_table() == old(self).session_table().insert(
                id,
                SessionView { status, ..old(self).session_table()[id] },
            ),
            !found ==> final(self).session_table() == old(self).session_table(),
    {
        let i = match self.position_of(id) {
            Some(i) => i,
            None => return false,
        };
        let old_row = copy_session(&self.sessions[i]);
        let row = Session { status, ..old_row };
        let ghost new_table = self.table@.insert(id, row@);
        self.sessions.set(i, row);
        self.table = Ghost(new_table);
        proof {
            self.lemma_replaced_row(*old(self), i as int);
        }
        true
    }

    /// The index of the row `id`, if any.
    fn position_of(&self, id: u128) -> (r: Option<usize>)
        requires
            self.sessions_valid(),
        ensures
            r matches Some(i) ==> i < self.sessions@.len() && self.sessions@[i as int].id == id
                && self.table@.contains_key(id) && self.table@[id] == self.sessions@[i as int]@,
            r is None ==> !self.table@.contains_key(id),
    {
        let mut i: usize = 0;
        while i < self.sessions.len()
            invariant
                self.sessions_valid(),
                0 <= i <= self.sessions@.len(),
                forall|k: int| 0 <= k < i ==> self.sessions@[k].id != id,
            decreases self.sessions@.len() - i,
        {
            if self.sessions[i].id == id {
                assert(self.table@.contains_key(self.sessions@[i as int].id));
                return Some(i);
            }
            i += 1;
        }
        None
    }

    /// After row `i` of `prev` was replaced by one with the same id, and the
    /// table entry for that id was replaced with the new row, the store is
    /// consistent again.
    proof fn lemma_replaced_row(&self, prev: InMemoryStore, i: int)
        requires
            prev.sessions_valid(),
            0 <= i < prev.sessions@.len(),
            self.sessions@ == prev.sessions@.update(i, self.sessions@[i]),
            self.sessions@[i].id == prev.sessions@[i].id,
            self.table@ == prev.table@.insert(prev.sessions@[i].id, self.sessions@[i]@),
        ensures
            self.sessions_valid(),
    {
        let rows = prev.sessions@;
        let table = prev.table@;
        assert(table.contains_key(rows[i].id));
        assert forall|k: int| 0 <= k < self.sessions@.len() implies #[trigger] self.table@.contains_key(
            self.sessions@[k].id,
        ) && self.table@[self.sessions@[k].id] == self.sessions@[k]@ by {
            if k != i {
                assert(table.contains_key(rows[k].id));
            }
        }
        assert forall|id: u128| #[trigger] self.table@.contains_key(id) implies exists|k: int|
            0 <= k < self.sessions@.len() && self.sessions@[k].id == id by {
            if id != rows[i].id {
                assert(table.contains_key(id));
                let k = choose|k: int| 0 <= k < rows.len() && rows[k].id == id;
                assert(self.sessions@[k].id == id);
            } else {
                assert(self.sessions@[i].id == id);
            }
        }
    }
}

impl InMemoryStore {
    /// The table has one row per stored session.
    proof fn lemma_table_size(&self)
        requires
            self.sessions_valid(),
        ensures
            self.table@.dom().finite(),
            self.table@.dom().len() == self.sessions@.len(),
    {
        let ids = self.sessions@.map_values(|s: Session| s.id);
        assert forall|i: int, j: int| 0 <= i < ids.len() && 0 <= j < ids.len() && i != j implies ids[i]
            != ids[j] by {
            if i < j {
                assert(self.sessions@[i].id != self.sessions@[j].id);
            } else {
                assert(self.sessions@[j].id != self.sessions@[i].id);
            }
        }
        assert(ids.no_duplicates());
        assert forall|id: u128| self.table@.dom().contains(id) <==> ids.to_set().contains(id) by {
            if self.table@.contains_key(id) {
                let k = choose|k: int| 0 <= k < self.sessions@.len() && self.sessions@[k].id == id;
                assert(ids[k] == id);
            }
            if ids.to_set().contains(id) {
                let k = choose|k: int| 0 <= k < ids.len() && ids[k] == id;
                assert(self.table@.contains_key(self.sessions@[k].id));
            }
        }
        assert(self.table@.dom() =~= ids.to_set());
        ids.unique_seq_to_set();
        vstd::seq_lib::seq_to_set_is_finite(ids);
    }
}

impl SessionRepository for InMemoryStore {
    closed spec fn session_table(&self) -> Map<u128, SessionView> {
        self.table@
    }

    closed spec fn sessions_answer(&self) -> bool {
        true
    }

    closed spec fn sessions_valid(&self) -> bool {
        &&& forall|i: int| 0 <= i < self.sessions@.len() ==> #[trigger] self.table@.contains_key(
            self.sessions@[i].id,
        ) && self.table@[self.sessions@[i].id] == self.sessions@[i]@
        &&& forall|id: u128| #[trigger] self.table@.contains_key(id) ==> exists|i: int|
            0 <= i < self.sessions@.len() && self.sessions@[i].id == id
        &&& forall|i: int, j: int|
            0 <= i < j < self.sessions@.len() ==> self.sessions@[i].id != self.sessions@[j].id
    }

    fn get_session_by_id(&self, id: u128) -> (r: Result<Option<Session>, StoreError>) {
        match self.position_of(id) {
            Some(i) => Ok(Some(copy_session(&self.sessions[i]))),
            None => Ok(None),
        }
    }

    fn get_sessions_by_user_id(&self, user_id: i64) -> (r: Result<Vec<Session>, StoreError>) {
        let mut out: Vec<Session> = Vec::new();
        let ghost mut picked: Seq<int> = Seq::empty();
        let mut i: usize = 0;
        while i < self.sessions.len()
            invariant
                self.sessions_valid(),
                0 <= i <= self.sessions@.len(),
                picked.len() == out@.len(),
                forall|k: int| 0 <= k < picked.len() ==> 0 <= #[trigger] picked[k] < i,
                forall|k: int, j: int| 0 <= k < j < picked.len() ==> picked[k] < picked[j],
                forall|k: int| 0 <= k < picked.len() ==> #[trigger] out@[k]@ == self.sessions@[picked[k]]@
                    && self.sessions@[picked[k]].user_id == user_id,
                forall|m: int| 0 <= m < i && #[trigger] self.sessions@[m].user_id == user_id
                    ==> exists|k: int| 0 <= k < picked.len() && picked[k] == m,
            decreases self.sessions@.len() - i,
        {
            let ghost old_picked = picked;
            let ghost old_out = out@;
            if self.sessions[i].user_id == user_id {
                out.push(copy_session(&self.sessions[i]));
                proof {
                    picked = picked.push(i as int);
                    assert(picked[picked.len() - 1] == i);
                }
            }
            proof {
                assert forall|k: int| 0 <= k < picked.len() implies #[trigger] out@[k]@ == self.sessions@[picked[k]]@
                    && self.sessions@[picked[k]].user_id == user_id by {
                    if k < old_picked.len() {
                        assert(old_out[k] == out@[k]);
                        assert(old_picked[k] == picked[k]);
                    }
                }
                assert forall|m: int| 0 <= m < i + 1 && #[trigger] self.sessions@[m].user_id == user_id
                    implies exists|k: int| 0 <= k < picked.len() && picked[k] == m by {
                    if m == i {
                        assert(picked[picked.len() - 1] == m);
                    } else {
                        let k = choose|k: int| 0 <= k < old_picked.len() && old_picked[k] == m;
                        assert(picked[k] == m);
                    }
                }
            }
            i += 1;
        }
        proof {
            let rows = session_views(out@);
            let table = self.table@;
            assert forall|k: int| 0 <= k < rows.len() implies #[trigger] rows[k].user_id == user_id
                && table.contains_key(rows[k].id) && table[rows[k].id] == rows[k] by {
                assert(rows[k] == out@[k]@);
                assert(table.contains_key(self.sessions@[picked[k]].id));
            }
            assert forall|id: u128| #[trigger] table.contains_key(id) && table[id].user_id == user_id
                implies exists|k: int| 0 <= k < rows.len() && #[trigger] rows[k].id == id by {
                let m = choose|m: int| 0 <= m < self.sessions@.len() && self.sessions@[m].id == id;
                assert(table.contains_key(self.sessions@[m].id));
                assert(self.sessions@[m].user_id == user_id);
                let k = choose|k: int| 0 <= k < picked.len() && picked[k] == m;
                assert(rows[k] == out@[k]@);
                assert(rows[k].id == id);
            }
            assert forall|k: int, j: int| 0 <= k < j < rows.len() implies rows[k].id != rows[j].id by {
                assert(rows[k] == out@[k]@);
                assert(rows[j] == out@[j]@);
                assert(picked[k] < picked[j]);
            }
        }
        Ok(out)
    }

    fn create_session(&mut self, session: &NewSession) -> (r: Result<usize, StoreError>) {
        if self.position_of(session.id).is_some() {
            return Err(StoreError::UniqueViolation);
        }
        let row = Session {
            id: session.id,
            user_id: session.user_id,
            platform: session.platform.clone(),
            sub_platform: session.sub_platform.clone(),
            refreshed_at: Some(session.refreshed_at),
            expires_at: session.expires_at,
            status: session.status,
            created_at: session.refreshed_at,
            updated_at: session.refreshed_at,
        };
        let ghost old_rows = self.sessions@;
        let ghost new_table = self.table@.insert(session.id, row@);
        self.sessions.push(row);
        self.table = Ghost(new_table);
        proof {
            let rows = self.sessions@;
            let n = old_rows.len() as int;
            assert forall|i: int| 0 <= i < rows.len() implies #[trigger] self.table@.contains_key(
                rows[i].id,
            ) && self.table@[rows[i].id] == rows[i]@ by {
                if i < n {
                    assert(rows[i] == old_rows[i]);
                    assert(old(self).table@.contains_key(old_rows[i].id));
                }
            }
            assert forall|id: u128| #[trigger] self.table@.contains_key(id) implies exists|i: int|
                0 <= i < rows.len() && rows[i].id == id by {
                if id != session.id {
                    assert(old(self).table@.contains_key(id));
                    let i = choose|i: int| 0 <= i < old_rows.len() && old_rows[i].id == id;
                    assert(rows[i] == old_rows[i]);
                } else {
                    assert(rows[n].id == id);
                }
            }
            assert forall|i: int, j: int| 0 <= i < j < rows.len() implies rows[i].id != rows[j].id by {
                if j == n {
                    assert(rows[i] == old_rows[i]);
                    assert(old(self).table@.contains_key(old_rows[i].id));
                } else {
                    assert(rows[i] == old_rows[i] && rows[j] == old_rows[j]);
                }
            }
            assert(self.table@.remove(session.id) =~= old(self).table@);
        }
        Ok(1)
    }

    fn delete_expired_active_sessions(&mut self, user_id: i64, cutoff: i64) -> (r: Result<usize, StoreError>) {
        let ghost table = self.table@;
        let ghost kept_table = purge(table, user_id, cutoff);
        let mut kept: Vec<Session> = Vec::new();
        let ghost mut picked: Seq<int> = Seq::empty();
        let mut removed: usize = 0;
        let mut i: usize = 0;
        while i < self.sessions.len()
            invariant
                self.sessions_valid(),
                self.table@ == table,
                0 <= i <= self.sessions@.len(),
                removed + kept@.len() == i,
                picked.len() == kept@.len(),
                forall|k: int| 0 <= k < picked.len() ==> 0 <= #[trigger] picked[k] < i,
                forall|k: int, j: int| 0 <= k < j < picked.len() ==> picked[k] < picked[j],
                forall|k: int| 0 <= k < picked.len() ==> #[trigger] kept@[k]@ == self.sessions@[picked[k]]@
                    && !purged(self.sessions@[picked[k]]@, user_id, cutoff),
                forall|m: int| 0 <= m < i && !purged(#[trigger] self.sessions@[m]@, user_id, cutoff)
                    ==> exists|k: int| 0 <= k < picked.len() && picked[k] == m,
            decreases self.sessions@.len() - i,
        {
            let ghost old_picked = picked;
            let ghost old_kept = kept@;
            if self.sessions[i].user_id == user_id && self.sessions[i].expires_at < cutoff {
                removed += 1;
            } else {
                kept.push(copy_session(&self.sessions[i]));
                proof {
                    picked = picked.push(i as int);
                    assert(picked[picked.len() - 1] == i);
                }
            }
            proof {
                assert forall|k: int| 0 <= k < picked.len() implies #[trigger] kept@[k]@ == self.sessions@[picked[k]]@
                    && !purged(self.sessions@[picked[k]]@, user_id, cutoff) by {
                    if k < old_picked.len() {
                        assert(old_kept[k] == kept@[k]);
                        assert(kept@[k]@ == old_kept[k]@);
                        assert(old_picked[k] == picked[k]);
                    }
                }
                assert forall|m: int| 0 <= m < i + 1 && !purged(#[trigger] self.sessions@[m]@, user_id, cutoff)
                    implies exists|k: int| 0 <= k < picked.len() && picked[k] == m by {
                    if m == i {
                        assert(picked[picked.len() - 1] == m);
                    } else {
                        let k = choose|k: int| 0 <= k < old_picked.len() && old_picked[k] == m;
                        assert(picked[k] == m);
                    }
                }
            }
            i += 1;
        }
        let ghost old_rows = self.sessions@;
        let ghost kept_rows = kept@;
        self.sessions = kept;
        self.table = Ghost(kept_table);
        proof {
            let rows = self.sessions@;
            assert forall|k: int| 0 <= k < rows.len() implies #[trigger] kept_table.contains_key(
                rows[k].id,
            ) && kept_table[rows[k].id] == rows[k]@ by {
                assert(kept_rows[k]@ == old_rows[picked[k]]@);
                assert(table.contains_key(old_rows[picked[k]].id));
            }
            assert forall|id: u128| #[trigger] kept_table.contains_key(id) implies exists|k: int|
                0 <= k < rows.len() && rows[k].id == id by {
                let m = choose|m: int| 0 <= m < old_rows.len() && old_rows[m].id == id;
                assert(table.contains_key(old_rows[m].id));
                assert(!purged(old_rows[m]@, user_id, cutoff));
                let k = choose|k: int| 0 <= k < picked.len() && picked[k] == m;
                assert(kept_rows[k]@ == old_rows[picked[k]]@);
                assert(rows[k].id == id);
            }
            assert forall|k: int, j: int| 0 <= k < j < rows.len() implies rows[k].id != rows[j].id by {
                assert(kept_rows[k]@ == old_rows[picked[k]]@);
                assert(kept_rows[j]@ == old_rows[picked[j]]@);
                assert(picked[k] < picked[j]);
            }
            old(self).lemma_table_size();
            self.lemma_table_size();
        }
        Ok(removed)
    }

    fn update_refreshed_timestamps(&mut self, id: u128, refreshed_at: i64, expires_at: i64) -> (r: Result<usize, StoreError>) {
        let i = match self.position_of(id) {
            Some(i) => i,
            None => return Ok(0),
        };
        let old_row = copy_session(&self.sessions[i]);
        let row = Session {
            refreshed_at: Some(refreshed_at),
            expires_at,
            updated_at: refreshed_at,
            ..old_row
        };
        let ghost new_table = self.table@.insert(id, row@);
        self.sessions.set(i, row);
        self.table = Ghost(new_table);
        proof {
            self.lemma_replaced_row(*old(self), i as int);
            assert(self.table@.dom() =~= old(self).table@.dom());
        }
        Ok(1)
    }
}

impl UserRepository for InMemoryStore {
    closed spec fn user_table(&self) -> Seq<UserView> {
        self.users@.map_values(|u: User| u@)
    }

    closed spec fn users_valid(&self) -> bool {
        true
    }

    closed spec fn users_answer(&self) -> bool {
        true
    }

    fn get_user_by_username(&self, username: &str) -> (r: Result<Option<User>, StoreError>) {
        let name = username.to_owned();
        let mut i: usize = 0;
        while i < self.users.len()
            invariant
                0 <= i <= self.users@.len(),
                name@ == username@,
                forall|k: int| 0 <= k < i ==> #[trigger] self.users@[k].username@ != username@,
            decreases self.users@.len() - i,
        {
            if self.users[i].username == name {
                let u = copy_user(&self.users[i]);
                assert(self.user_table()[i as int] == u@);
                return Ok(Some(u));
            }
            i += 1;
        }
        assert forall|k: int| 0 <= k < self.user_table().len() implies #[trigger] self.user_table()[k].username
            != username@ by {
            assert(self.user_table()[k] == self.users@[k]@);
        }
        Ok(None)
    }

    fn create_user(&mut self, new_user: &NewUser) -> (r: Result<usize, StoreError>) {
        let found = self.get_user_by_username(new_user.username.as_str());
        if !(found matches Ok(None)) {
            return Err(StoreError::UniqueViolation);
        }
        let row = User {
            id: self.next_user_id,
            username: new_user.username.clone(),
            email: new_user.email.clone(),
            password: new_user.password.clone(),
            password_version: new_user.password_version,
            date_of_birth: new_user.date_of_birth,
            status: new_user.status,
            created_at: 0,
            updated_at: 0,
        };
        self.users.push(row);
        if self.next_user_id < i64::MAX {
            self.next_user_id = self.next_user_id + 1;
        }
        assert(self.user_table().drop_last() =~= old(self).user_table());
        Ok(1)
    }
}

} // verus!
