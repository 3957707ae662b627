//! An in-memory table of sessions.
//!
//! The table behaves as the session operations expect of a transactional
//! store: it assigns ids and timestamps on insert, applies a filtered update
//! to every selected row at once or not at all, and refuses writes while it
//! is read-only.

use crate::new_session::{NewSession, NewSessionView};
use crate::query::{
    first_matching, first_updated, matching, updated, SessionChange, SessionChangeView,
    SessionFilter, SessionFilterView,
};
use crate::session::{view_of_found, views, Session, SessionView, Timestamp};
use vstd::prelude::*;

verus! {

/// Why the store could not carry out an operation.
#[derive(Clone, Copy, Debug, PartialEq, Eq, Structural)]
pub enum StorageError {
    /// The store cannot be reached.
    Unavailable,
    /// The store accepts no writes.
    ReadOnly,
    /// The session refers to a user the store does not know.
    UnknownUser,
    /// No further session id can be assigned.
    IdsExhausted,
}

/// Which operations the store currently accepts.
#[derive(Clone, Copy, Debug, PartialEq, Eq, Structural)]
pub enum Availability {
    /// Reads and writes.
    ReadWrite,
    /// Reads only: every write fails with `StorageError::ReadOnly`.
    ReadOnly,
    /// Nothing: every operation fails with `StorageError::Unavailable`.
    Offline,
}

/// The sessions table, with the users it may refer to and its clock.
pub struct SessionTable {
    rows: Vec<Session>,
    users: Vec<i32>,
    next_id: i32,
    clock: Timestamp,
    availability: Availability,
}

/// The state of the table, as plain mathematical values.
pub struct SessionTableView {
    /// All sessions ever inserted, revoked ones included, oldest first.
    pub rows: Seq<SessionView>,
    /// The ids of the known users.
    pub users: Seq<i32>,
    /// The id that the next inserted session gets.
    pub next_id: i32,
    /// The current time of the store.
    pub clock: Timestamp,
    pub availability: Availability,
}

impl SessionTableView {
    /// The invariant of the table: every row is valid and was last used no
    /// later than now, and ids are positive, below `next_id`, and strictly
    /// increasing in stored order, hence unique.
    pub open spec fn wf(self) -> bool {
        &&& self.next_id >= 1
        &&& forall|i: int|
            0 <= i < self.rows.len() ==> {
                &&& (#[trigger] self.rows[i]).valid()
                &&& self.rows[i].last_used_at.micros <= self.clock.micros
                &&& 1 <= self.rows[i].id < self.next_id
            }
        &&& forall|i: int, j: int|
            0 <= i < j < self.rows.len() ==> (#[trigger] self.rows[i]).id < (
            #[trigger] self.rows[j]).id
    }

    /// The error with which a read fails, if it does.
    pub open spec fn read_refusal(self) -> Option<StorageError> {
        match self.availability {
            Availability::Offline => Some(StorageError::Unavailable),
            _ => None,
        }
    }

    /// The error with which an update fails, if it does.
    pub open spec fn write_refusal(self) -> Option<StorageError> {
        match self.availability {
            Availability::Offline => Some(StorageError::Unavailable),
            Availability::ReadOnly => Some(StorageError::ReadOnly),
            Availability::ReadWrite => None,
        }
    }

    /// The error with which the insertion of `new` fails, if it does.
    pub open spec fn insert_refusal(self, new: NewSessionView) -> Option<StorageError> {
        if self.write_refusal() is Some {
            self.write_refusal()
        } else if !self.users.contains(new.user_id) {
            Some(StorageError::UnknownUser)
        } else if self.next_id == i32::MAX {
            Some(StorageError::IdsExhausted)
        } else {
            None
        }
    }

    /// The row that is stored for `new`: it gets the next id, is created and
    /// last used now, and is active.
    pub open spec fn stored(self, new: NewSessionView) -> SessionView {
        SessionView {
            id: self.next_id,
            user_id: new.user_id,
            hashed_token: new.hashed_token,
            created_at: self.clock,
            last_used_at: self.clock,
            revoked: false,
            last_ip_address: new.last_ip_address,
            last_user_agent: new.last_user_agent,
        }
    }

    /// The table after `new` was inserted.
    pub open spec fn inserted(self, new: NewSessionView) -> SessionTableView {
        SessionTableView {
            rows: self.rows.push(self.stored(new)),
            next_id: (self.next_id + 1) as i32,
            ..self
        }
    }

    /// The table after `change` was applied to the rows that `filter` selects.
    pub open spec fn changed(
        self,
        filter: SessionFilterView,
        change: SessionChangeView,
    ) -> SessionTableView {
        SessionTableView { rows: updated(self.rows, filter, change, self.clock), ..self }
    }
}

/// Filtering one more row either appends that row or changes nothing.
pub proof fn lemma_matching_step(rows: Seq<SessionView>, filter: SessionFilterView, k: int)
    requires
        0 <= k < rows.len(),
    ensures
        matching(rows.take(k + 1), filter) == if filter.matches(rows[k]) {
            matching(rows.take(k), filter).push(rows[k])
        } else {
            matching(rows.take(k), filter)
        },
{
    reveal(Seq::filter);
    assert(rows.take(k + 1).drop_last() =~= rows.take(k));
}

/// The rows selected among the first `k` are the first rows selected overall.
pub proof fn lemma_matching_prefix(rows: Seq<SessionView>, filter: SessionFilterView, k: int)
    requires
        0 <= k <= rows.len(),
    ensures
        matching(rows.take(k), filter).is_prefix_of(matching(rows, filter)),
    decreases rows.len() - k,
{
    if k < rows.len() {
        lemma_matching_prefix(rows, filter, k + 1);
        lemma_matching_step(rows, filter, k);
    } else {
        assert(rows.take(k) =~= rows);
    }
}

/// Applies `change` at time `now` to every row that `filter` selects. Returns
/// the number of rows changed and the first of them, as it is afterwards.
fn update_rows(
    rows: &mut Vec<Session>,
    filter: &SessionFilter,
    change: &SessionChange,
    now: Timestamp,
) -> (outcome: (usize, Option<Session>))
    ensures
        views(final(rows)@) == updated(views(old(rows)@), filter@, change@, now),
        outcome.0 == matching(views(old(rows)@), filter@).len(),
        view_of_found(outcome.1) == first_updated(views(old(rows)@), filter@, change@, now),
{
    let ghost before = views(rows@);
    let mut count: usize = 0;
    let mut first: Option<Session> = None;
    let mut i: usize = 0;
    proof {
        reveal(Seq::filter);
        assert(before.take(0) =~= Seq::<SessionView>::empty());
    }
    while i < rows.len()
        invariant
            i <= rows.len(),
            rows.len() == before.len(),
            forall|k: int| 0 <= k < i ==> (#[trigger] rows@[k])@ == updated(before, filter@, change@, now)[k],
            forall|k: int| i <= k < rows.len() ==> (#[trigger] rows@[k])@ == before[k],
            count == matching(before.take(i as int), filter@).len(),
            count <= i,
            view_of_found(first) == first_updated(before.take(i as int), filter@, change@, now),
        decreases rows.len() - i,
    {
        proof {
            lemma_matching_step(before, filter@, i as int);
        }
        if filter.matches(&rows[i]) {
            let changed = change.apply(&rows[i], now);
            if first.is_none() {
                first = Some(changed.clone());
            }
            rows.set(i, changed);
            count = count + 1;
        }
        i = i + 1;
    }
    proof {
        assert(before.take(i as int) =~= before);
        assert(views(rows@) =~= updated(before, filter@, change@, now));
    }
    (count, first)
}

/// Copies the rows that `filter` selects, in their stored order.
fn select_rows(rows: &Vec<Session>, filter: &SessionFilter) -> (selected: Vec<Session>)
    ensures
        views(selected@) == matching(views(rows@), filter@),
{
    let ghost all = views(rows@);
    let mut selected: Vec<Session> = Vec::new();
    let mut i: usize = 0;
    proof {
        reveal(Seq::filter);
        assert(all.take(0) =~= Seq::<SessionView>::empty());
        assert(views(selected@) =~= matching(all.take(0), filter@));
    }
    while i < rows.len()
        invariant
            i <= rows.len(),
            all == views(rows@),
            views(selected@) == matching(all.take(i as int), filter@),
        decreases rows.len() - i,
    {
        proof {
            lemma_matching_step(all, filter@, i as int);
        }
        if filter.matches(&rows[i]) {
            let ghost earlier = selected@;
            selected.push(rows[i].clone());
            assert(views(selected@) =~= views(earlier).push(all[i as int]));
        }
        i = i + 1;
    }
    proof {
        assert(all.take(i as int) =~= all);
    }
    selected
}

/// Copies the first row that `filter` selects, if there is one.
fn first_row(rows: &Vec<Session>, filter: &SessionFilter) -> (found: Option<Session>)
    ensures
        view_of_found(found) == first_matching(views(rows@), filter@),
{
    let ghost all = views(rows@);
    let mut i: usize = 0;
    proof {
        reveal(Seq::filter);
        assert(all.take(0) =~= Seq::<SessionView>::empty());
    }
    while i < rows.len()
        invariant
            i <= rows.len(),
            all == views(rows@),
            matching(all.take(i as int), filter@).len() == 0,
        decreases rows.len() - i,
    {
        proof {
            lemma_matching_step(all, filter@, i as int);
        }
        if filter.matches(&rows[i]) {
            proof {
                lemma_matching_prefix(all, filter@, i + 1);
                let head = matching(all.take(i + 1), filter@);
                assert(head.len() == 1 && head[0] == all[i as int]);
                assert(matching(all, filter@)[0] == head[0]);
            }
            return Some(rows[i].clone());
        }
        i = i + 1;
    }
    proof {
        assert(all.take(i as int) =~= all);
    }
    None
}

/// Changing rows keeps the table's invariant: ids, digests and creation
/// times stay, and a touched row was last used now.
pub proof fn lemma_changed_wf(
    table: SessionTableView,
    filter: SessionFilterView,
    change: SessionChangeView,
)
    requires
        table.wf(),
    ensures
        table.changed(filter, change).wf(),
{
    let after = table.changed(filter, change);
    assert forall|i: int| 0 <= i < after.rows.len() implies {
        &&& (#[trigger] after.rows[i]).valid()
        &&& after.rows[i].last_used_at.micros <= after.clock.micros
        &&& 1 <= after.rows[i].id < after.next_id
    } by {
        assert(table.rows[i].valid());
    }
    assert forall|i: int, j: int| 0 <= i < j < after.rows.len() implies (#[trigger] after.rows[i]).id
        < (#[trigger] after.rows[j]).id by {
        assert(table.rows[i].id < table.rows[j].id);
    }
}

/// Tests whether `users` holds `user_id`.
fn holds_user(users: &Vec<i32>, user_id: i32) -> (known: bool)
    ensures
        known == users@.contains(user_id),
{
    let mut i: usize = 0;
    while i < users.len()
        invariant
            i <= users.len(),
            forall|k: int| 0 <= k < i ==> users@[k] != user_id,
        decreases users.len() - i,
    {
        if users[i] == user_id {
            return true;
        }
        i = i + 1;
    }
    false
}

impl View for SessionTable {
    type V = SessionTableView;

    closed spec fn view(&self) -> SessionTableView {
        SessionTableView {
            rows: views(self.rows@),
            users: self.users@,
            next_id: self.next_id,
            clock: self.clock,
            availability: self.availability,
        }
    }
}

impl SessionTable {
    #[verifier::type_invariant]
    spec fn well_formed(self) -> bool {
        self@.wf()
    }

    /// An empty table that accepts reads and writes, knows no user, and
    /// whose clock stands at the epoch.
    pub fn new() -> (table: SessionTable)
        ensures
            table@ == (SessionTableView {
                rows: Seq::empty(),
                users: Seq::empty(),
                next_id: 1,
                clock: Timestamp { micros: 0 },
                availability: Availability::ReadWrite,
            }),
            table@.wf(),
    {
        let table = SessionTable {
            rows: Vec::new(),
            users: Vec::new(),
            next_id: 1,
            clock: Timestamp { micros: 0 },
            availability: Availability::ReadWrite,
        };
        assert(views(table.rows@) =~= Seq::<SessionView>::empty());
        table
    }

    /// Sets which operations the table accepts from now on.
    pub fn set_availability(&mut self, availability: Availability)
        ensures
            final(self)@ == (SessionTableView { availability, ..old(self)@ }),
            final(self)@.wf(),
    {
        proof {
            use_type_invariant(&*self);
        }
        self.availability = availability;
    }

    /// Moves the clock forward to `now`. The clock never runs backwards: an
    /// earlier `now` leaves it where it is.
    pub fn advance_clock(&mut self, now: Timestamp)
        ensures
            final(self)@ == (SessionTableView {
                clock: if now.micros > old(self)@.clock.micros {
                    now
                } else {
                    old(self)@.clock
                },
                ..old(self)@
            }),
            final(self)@.wf(),
    {
        proof {
            use_type_invariant(&*self);
        }
        if now.micros > self.clock.micros {
            self.clock = now;
        }
    }

    /// Makes `user_id` known, so that sessions may refer to it.
    pub fn add_user(&mut self, user_id: i32)
        ensures
            final(self)@ == (SessionTableView {
                users: old(self)@.users.push(user_id),
                ..old(self)@
            }),
            final(self)@.wf(),
    {
        proof {
            use_type_invariant(&*self);
        }
        let mut users = Vec::new();
        std::mem::swap(&mut users, &mut self.users);
        users.push(user_id);
        self.users = users;
    }

    /// Skips ids, so that the next inserted session gets `next_id` or a
    /// later id. Ids are never handed out twice: an earlier `next_id` leaves
    /// the sequence where it is.
    pub fn skip_ids_to(&mut self, next_id: i32)
        ensures
            final(self)@ == (SessionTableView {
                next_id: if next_id > old(self)@.next_id {
                    next_id
                } else {
                    old(self)@.next_id
                },
                ..old(self)@
            }),
            final(self)@.wf(),
    {
        proof {
            use_type_invariant(&*self);
        }
        if next_id > self.next_id {
            self.next_id = next_id;
        }
    }

    /// The current time of the store.
    pub fn now(&self) -> (now: Timestamp)
        ensures
            now == self@.clock,
    {
        self.clock
    }

    /// Which operations the table accepts.
    pub fn availability(&self) -> (availability: Availability)
        ensures
            availability == self@.availability,
    {
        self.availability
    }

    /// Copies every row, revoked ones included, in stored order.
    pub fn snapshot(&self) -> (rows: Vec<Session>)
        ensures
            views(rows@) == self@.rows,
            self@.wf(),
    {
        proof {
            use_type_invariant(self);
        }
        let mut rows: Vec<Session> = Vec::new();
        let mut i: usize = 0;
        assert(views(rows@) =~= self@.rows.take(0));
        while i < self.rows.len()
            invariant
                i <= self.rows.len(),
                views(rows@) == self@.rows.take(i as int),
            decreases self.rows.len() - i,
        {
            let ghost earlier = rows@;
            rows.push(self.rows[i].clone());
            assert(views(rows@) =~= views(earlier).push(self@.rows[i as int]));
            assert(self@.rows.take(i + 1) =~= self@.rows.take(i as int).push(self@.rows[i as int]));
            i = i + 1;
        }
        assert(self@.rows.take(i as int) =~= self@.rows);
        rows
    }

    /// Inserts `new` and returns the stored row, with its assigned id and
    /// timestamps. Fails, leaving the table as it was, when the table refuses
    /// writes, does not know the user, or has run out of ids.
    pub fn insert_returning(&mut self, new: NewSession) -> (result: Result<Session, StorageError>)
        ensures
            old(self)@.wf(),
            final(self)@.wf(),
            match old(self)@.insert_refusal(new@) {
                Some(error) => result == Err::<Session, StorageError>(error) && final(self)@ == old(self)@,
                None => {
                    &&& result matches Ok(session)
                    &&& session@ == old(self)@.stored(new@)
                    &&& final(self)@ == old(self)@.inserted(new@)
                },
            },
    {
        proof {
            use_type_invariant(&*self);
        }
        match self.availability {
            Availability::Offline => {
                return Err(StorageError::Unavailable);
            },
            Availability::ReadOnly => {
                return Err(StorageError::ReadOnly);
            },
            Availability::ReadWrite => {},
        }
        if !holds_user(&self.users, new.user_id()) {
            return Err(StorageError::UnknownUser);
        }
        if self.next_id == i32::MAX {
            return Err(StorageError::IdsExhausted);
        }
        let session = Session {
            id: self.next_id,
            user_id: new.user_id(),
            hashed_token: new.hashed_token().clone(),
            created_at: self.clock,
            last_used_at: self.clock,
            revoked: false,
            last_ip_address: new.last_ip_address(),
            last_user_agent: new.last_user_agent().clone(),
        };
        assert(session.hashed_token@ =~= new@.hashed_token);
        let stored = session.clone();
        let ghost before = self@;
        let mut rows = Vec::new();
        std::mem::swap(&mut rows, &mut self.rows);
        assert(views(self.rows@) =~= Seq::<SessionView>::empty());
        rows.push(session);
        assert(views(rows@) =~= before.rows.push(before.stored(new@)));
        self.next_id = self.next_id + 1;
        self.rows = rows;
        Ok(stored)
    }

    /// Applies `change` to every row that `filter` selects, as one atomic
    /// step, and returns the first changed row as it is afterwards. Fails,
    /// leaving the table as it was, when the table refuses writes, whether
    /// or not a row is selected.
    pub fn update_returning(&mut self, filter: &SessionFilter, change: &SessionChange) -> (result:
        Result<Option<Session>, StorageError>)
        ensures
            old(self)@.wf(),
            final(self)@.wf(),
            match old(self)@.write_refusal() {
                Some(error) => result == Err::<Option<Session>, StorageError>(error) && final(self)@ == old(self)@,
                None => {
                    &&& result matches Ok(found)
                    &&& view_of_found(found) == first_updated(
                        old(self)@.rows,
                        filter@,
                        change@,
                        old(self)@.clock,
                    )
                    &&& final(self)@ == old(self)@.changed(filter@, change@)
                },
            },
    {
        match self.update_all(filter, change) {
            Ok(outcome) => Ok(outcome.1),
            Err(error) => Err(error),
        }
    }

    /// Applies `change` to every row that `filter` selects, as one atomic
    /// step, and returns how many rows it changed. Fails as
    /// `update_returning` does.
    pub fn execute_update(&mut self, filter: &SessionFilter, change: &SessionChange) -> (result:
        Result<usize, StorageError>)
        ensures
            old(self)@.wf(),
            final(self)@.wf(),
            match old(self)@.write_refusal() {
                Some(error) => result == Err::<usize, StorageError>(error) && final(self)@ == old(self)@,
                None => {
                    &&& result == Ok::<usize, StorageError>(
                        matching(old(self)@.rows, filter@).len() as usize,
                    )
                    &&& matching(old(self)@.rows, filter@).len() <= usize::MAX
                    &&& final(self)@ == old(self)@.changed(filter@, change@)
                },
            },
    {
        match self.update_all(filter, change) {
            Ok(outcome) => Ok(outcome.0),
            Err(error) => Err(error),
        }
    }

    /// The update that both public forms share.
    fn update_all(&mut self, filter: &SessionFilter, change: &SessionChange) -> (result: Result<
        (usize, Option<Session>),
        StorageError,
    >)
        ensures
            old(self)@.wf(),
            final(self)@.wf(),
            match old(self)@.write_refusal() {
                Some(error) => result == Err::<(usize, Option<Session>), StorageError>(error)
                    && final(self)@ == old(self)@,
                None => {
                    &&& result matches Ok(outcome)
                    &&& outcome.0 == matching(old(self)@.rows, filter@).len()
                    &&& view_of_found(outcome.1) == first_updated(
                        old(self)@.rows,
                        filter@,
                        change@,
                        old(self)@.clock,
                    )
                    &&& final(self)@ == old(self)@.changed(filter@, change@)
                },
            },
    {
        proof {
            use_type_invariant(&*self);
        }
        match self.availability {
            Availability::Offline => {
                return Err(StorageError::Unavailable);
            },
            Availability::ReadOnly => {
                return Err(StorageError::ReadOnly);
            },
            Availability::ReadWrite => {},
        }
        let ghost before = self@;
        proof {
            lemma_changed_wf(before, filter@, change@);
        }
        let mut rows = Vec::new();
        std::mem::swap(&mut rows, &mut self.rows);
        assert(views(self.rows@) =~= Seq::<SessionView>::empty());
        let outcome = update_rows(&mut rows, filter, change, self.clock);
        self.rows = rows;
        Ok(outcome)
    }

    /// Returns the first row that `filter` selects, if there is one. Fails
    /// only when the table cannot be reached.
    pub fn first(&self, filter: &SessionFilter) -> (result: Result<Option<Session>, StorageError>)
        ensures
            self@.wf(),
            match self@.read_refusal() {
                Some(error) => result == Err::<Option<Session>, StorageError>(error),
                None => {
                    &&& result matches Ok(found)
                    &&& view_of_found(found) == first_matching(self@.rows, filter@)
                },
            },
    {
        proof {
            use_type_invariant(self);
        }
        match self.availability {
            Availability::Offline => Err(StorageError::Unavailable),
            _ => Ok(first_row(&self.rows, filter)),
        }
    }

    /// Returns every row that `filter` selects, in stored order. Fails only
    /// when the table cannot be reached.
    pub fn get_results(&self, filter: &SessionFilter) -> (result: Result<Vec<Session>, StorageError>)
        ensures
            self@.wf(),
            match self@.read_refusal() {
                Some(error) => result == Err::<Vec<Session>, StorageError>(error),
                None => {
                    &&& result matches Ok(selected)
                    &&& views(selected@) == matching(self@.rows, filter@)
                },
            },
    {
        proof {
            use_type_invariant(self);
        }
        match self.availability {
            Availability::Offline => Err(StorageError::Unavailable),
            _ => Ok(select_rows(&self.rows, filter)),
        }
    }
}

} // verus!
