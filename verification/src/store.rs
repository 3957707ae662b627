//! The session operations: insert, lookup with touch, listing and
//! revocation.
//!
//! Each operation states a filter and, for a write, a change, and hands both
//! to the table. The decisions that follow a store's answer are functions of
//! their own, so that a driver for another store takes the same decisions.

use crate::address::IpAddress;
use crate::new_session::NewSession;
use crate::query::{
    first_matching, first_updated, matching, SessionChange, SessionChangeView, SessionFilter,
    SessionFilterView,
};
use crate::session::{view_of_found, views, Session, SessionView};
use crate::table::{SessionTable, SessionTableView, StorageError};
use crate::token::token_digest;
use vstd::prelude::*;

verus! {

/// What a lookup does once its transactional update has ended.
#[derive(Debug, PartialEq, Eq)]
pub enum AfterUpdate {
    /// The update went through: this is the answer.
    Return(Option<Session>),
    /// The store could not write: read with the same filter instead.
    ReadInstead,
}

/// The filter of a lookup by token: the active sessions with the token's
/// digest.
pub open spec fn filter_by_token(token: Seq<char>) -> SessionFilterView {
    SessionFilterView::ActiveWithToken { hashed_token: token_digest(token) }
}

/// The change of a lookup: a use from `ip_address` with `user_agent`.
pub open spec fn touch_from(ip_address: IpAddress, user_agent: Seq<char>) -> SessionChangeView {
    SessionChangeView::Touch { ip_address, user_agent }
}

/// The filter of a revocation: the active session `session_id` of `user_id`.
pub open spec fn filter_owned(user_id: i32, session_id: i32) -> SessionFilterView {
    SessionFilterView::ActiveOwned { id: session_id, user_id }
}

/// The filter of a listing: the active sessions of `user_id`.
pub open spec fn filter_by_user(user_id: i32) -> SessionFilterView {
    SessionFilterView::ActiveOfUser { user_id }
}

impl SessionTableView {
    /// The table after a lookup by `token`. A table that accepts writes
    /// touches every session the token selects; any other table is unchanged.
    pub open spec fn after_lookup(
        self,
        token: Seq<char>,
        ip_address: IpAddress,
        user_agent: Seq<char>,
    ) -> SessionTableView {
        if self.write_refusal() is None {
            self.changed(filter_by_token(token), touch_from(ip_address, user_agent))
        } else {
            self
        }
    }

    /// The answer of a lookup by `token`. A table that accepts writes answers
    /// with the touched session. A table that only reads answers with the
    /// session as it is stored. A table that cannot be reached fails.
    pub open spec fn lookup(
        self,
        token: Seq<char>,
        ip_address: IpAddress,
        user_agent: Seq<char>,
    ) -> Result<Option<SessionView>, StorageError> {
        if self.write_refusal() is None {
            Ok(
                first_updated(
                    self.rows,
                    filter_by_token(token),
                    touch_from(ip_address, user_agent),
                    self.clock,
                ),
            )
        } else {
            match self.read_refusal() {
                Some(error) => Err(error),
                None => Ok(first_matching(self.rows, filter_by_token(token))),
            }
        }
    }

    /// Whether `session_id` is an active session of `user_id`.
    pub open spec fn owns_active(self, user_id: i32, session_id: i32) -> bool {
        exists|i: int|
            0 <= i < self.rows.len() && filter_owned(user_id, session_id).matches(
                #[trigger] self.rows[i],
            )
    }

    /// The table after the revocation of `session_id` on behalf of `user_id`.
    pub open spec fn after_revoke(self, user_id: i32, session_id: i32) -> SessionTableView {
        if self.write_refusal() is None {
            self.changed(filter_owned(user_id, session_id), SessionChangeView::Revoke)
        } else {
            self
        }
    }
}

/// In a well-formed table ids are unique, so a filter by id selects one row
/// if the session is an active one of that user, and none otherwise.
pub proof fn lemma_owned_selects_at_most_one(
    table: SessionTableView,
    user_id: i32,
    session_id: i32,
)
    requires
        table.wf(),
    ensures
        matching(table.rows, filter_owned(user_id, session_id)).len() == if table.owns_active(
            user_id,
            session_id,
        ) {
            1nat
        } else {
            0nat
        },
    decreases table.rows.len(),
{
    let filter = filter_owned(user_id, session_id);
    reveal(Seq::filter);
    if table.rows.len() > 0 {
        let rest = SessionTableView { rows: table.rows.drop_last(), ..table };
        assert forall|i: int| 0 <= i < rest.rows.len() implies {
            &&& (#[trigger] rest.rows[i]).valid()
            &&& rest.rows[i].last_used_at.micros <= rest.clock.micros
            &&& 1 <= rest.rows[i].id < rest.next_id
        } by {
            assert(rest.rows[i] == table.rows[i]);
        }
        assert forall|i: int, j: int| 0 <= i < j < rest.rows.len() implies (
        #[trigger] rest.rows[i]).id < (#[trigger] rest.rows[j]).id by {
            assert(rest.rows[i] == table.rows[i]);
            assert(rest.rows[j] == table.rows[j]);
        }
        lemma_owned_selects_at_most_one(rest, user_id, session_id);
        let last = table.rows.len() - 1;
        if filter.matches(table.rows[last]) {
            assert(table.owns_active(user_id, session_id));
            if rest.owns_active(user_id, session_id) {
                let i = choose|i: int|
                    0 <= i < rest.rows.len() && filter.matches(#[trigger] rest.rows[i]);
                assert(rest.rows[i] == table.rows[i]);
                assert(table.rows[i].id < table.rows[last].id);
            }
        } else {
            if table.owns_active(user_id, session_id) {
                let i = choose|i: int|
                    0 <= i < table.rows.len() && filter.matches(#[trigger] table.rows[i]);
                assert(rest.rows[i] == table.rows[i]);
            } else if rest.owns_active(user_id, session_id) {
                let i = choose|i: int|
                    0 <= i < rest.rows.len() && filter.matches(#[trigger] rest.rows[i]);
                assert(rest.rows[i] == table.rows[i]);
            }
        }
    } else {
        assert(!table.owns_active(user_id, session_id));
    }
}

impl Session {
    /// The filter with which a lookup by `token` selects: the token is
    /// digested here, and only the digest is compared with stored data.
    pub fn by_token(token: &str) -> (filter: SessionFilter)
        ensures
            filter@ == filter_by_token(token@),
    {
        SessionFilter::ActiveWithToken { hashed_token: Session::hash_token(token) }
    }

    /// The change that a lookup from `ip_address` with `user_agent` makes.
    pub fn touch(ip_address: IpAddress, user_agent: &str) -> (change: SessionChange)
        ensures
            change@ == touch_from(ip_address, user_agent@),
    {
        SessionChange::Touch { ip_address, user_agent: user_agent.to_owned() }
    }

    /// Decides how a lookup goes on after its update. Any failure of the
    /// update leads to a plain read. An update that found no session is an
    /// answer, not a failure.
    pub fn after_update(outcome: Result<Option<Session>, StorageError>) -> (next: AfterUpdate)
        ensures
            next == match outcome {
                Ok(found) => AfterUpdate::Return(found),
                Err(_) => AfterUpdate::ReadInstead,
            },
    {
        match outcome {
            Ok(found) => AfterUpdate::Return(found),
            Err(_) => AfterUpdate::ReadInstead,
        }
    }

    /// Decides from the number of rows a revocation changed whether it
    /// revoked a session.
    pub fn revoked_one(changed_rows: usize) -> (revoked: bool)
        ensures
            revoked == (changed_rows == 1),
    {
        changed_rows == 1
    }

    /// Looks for an active session with the given `token` and returns it if
    /// there is one.
    ///
    /// The session's last use is updated in the same step: time, address and
    /// user agent change together. If the table cannot write, the session is
    /// read and returned as it is stored.
    pub fn find_by_token_and_update(
        table: &mut SessionTable,
        token: &str,
        ip_address: IpAddress,
        user_agent: &str,
    ) -> (result: Result<Option<Session>, StorageError>)
        ensures
            old(table)@.wf(),
            final(table)@.wf(),
            final(table)@ == old(table)@.after_lookup(token@, ip_address, user_agent@),
            match old(table)@.lookup(token@, ip_address, user_agent@) {
                Ok(expected) => result matches Ok(found) && view_of_found(found) == expected,
                Err(error) => result == Err::<Option<Session>, StorageError>(error),
            },
    {
        let filter = Session::by_token(token);
        let change = Session::touch(ip_address, user_agent);
        match Session::after_update(table.update_returning(&filter, &change)) {
            AfterUpdate::Return(found) => Ok(found),
            AfterUpdate::ReadInstead => table.first(&filter),
        }
    }

    /// Returns the active sessions of `user_id`, in stored order.
    pub fn find_by_user_id(table: &SessionTable, user_id: i32) -> (result: Result<
        Vec<Session>,
        StorageError,
    >)
        ensures
            table@.wf(),
            match table@.read_refusal() {
                Some(error) => result == Err::<Vec<Session>, StorageError>(error),
                None => {
                    &&& result matches Ok(sessions)
                    &&& views(sessions@) == matching(table@.rows, filter_by_user(user_id))
                },
            },
    {
        table.get_results(&SessionFilter::ActiveOfUser { user_id })
    }

    /// Revokes the session `session_id` if it is active and belongs to
    /// `user_id`. Returns whether a session was revoked: `false` for an
    /// unknown id, another user's session, or one revoked before.
    pub fn revoke(table: &mut SessionTable, user_id: i32, session_id: i32) -> (result: Result<
        bool,
        StorageError,
    >)
        ensures
            old(table)@.wf(),
            final(table)@.wf(),
            final(table)@ == old(table)@.after_revoke(user_id, session_id),
            match old(table)@.write_refusal() {
                Some(error) => result == Err::<bool, StorageError>(error),
                None => result == Ok::<bool, StorageError>(
                    old(table)@.owns_active(user_id, session_id),
                ),
            },
    {
        let filter = SessionFilter::ActiveOwned { id: session_id, user_id };
        let ghost before = table@;
        let outcome = table.execute_update(&filter, &SessionChange::Revoke);
        proof {
            lemma_owned_selects_at_most_one(before, user_id, session_id);
        }
        match outcome {
            Ok(changed_rows) => Ok(Session::revoked_one(changed_rows)),
            Err(error) => Err(error),
        }
    }
}

impl NewSession {
    /// Inserts this session into `table` and returns the stored session,
    /// with its id and timestamps.
    pub fn insert(self, table: &mut SessionTable) -> (result: Result<Session, StorageError>)
        ensures
            old(table)@.wf(),
            final(table)@.wf(),
            match old(table)@.insert_refusal(self@) {
                Some(error) => result == Err::<Session, StorageError>(error) && final(table)@
                    == old(table)@,
                None => {
                    &&& result matches Ok(session)
                    &&& session@ == old(table)@.stored(self@)
                    &&& final(table)@ == old(table)@.inserted(self@)
                },
            },
    {
        table.insert_returning(self)
    }
}

} // verus!
