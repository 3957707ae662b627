//! What the session operations ask of the backing store: which rows to
//! select, and how to change them.
//!
//! Every filter selects active sessions only. A revoked session matches none
//! of them, so it can neither authenticate nor be listed nor be revoked again.

use crate::address::{IpAddress, IpNetwork};
use crate::session::{Session, SessionView, Timestamp};
use vstd::prelude::*;

verus! {

/// A selection of active sessions.
#[derive(Debug, PartialEq, Eq)]
pub enum SessionFilter {
    /// The active sessions whose token has this digest.
    ActiveWithToken { hashed_token: Vec<u8> },
    /// The active sessions of one user.
    ActiveOfUser { user_id: i32 },
    /// The active session with this id, if it belongs to this user.
    ActiveOwned { id: i32, user_id: i32 },
}

/// A filter, as plain mathematical values.
pub enum SessionFilterView {
    ActiveWithToken { hashed_token: Seq<u8> },
    ActiveOfUser { user_id: i32 },
    ActiveOwned { id: i32, user_id: i32 },
}

/// A change applied to every selected session.
#[derive(Debug, PartialEq, Eq)]
pub enum SessionChange {
    /// Record a use: the time, the client's address and its user agent.
    Touch { ip_address: IpAddress, user_agent: String },
    /// Revoke the session.
    Revoke,
}

/// A change, as plain mathematical values.
pub enum SessionChangeView {
    Touch { ip_address: IpAddress, user_agent: Seq<char> },
    Revoke,
}

impl View for SessionFilter {
    type V = SessionFilterView;

    open spec fn view(&self) -> SessionFilterView {
        match self {
            SessionFilter::ActiveWithToken { hashed_token } => SessionFilterView::ActiveWithToken {
                hashed_token: hashed_token@,
            },
            SessionFilter::ActiveOfUser { user_id } => SessionFilterView::ActiveOfUser {
                user_id: *user_id,
            },
            SessionFilter::ActiveOwned { id, user_id } => SessionFilterView::ActiveOwned {
                id: *id,
                user_id: *user_id,
            },
        }
    }
}

impl View for SessionChange {
    type V = SessionChangeView;

    open spec fn view(&self) -> SessionChangeView {
        match self {
            SessionChange::Touch { ip_address, user_agent } => SessionChangeView::Touch {
                ip_address: *ip_address,
                user_agent: user_agent@,
            },
            SessionChange::Revoke => SessionChangeView::Revoke,
        }
    }
}

impl SessionFilterView {
    /// Whether the filter selects `session`. A revoked session is never
    /// selected.
    pub open spec fn matches(self, session: SessionView) -> bool {
        &&& !session.revoked
        &&& match self {
            SessionFilterView::ActiveWithToken { hashed_token } => session.hashed_token
                == hashed_token,
            SessionFilterView::ActiveOfUser { user_id } => session.user_id == user_id,
            SessionFilterView::ActiveOwned { id, user_id } => session.id == id && session.user_id
                == user_id,
        }
    }
}

impl SessionChangeView {
    /// The session after the change, made at time `now`.
    pub open spec fn apply(self, session: SessionView, now: Timestamp) -> SessionView {
        match self {
            SessionChangeView::Touch { ip_address, user_agent } => session.touched(
                now,
                IpNetwork::host(ip_address),
                user_agent,
            ),
            SessionChangeView::Revoke => session.revoked(),
        }
    }
}

/// The rows that `filter` selects, in their stored order.
pub open spec fn matching(rows: Seq<SessionView>, filter: SessionFilterView) -> Seq<SessionView> {
    rows.filter(|session: SessionView| filter.matches(session))
}

/// The rows after `change` was applied at time `now` to each row that
/// `filter` selects. The other rows are as before.
pub open spec fn updated(
    rows: Seq<SessionView>,
    filter: SessionFilterView,
    change: SessionChangeView,
    now: Timestamp,
) -> Seq<SessionView> {
    rows.map_values(
        |session: SessionView|
            if filter.matches(session) {
                change.apply(session, now)
            } else {
                session
            },
    )
}

/// The first row that `filter` selects, if there is one.
pub open spec fn first_matching(rows: Seq<SessionView>, filter: SessionFilterView) -> Option<
    SessionView,
> {
    if matching(rows, filter).len() > 0 {
        Some(matching(rows, filter)[0])
    } else {
        None
    }
}

/// What an update hands back: the first selected row, as it is after the
/// change.
pub open spec fn first_updated(
    rows: Seq<SessionView>,
    filter: SessionFilterView,
    change: SessionChangeView,
    now: Timestamp,
) -> Option<SessionView> {
    match first_matching(rows, filter) {
        Some(session) => Some(change.apply(session, now)),
        None => None,
    }
}

/// Compares two byte strings.
fn same_bytes(left: &Vec<u8>, right: &Vec<u8>) -> (same: bool)
    ensures
        same == (left@ == right@),
{
    if left.len() != right.len() {
        return false;
    }
    let mut i: usize = 0;
    while i < left.len()
        invariant
            i <= left.len(),
            left.len() == right.len(),
            forall|k: int| 0 <= k < i ==> left@[k] == right@[k],
        decreases left.len() - i,
    {
        if left[i] != right[i] {
            return false;
        }
        i = i + 1;
    }
    assert(left@ =~= right@);
    true
}

impl SessionFilter {
    /// Tests whether the filter selects `session`.
    pub fn matches(&self, session: &Session) -> (selected: bool)
        ensures
            selected == self@.matches(session@),
    {
        if session.revoked {
            return false;
        }
        match self {
            SessionFilter::ActiveWithToken { hashed_token } => same_bytes(
                &session.hashed_token,
                hashed_token,
            ),
            SessionFilter::ActiveOfUser { user_id } => session.user_id == *user_id,
            SessionFilter::ActiveOwned { id, user_id } => session.id == *id && session.user_id
                == *user_id,
        }
    }
}

impl SessionChange {
    /// Returns `session` as it is after the change, made at time `now`.
    pub fn apply(&self, session: &Session, now: Timestamp) -> (changed: Session)
        ensures
            changed@ == self@.apply(session@, now),
    {
        let mut changed = session.clone();
        match self {
            SessionChange::Touch { ip_address, user_agent } => {
                changed.last_used_at = now;
                changed.last_ip_address = IpNetwork::host(*ip_address);
                changed.last_user_agent = user_agent.clone();
            },
            SessionChange::Revoke => {
                changed.revoked = true;
            },
        }
        changed
    }
}

} // verus!
