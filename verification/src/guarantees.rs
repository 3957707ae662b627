//! What the session operations guarantee across several calls.
//!
//! Each statement is about the mathematical state of a table and uses the
//! same functions as the contracts of the operations, so it applies to any
//! sequence of calls whose results those contracts describe.

use crate::address::{IpAddress, IpNetwork};
use crate::new_session::NewSessionView;
use crate::query::{
    first_matching, first_updated, matching, updated, SessionChangeView, SessionFilterView,
};
use crate::session::{SessionView, Timestamp};
use crate::store::{filter_by_token, filter_by_user, filter_owned, touch_from};
use crate::table::{lemma_changed_wf, SessionTableView};
use crate::token::token_digest;
use vstd::prelude::*;

verus! {

/// Whether `filter` selects none of `rows`.
pub open spec fn selects_none(rows: Seq<SessionView>, filter: SessionFilterView) -> bool {
    forall|i: int| 0 <= i < rows.len() ==> !filter.matches(#[trigger] rows[i])
}

/// Every selected row is one of the rows and satisfies the filter.
pub proof fn lemma_selected_rows(rows: Seq<SessionView>, filter: SessionFilterView, k: int)
    requires
        0 <= k < matching(rows, filter).len(),
    ensures
        filter.matches(matching(rows, filter)[k]),
        exists|i: int| 0 <= i < rows.len() && rows[i] == matching(rows, filter)[k],
{
    let predicate = |session: SessionView| filter.matches(session);
    rows.lemma_filter_pred(predicate, k);
    let selected = rows.filter(predicate);
    assert(selected.contains(selected[k]));
    rows.lemma_filter_contains_rev(predicate, selected[k]);
    let i = choose|i: int| 0 <= i < rows.len() && rows[i] == selected[k];
    assert(rows[i] == matching(rows, filter)[k]);
}

/// A filter that selects no row yields nothing, and an update through it
/// changes nothing.
pub proof fn lemma_nothing_selected(
    rows: Seq<SessionView>,
    filter: SessionFilterView,
    change: SessionChangeView,
    now: Timestamp,
)
    requires
        selects_none(rows, filter),
    ensures
        matching(rows, filter).len() == 0,
        first_matching(rows, filter) is None,
        first_updated(rows, filter, change, now) is None,
        updated(rows, filter, change, now) == rows,
{
    if matching(rows, filter).len() > 0 {
        lemma_selected_rows(rows, filter, 0);
    }
    assert(updated(rows, filter, change, now) =~= rows);
}

/// A filter that selects some row yields a first row.
pub proof fn lemma_something_selected(rows: Seq<SessionView>, filter: SessionFilterView, i: int)
    requires
        0 <= i < rows.len(),
        filter.matches(rows[i]),
    ensures
        matching(rows, filter).len() > 0,
        first_matching(rows, filter) is Some,
{
    let predicate = |session: SessionView| filter.matches(session);
    rows.lemma_filter_contains(predicate, i);
}

/// No update touches what identifies a session: whatever the filter and the
/// change, every row keeps its place, its id, its user, its digest and its
/// creation time. A revoked row stays exactly as it is, so revocation is
/// final.
pub proof fn theorem_updates_keep_identity(
    rows: Seq<SessionView>,
    filter: SessionFilterView,
    change: SessionChangeView,
    now: Timestamp,
    i: int,
)
    requires
        0 <= i < rows.len(),
    ensures
        updated(rows, filter, change, now).len() == rows.len(),
        updated(rows, filter, change, now)[i].id == rows[i].id,
        updated(rows, filter, change, now)[i].user_id == rows[i].user_id,
        updated(rows, filter, change, now)[i].hashed_token == rows[i].hashed_token,
        updated(rows, filter, change, now)[i].created_at == rows[i].created_at,
        rows[i].revoked ==> updated(rows, filter, change, now)[i] == rows[i],
{
}

/// Digesting is deterministic: equal tokens have equal digests.
pub proof fn theorem_digest_is_deterministic(first: Seq<char>, second: Seq<char>)
    requires
        first == second,
    ensures
        token_digest(first) == token_digest(second),
{
}

/// A lookup by the token of an active session, on a table that accepts
/// writes, returns an active session with that token whose last address and
/// user agent are those of the lookup, and whose last use is now and not
/// earlier than its creation. The returned session is a row of the table
/// afterwards.
pub proof fn theorem_lookup_touches(
    table: SessionTableView,
    token: Seq<char>,
    ip_address: IpAddress,
    user_agent: Seq<char>,
)
    requires
        table.wf(),
        table.write_refusal() is None,
        !selects_none(table.rows, filter_by_token(token)),
    ensures
        table.lookup(token, ip_address, user_agent) matches Ok(Some(session)) && {
            &&& session.hashed_token == token_digest(token)
            &&& !session.revoked
            &&& session.last_ip_address == IpNetwork::host(ip_address)
            &&& session.last_user_agent == user_agent
            &&& session.last_used_at == table.clock
            &&& session.last_used_at.micros >= session.created_at.micros
            &&& table.after_lookup(token, ip_address, user_agent).rows.contains(session)
        },
        table.after_lookup(token, ip_address, user_agent).wf(),
{
    let filter = filter_by_token(token);
    let change = touch_from(ip_address, user_agent);
    let i = choose|i: int| 0 <= i < table.rows.len() && filter.matches(#[trigger] table.rows[i]);
    lemma_something_selected(table.rows, filter, i);
    lemma_selected_rows(table.rows, filter, 0);
    let stored = matching(table.rows, filter)[0];
    let at = choose|k: int| 0 <= k < table.rows.len() && table.rows[k] == stored;
    assert(table.rows[at].valid());
    let after = table.after_lookup(token, ip_address, user_agent);
    assert(after.rows[at] == change.apply(stored, table.clock));
    lemma_changed_wf(table, filter, change);
}

/// A session that was just inserted with the digest of `token` is found by
/// a lookup with `token`: the lookup returns a session with the lookup's
/// address and user agent, last used no earlier than it was created.
pub proof fn theorem_lookup_after_insert(
    table: SessionTableView,
    new: NewSessionView,
    token: Seq<char>,
    ip_address: IpAddress,
    user_agent: Seq<char>,
)
    requires
        table.wf(),
        new.valid(),
        table.insert_refusal(new) is None,
        new.hashed_token == token_digest(token),
    ensures
        table.inserted(new).wf(),
        table.inserted(new).lookup(token, ip_address, user_agent) matches Ok(Some(session)) && {
            &&& session.hashed_token == token_digest(token)
            &&& session.last_ip_address == IpNetwork::host(ip_address)
            &&& session.last_user_agent == user_agent
            &&& session.last_used_at.micros >= session.created_at.micros
        },
{
    let after = table.inserted(new);
    let last = table.rows.len() as int;
    assert(after.rows[last] == table.stored(new));
    assert(filter_by_token(token).matches(after.rows[last]));
    assert forall|i: int, j: int| 0 <= i < j < after.rows.len() implies (#[trigger] after.rows[i]).id
        < (#[trigger] after.rows[j]).id by {
        if j < last {
            assert(table.rows[i].id < table.rows[j].id);
        } else {
            assert(table.rows[i].id < table.next_id);
        }
    }
    assert(after.wf());
    theorem_lookup_touches(after, token, ip_address, user_agent);
}

/// A lookup by a token whose digest no active session has changes nothing,
/// and returns no session whenever the table can be read.
pub proof fn theorem_unknown_token_finds_nothing(
    table: SessionTableView,
    token: Seq<char>,
    ip_address: IpAddress,
    user_agent: Seq<char>,
)
    requires
        selects_none(table.rows, filter_by_token(token)),
    ensures
        table.after_lookup(token, ip_address, user_agent) == table,
        table.read_refusal() is None ==> table.lookup(token, ip_address, user_agent) == Ok::<
            Option<SessionView>,
            crate::table::StorageError,
        >(None),
{
    lemma_nothing_selected(
        table.rows,
        filter_by_token(token),
        touch_from(ip_address, user_agent),
        table.clock,
    );
}

/// After a revocation on a table that accepts writes, no filter selects the
/// session any more: it is revoked, and every filter passes over revoked
/// sessions.
pub proof fn theorem_revoked_session_is_invisible(
    table: SessionTableView,
    user_id: i32,
    session_id: i32,
    filter: SessionFilterView,
)
    requires
        table.wf(),
        table.write_refusal() is None,
        table.owns_active(user_id, session_id),
    ensures
        forall|k: int|
            0 <= k < matching(table.after_revoke(user_id, session_id).rows, filter).len() ==> (
            #[trigger] matching(table.after_revoke(user_id, session_id).rows, filter)[k]).id
                != session_id,
{
    let after = table.after_revoke(user_id, session_id);
    let selected = matching(after.rows, filter);
    assert forall|k: int| 0 <= k < selected.len() implies (#[trigger] selected[k]).id
        != session_id by {
        lemma_selected_rows(after.rows, filter, k);
        let i = choose|i: int| 0 <= i < after.rows.len() && after.rows[i] == selected[k];
        if selected[k].id == session_id {
            // The row with this id is the one that was revoked.
            let j = choose|j: int|
                0 <= j < table.rows.len() && filter_owned(user_id, session_id).matches(
                    #[trigger] table.rows[j],
                );
            if i < j {
                assert(table.rows[i].id < table.rows[j].id);
            } else if j < i {
                assert(table.rows[j].id < table.rows[i].id);
            }
            assert(after.rows[i].revoked);
        }
    }
}

/// After a session was revoked, a lookup by its token finds no session and
/// changes nothing, provided no other active session has the same digest.
pub proof fn theorem_lookup_after_revoke(
    table: SessionTableView,
    user_id: i32,
    session_id: i32,
    token: Seq<char>,
    ip_address: IpAddress,
    user_agent: Seq<char>,
)
    requires
        table.wf(),
        table.write_refusal() is None,
        table.owns_active(user_id, session_id),
        forall|i: int|
            0 <= i < table.rows.len() && filter_by_token(token).matches(#[trigger] table.rows[i])
                ==> table.rows[i].id == session_id,
    ensures
        table.after_revoke(user_id, session_id).lookup(token, ip_address, user_agent) == Ok::<
            Option<SessionView>,
            crate::table::StorageError,
        >(None),
        table.after_revoke(user_id, session_id).after_lookup(token, ip_address, user_agent)
            == table.after_revoke(user_id, session_id),
{
    let after = table.after_revoke(user_id, session_id);
    let j = choose|j: int|
        0 <= j < table.rows.len() && filter_owned(user_id, session_id).matches(
            #[trigger] table.rows[j],
        );
    assert forall|i: int| 0 <= i < after.rows.len() implies !filter_by_token(token).matches(
        #[trigger] after.rows[i],
    ) by {
        if filter_by_token(token).matches(after.rows[i]) {
            assert(filter_by_token(token).matches(table.rows[i]));
            if i < j {
                assert(table.rows[i].id < table.rows[j].id);
            } else if j < i {
                assert(table.rows[j].id < table.rows[i].id);
            }
        }
    }
    lemma_nothing_selected(
        after.rows,
        filter_by_token(token),
        touch_from(ip_address, user_agent),
        after.clock,
    );
}

/// Revocation is final: once a revocation has been carried out, the session
/// is not an active session of the user, so revoking it again returns
/// `false`.
pub proof fn theorem_revoke_again_finds_nothing(
    table: SessionTableView,
    user_id: i32,
    session_id: i32,
)
    requires
        table.write_refusal() is None,
    ensures
        !table.after_revoke(user_id, session_id).owns_active(user_id, session_id),
        table.after_revoke(user_id, session_id).after_revoke(user_id, session_id)
            == table.after_revoke(user_id, session_id),
{
    let after = table.after_revoke(user_id, session_id);
    let filter = filter_owned(user_id, session_id);
    assert forall|i: int| 0 <= i < after.rows.len() implies !filter.matches(
        #[trigger] after.rows[i],
    ) by {}
    lemma_nothing_selected(after.rows, filter, SessionChangeView::Revoke, after.clock);
}

/// Revocation is scoped by owner: a session of another user is not revoked.
/// The call returns `false` and changes nothing.
pub proof fn theorem_revoke_needs_owner(
    table: SessionTableView,
    user_id: i32,
    session_id: i32,
    at: int,
)
    requires
        table.wf(),
        0 <= at < table.rows.len(),
        table.rows[at].id == session_id,
        table.rows[at].user_id != user_id,
    ensures
        !table.owns_active(user_id, session_id),
        table.after_revoke(user_id, session_id) == table,
{
    let filter = filter_owned(user_id, session_id);
    assert forall|i: int| 0 <= i < table.rows.len() implies !filter.matches(
        #[trigger] table.rows[i],
    ) by {
        if i < at {
            assert(table.rows[i].id < table.rows[at].id);
        } else if at < i {
            assert(table.rows[at].id < table.rows[i].id);
        }
    }
    lemma_nothing_selected(table.rows, filter, SessionChangeView::Revoke, table.clock);
}

/// After the only active session of a user was revoked, the user has no
/// active session.
pub proof fn theorem_revoke_only_session(table: SessionTableView, user_id: i32, session_id: i32)
    requires
        table.wf(),
        table.write_refusal() is None,
        matching(table.rows, filter_by_user(user_id)).len() == 1,
        matching(table.rows, filter_by_user(user_id))[0].id == session_id,
    ensures
        table.owns_active(user_id, session_id),
        matching(table.after_revoke(user_id, session_id).rows, filter_by_user(user_id)).len() == 0,
{
    let by_user = filter_by_user(user_id);
    let owned = filter_owned(user_id, session_id);
    let after = table.after_revoke(user_id, session_id);
    lemma_selected_rows(table.rows, by_user, 0);
    let only = choose|i: int|
        0 <= i < table.rows.len() && table.rows[i] == matching(table.rows, by_user)[0];
    assert(owned.matches(table.rows[only]));
    assert forall|i: int| 0 <= i < after.rows.len() implies !by_user.matches(
        #[trigger] after.rows[i],
    ) by {
        if by_user.matches(after.rows[i]) {
            assert(by_user.matches(table.rows[i]));
            let predicate = |session: SessionView| by_user.matches(session);
            table.rows.lemma_filter_contains(predicate, i);
            let k = choose|k: int|
                0 <= k < matching(table.rows, by_user).len() && matching(table.rows, by_user)[k]
                    == table.rows[i];
            assert(k == 0);
        }
    }
    lemma_nothing_selected(after.rows, by_user, SessionChangeView::Revoke, after.clock);
}

} // verus!
