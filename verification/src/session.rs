//! The session record and its mathematical view.

use crate::address::{IpAddress, IpNetwork};
use crate::new_session::{NewSessionBuilder, NewSessionBuilderView};
use crate::token::{
    all_alphanumeric, generate_secure_alphanumeric_string, sha256_digest, token_digest,
    DIGEST_LENGTH, TOKEN_LENGTH,
};
use vstd::prelude::*;

verus! {

/// A point in time, in microseconds since the Unix epoch.
#[derive(Clone, Copy, Debug, PartialEq, Eq, PartialOrd, Ord, Hash, Structural)]
pub struct Timestamp {
    pub micros: i64,
}

/// A persisted session.
///
/// The plaintext token never appears here: `hashed_token` is its digest.
#[derive(Debug, PartialEq, Eq)]
pub struct Session {
    pub id: i32,
    pub user_id: i32,
    pub hashed_token: Vec<u8>,
    pub created_at: Timestamp,
    pub last_used_at: Timestamp,
    pub revoked: bool,
    pub last_ip_address: IpNetwork,
    pub last_user_agent: String,
}

/// What a session holds, as plain mathematical values.
pub struct SessionView {
    pub id: i32,
    pub user_id: i32,
    pub hashed_token: Seq<u8>,
    pub created_at: Timestamp,
    pub last_used_at: Timestamp,
    pub revoked: bool,
    pub last_ip_address: IpNetwork,
    pub last_user_agent: Seq<char>,
}

impl SessionView {
    /// The invariants of a single record: a 32-byte digest, a valid network
    /// address, and a last use that is not earlier than the creation.
    pub open spec fn valid(self) -> bool {
        &&& self.hashed_token.len() == DIGEST_LENGTH
        &&& self.last_ip_address.valid()
        &&& self.created_at.micros <= self.last_used_at.micros
    }

    /// The record after a successful lookup at time `now` from `network` with
    /// `user_agent`: the three last-use fields change together, nothing else.
    pub open spec fn touched(self, now: Timestamp, network: IpNetwork, user_agent: Seq<char>) -> SessionView {
        SessionView {
            last_used_at: now,
            last_ip_address: network,
            last_user_agent: user_agent,
            ..self
        }
    }

    /// The record after revocation: only the flag changes.
    pub open spec fn revoked(self) -> SessionView {
        SessionView { revoked: true, ..self }
    }
}

impl View for Session {
    type V = SessionView;

    open spec fn view(&self) -> SessionView {
        SessionView {
            id: self.id,
            user_id: self.user_id,
            hashed_token: self.hashed_token@,
            created_at: self.created_at,
            last_used_at: self.last_used_at,
            revoked: self.revoked,
            last_ip_address: self.last_ip_address,
            last_user_agent: self.last_user_agent@,
        }
    }
}

/// The views of a sequence of sessions, in the same order.
pub open spec fn views(sessions: Seq<Session>) -> Seq<SessionView> {
    sessions.map_values(|session: Session| session@)
}

/// The view of a session that may be absent.
pub open spec fn view_of_found(found: Option<Session>) -> Option<SessionView> {
    match found {
        Some(session) => Some(session@),
        None => None,
    }
}

impl Clone for Session {
    fn clone(&self) -> (copy: Self)
        ensures
            copy@ == self@,
    {
        let copy = Session {
            id: self.id,
            user_id: self.user_id,
            hashed_token: self.hashed_token.clone(),
            created_at: self.created_at,
            last_used_at: self.last_used_at,
            revoked: self.revoked,
            last_ip_address: self.last_ip_address,
            last_user_agent: self.last_user_agent.clone(),
        };
        assert(copy.hashed_token@ =~= self.hashed_token@);
        copy
    }
}

impl Session {
    /// Starts a builder for a session that is to be inserted.
    ///
    /// Set the user, the token, the address and the user agent, then call
    /// `build` and `insert`. New tokens come from `Session::generate_token`.
    pub fn new() -> (builder: NewSessionBuilder)
        ensures
            builder@ == (NewSessionBuilderView {
                user_id: None,
                hashed_token: None,
                last_ip_address: None,
                last_user_agent: None,
            }),
    {
        NewSessionBuilder::new()
    }

    /// Generates a new plaintext token.
    ///
    /// The token goes to the client. Only its digest may be stored.
    pub fn generate_token() -> (token: String)
        ensures
            token@.len() == TOKEN_LENGTH,
            all_alphanumeric(token@),
    {
        generate_secure_alphanumeric_string(TOKEN_LENGTH)
    }

    /// Calculates the SHA-256 digest of `token`, the only form in which a
    /// token is stored and compared.
    pub fn hash_token(token: &str) -> (digest: Vec<u8>)
        ensures
            digest@ == token_digest(token@),
            digest@.len() == DIGEST_LENGTH,
    {
        sha256_digest(token.as_bytes())
    }

    /// Returns the address from which this session was last used.
    pub fn last_ip_address(&self) -> (address: IpAddress)
        ensures
            address == self@.last_ip_address.address,
    {
        self.last_ip_address.ip()
    }
}

} // verus!
