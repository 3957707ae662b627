//! Staged construction of a session that has not been stored yet.
//!
//! The builder takes the plaintext token and keeps only its digest, so a
//! `NewSession` can never carry a token in the clear.

use crate::address::{IpAddress, IpNetwork};
use crate::session::Session;
use crate::token::{token_digest, DIGEST_LENGTH};
use vstd::prelude::*;

verus! {

/// A required field that was not set when `build` was called.
#[derive(Clone, Copy, Debug, PartialEq, Eq, Structural)]
pub enum ValidationError {
    MissingUserId,
    MissingToken,
    MissingIpAddress,
    MissingUserAgent,
}

/// A session that is ready to be inserted: everything the caller supplies,
/// nothing the store assigns.
#[derive(Debug, PartialEq, Eq)]
pub struct NewSession {
    user_id: i32,
    hashed_token: Vec<u8>,
    last_ip_address: IpNetwork,
    last_user_agent: String,
}

/// What a `NewSession` holds, as plain mathematical values.
pub struct NewSessionView {
    pub user_id: i32,
    pub hashed_token: Seq<u8>,
    pub last_ip_address: IpNetwork,
    pub last_user_agent: Seq<char>,
}

/// Collects the fields of a `NewSession` one by one.
#[derive(Debug, PartialEq, Eq)]
pub struct NewSessionBuilder {
    user_id: Option<i32>,
    hashed_token: Option<Vec<u8>>,
    last_ip_address: Option<IpNetwork>,
    last_user_agent: Option<String>,
}

/// The fields set so far, as plain mathematical values.
pub struct NewSessionBuilderView {
    pub user_id: Option<i32>,
    pub hashed_token: Option<Seq<u8>>,
    pub last_ip_address: Option<IpNetwork>,
    pub last_user_agent: Option<Seq<char>>,
}

impl NewSessionView {
    /// A digest of 32 bytes and a valid network address.
    pub open spec fn valid(self) -> bool {
        &&& self.hashed_token.len() == DIGEST_LENGTH
        &&& self.last_ip_address.valid()
    }
}

impl NewSessionBuilderView {
    /// Whether every required field has been set.
    pub open spec fn complete(self) -> bool {
        &&& self.user_id is Some
        &&& self.hashed_token is Some
        &&& self.last_ip_address is Some
        &&& self.last_user_agent is Some
    }

    /// The first required field, in declaration order, that is still unset.
    pub open spec fn first_missing(self) -> ValidationError
        recommends
            !self.complete(),
    {
        if self.user_id is None {
            ValidationError::MissingUserId
        } else if self.hashed_token is None {
            ValidationError::MissingToken
        } else if self.last_ip_address is None {
            ValidationError::MissingIpAddress
        } else {
            ValidationError::MissingUserAgent
        }
    }

    /// The session that a complete builder describes.
    pub open spec fn assembled(self) -> NewSessionView
        recommends
            self.complete(),
    {
        NewSessionView {
            user_id: self.user_id->0,
            hashed_token: self.hashed_token->0,
            last_ip_address: self.last_ip_address->0,
            last_user_agent: self.last_user_agent->0,
        }
    }
}

impl View for NewSession {
    type V = NewSessionView;

    closed spec fn view(&self) -> NewSessionView {
        NewSessionView {
            user_id: self.user_id,
            hashed_token: self.hashed_token@,
            last_ip_address: self.last_ip_address,
            last_user_agent: self.last_user_agent@,
        }
    }
}

impl View for NewSessionBuilder {
    type V = NewSessionBuilderView;

    closed spec fn view(&self) -> NewSessionBuilderView {
        NewSessionBuilderView {
            user_id: self.user_id,
            hashed_token: match self.hashed_token {
                Some(digest) => Some(digest@),
                None => None,
            },
            last_ip_address: self.last_ip_address,
            last_user_agent: match self.last_user_agent {
                Some(text) => Some(text@),
                None => None,
            },
        }
    }
}

impl Clone for NewSession {
    fn clone(&self) -> (copy: Self)
        ensures
            copy@ == self@,
    {
        proof {
            use_type_invariant(self);
        }
        let copy = NewSession {
            user_id: self.user_id,
            hashed_token: self.hashed_token.clone(),
            last_ip_address: self.last_ip_address,
            last_user_agent: self.last_user_agent.clone(),
        };
        assert(copy.hashed_token@ =~= self.hashed_token@);
        copy
    }
}

impl NewSession {
    #[verifier::type_invariant]
    spec fn well_formed(self) -> bool {
        self@.valid()
    }

    /// The user the session belongs to.
    pub fn user_id(&self) -> (user_id: i32)
        ensures
            user_id == self@.user_id,
    {
        self.user_id
    }

    /// The digest of the session's token, always 32 bytes.
    pub fn hashed_token(&self) -> (digest: &Vec<u8>)
        ensures
            digest@ == self@.hashed_token,
            self@.valid(),
    {
        proof {
            use_type_invariant(self);
        }
        &self.hashed_token
    }

    /// The network form of the address the session was created from.
    pub fn last_ip_address(&self) -> (network: IpNetwork)
        ensures
            network == self@.last_ip_address,
    {
        self.last_ip_address
    }

    /// The user agent the session was created with.
    pub fn last_user_agent(&self) -> (user_agent: &String)
        ensures
            user_agent@ == self@.last_user_agent,
    {
        &self.last_user_agent
    }
}

impl NewSessionBuilder {
    #[verifier::type_invariant]
    spec fn well_formed(self) -> bool {
        &&& self@.hashed_token matches Some(digest) ==> digest.len() == DIGEST_LENGTH
        &&& self@.last_ip_address matches Some(network) ==> network.valid()
    }

    /// A builder with no field set.
    pub fn new() -> (builder: NewSessionBuilder)
        ensures
            builder@ == (NewSessionBuilderView {
                user_id: None,
                hashed_token: None,
                last_ip_address: None,
                last_user_agent: None,
            }),
    {
        NewSessionBuilder {
            user_id: None,
            hashed_token: None,
            last_ip_address: None,
            last_user_agent: None,
        }
    }

    /// Sets the user the session belongs to.
    pub fn user_id(&mut self, user_id: i32) -> (builder: &mut Self)
        ensures
            builder@ == (NewSessionBuilderView { user_id: Some(user_id), ..old(self)@ }),
            *final(self) == *final(builder),
    {
        proof {
            use_type_invariant(&*self);
        }
        self.user_id = Some(user_id);
        self
    }

    /// Calculates the digest of `token` and keeps the digest. The plaintext
    /// is not retained.
    pub fn token(&mut self, token: &str) -> (builder: &mut Self)
        ensures
            builder@ == (NewSessionBuilderView {
                hashed_token: Some(token_digest(token@)),
                ..old(self)@
            }),
            *final(self) == *final(builder),
    {
        proof {
            use_type_invariant(&*self);
        }
        let hashed_token = Session::hash_token(token);
        self.hashed_token = Some(hashed_token);
        self
    }

    /// Converts `ip_address` to the single-host network that is stored for
    /// it and keeps that.
    pub fn last_ip_address(&mut self, ip_address: IpAddress) -> (builder: &mut Self)
        ensures
            builder@ == (NewSessionBuilderView {
                last_ip_address: Some(IpNetwork::host(ip_address)),
                ..old(self)@
            }),
            *final(self) == *final(builder),
    {
        proof {
            use_type_invariant(&*self);
        }
        self.last_ip_address = Some(IpNetwork::host(ip_address));
        self
    }

    /// Sets the user agent, stored as given.
    pub fn last_user_agent(&mut self, user_agent: &str) -> (builder: &mut Self)
        ensures
            builder@ == (NewSessionBuilderView {
                last_user_agent: Some(user_agent@),
                ..old(self)@
            }),
            *final(self) == *final(builder),
    {
        proof {
            use_type_invariant(&*self);
        }
        self.last_user_agent = Some(user_agent.to_owned());
        self
    }

    /// Builds the session if every field has been set, and otherwise names
    /// the first field that is missing.
    pub fn build(&self) -> (result: Result<NewSession, ValidationError>)
        ensures
            match result {
                Ok(new_session) => {
                    &&& self@.complete()
                    &&& new_session@ == self@.assembled()
                    &&& new_session@.valid()
                },
                Err(error) => !self@.complete() && error == self@.first_missing(),
            },
    {
        proof {
            use_type_invariant(self);
        }
        let user_id = match self.user_id {
            Some(user_id) => user_id,
            None => {
                return Err(ValidationError::MissingUserId);
            },
        };
        let hashed_token = match &self.hashed_token {
            Some(digest) => digest.clone(),
            None => {
                return Err(ValidationError::MissingToken);
            },
        };
        let last_ip_address = match self.last_ip_address {
            Some(network) => network,
            None => {
                return Err(ValidationError::MissingIpAddress);
            },
        };
        let last_user_agent = match &self.last_user_agent {
            Some(text) => text.clone(),
            None => {
                return Err(ValidationError::MissingUserAgent);
            },
        };
        assert(hashed_token@ =~= self.hashed_token->0@);
        Ok(NewSession { user_id, hashed_token, last_ip_address, last_user_agent })
    }
}

} // verus!
