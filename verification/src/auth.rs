//! Authentication configuration and dispatch.
//!
//! The runtime consults at most two verifiers — one for passwords, one for
//! public keys. Each verifier is an asynchronous callable owned by the glue
//! around the core; what the core models is whether each is configured, and
//! what the answer to an attempt must be given the verifier's verdict. An
//! empty configuration is the anonymous mode: every attempt is accepted.

use vstd::prelude::*;

verus! {

/// The set of authentication methods a server advertises.
#[derive(Debug, Clone, Copy, PartialEq, Eq, Structural)]
pub struct MethodSet {
    /// Password authentication is offered.
    pub password: bool,
    /// Public-key authentication is offered.
    pub public_key: bool,
}

impl MethodSet {
    /// True when no method is offered.
    pub open spec fn spec_is_empty(self) -> bool {
        !self.password && !self.public_key
    }

    /// The set holding only password authentication.
    pub open spec fn spec_password_only() -> MethodSet {
        MethodSet { password: true, public_key: false }
    }

    /// True when no method is offered.
    pub fn is_empty(&self) -> (r: bool)
        ensures
            r == self.spec_is_empty(),
    {
        !self.password && !self.public_key
    }

    /// The set holding only password authentication, advertised to a peer
    /// whose public key was rejected so it may retry with the other method.
    pub fn password_only() -> (r: MethodSet)
        ensures
            r == MethodSet::spec_password_only(),
    {
        MethodSet { password: true, public_key: false }
    }
}

/// Which verifiers are configured for a server.
///
/// The verifier callables themselves live with the glue that can await
/// them; the core keeps their presence, which is all the dispatch and the
/// advertised method set depend on.
#[derive(Debug, Clone, Copy, PartialEq, Eq, Structural, Default)]
pub struct AuthConfig {
    /// A password verifier is configured.
    pub password: bool,
    /// A public-key verifier is configured.
    pub pubkey: bool,
}

impl AuthConfig {
    /// True when no verifier is configured: the anonymous mode.
    pub open spec fn spec_is_empty(self) -> bool {
        !self.password && !self.pubkey
    }

    /// True when no verifier is configured: the anonymous mode.
    pub fn is_empty(&self) -> (r: bool)
        ensures
            r == self.spec_is_empty(),
    {
        !self.password && !self.pubkey
    }

    /// The advertised method set: each method is offered exactly when its
    /// verifier is present.
    pub fn methods(&self) -> (r: MethodSet)
        ensures
            r.password == self.password,
            r.public_key == self.pubkey,
    {
        MethodSet { password: self.password, public_key: self.pubkey }
    }
}

/// The answer to one authentication attempt.
#[derive(Debug, Clone, Copy, PartialEq, Eq, Structural)]
pub enum AuthDecision {
    /// The attempt is accepted and the user recorded.
    Accept,
    /// The attempt is rejected; `proceed_with` optionally advertises the
    /// methods the peer may still try.
    Reject { proceed_with: Option<MethodSet> },
}

/// The answer owed to a public-key attempt, given which verifiers exist
/// and, when a key verifier exists, its verdict.
///
/// A rejected key advertises password authentication so the peer may retry
/// with the other method; with no key verifier, a non-empty configuration
/// rejects without advertising more, and an empty one accepts anyone.
pub open spec fn spec_pubkey_decision(cfg: AuthConfig, verdict: Option<bool>) -> AuthDecision {
    match verdict {
        Some(true) => AuthDecision::Accept,
        Some(false) => AuthDecision::Reject {
            proceed_with: Some(MethodSet::spec_password_only()),
        },
        None => if cfg.spec_is_empty() {
            AuthDecision::Accept
        } else {
            AuthDecision::Reject { proceed_with: None }
        },
    }
}

/// The answer owed to a password attempt: as for public keys, but a
/// rejection never advertises further methods.
pub open spec fn spec_password_decision(cfg: AuthConfig, verdict: Option<bool>) -> AuthDecision {
    match verdict {
        Some(true) => AuthDecision::Accept,
        Some(false) => AuthDecision::Reject { proceed_with: None },
        None => if cfg.spec_is_empty() {
            AuthDecision::Accept
        } else {
            AuthDecision::Reject { proceed_with: None }
        },
    }
}

/// The answer to a public-key attempt. `verdict` is the key verifier's
/// verdict, present exactly when such a verifier is configured.
pub fn pubkey_decision(cfg: &AuthConfig, verdict: Option<bool>) -> (r: AuthDecision)
    requires
        verdict is Some <==> cfg.pubkey,
    ensures
        r == spec_pubkey_decision(*cfg, verdict),
{
    match verdict {
        Some(true) => AuthDecision::Accept,
        Some(false) => AuthDecision::Reject { proceed_with: Some(MethodSet::password_only()) },
        None => if cfg.is_empty() {
            AuthDecision::Accept
        } else {
            AuthDecision::Reject { proceed_with: None }
        },
    }
}

/// The answer to a password attempt. `verdict` is the password verifier's
/// verdict, present exactly when such a verifier is configured.
pub fn password_decision(cfg: &AuthConfig, verdict: Option<bool>) -> (r: AuthDecision)
    requires
        verdict is Some <==> cfg.password,
    ensures
        r == spec_password_decision(*cfg, verdict),
{
    match verdict {
        Some(true) => AuthDecision::Accept,
        Some(false) => AuthDecision::Reject { proceed_with: None },
        None => if cfg.is_empty() {
            AuthDecision::Accept
        } else {
            AuthDecision::Reject { proceed_with: None }
        },
    }
}

/// An empty configuration, an empty advertised method set, and the
/// acceptance of unauthenticated attempts are one and the same condition.
pub proof fn lemma_anonymous_mode(cfg: AuthConfig)
    ensures
        cfg.spec_is_empty() <==> (MethodSet {
            password: cfg.password,
            public_key: cfg.pubkey,
        }).spec_is_empty(),
        !cfg.pubkey ==> (cfg.spec_is_empty() <==> spec_pubkey_decision(cfg, None)
            is Accept),
        !cfg.password ==> (cfg.spec_is_empty() <==> spec_password_decision(cfg, None)
            is Accept),
{
}

} // verus!
