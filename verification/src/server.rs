//! Server configuration: validation and the derived transport options.
//!
//! The builder that collects host keys, middleware and the handler lives
//! with the glue that can own such values; the decisions it rests on are
//! here. `validate_serve` says exactly when serving may start, and
//! `ServerSettings::transport_config` derives the options handed to the
//! transport layer.

use vstd::prelude::*;

use crate::auth::AuthConfig;
use crate::auth::MethodSet;
use crate::error::Error;

verus! {

/// The plain configuration a server accumulates, besides its host keys,
/// middleware, handler and shutdown signal. Durations are milliseconds.
#[derive(Debug, Default)]
pub struct ServerSettings {
    /// The address to listen on; required before serving.
    pub addr: Option<String>,
    /// The authentication banner shown to connecting peers.
    pub banner: Option<String>,
    /// Which verifiers are configured.
    pub auth: AuthConfig,
    /// The per-attempt rejection delay and initial authentication timeout.
    pub auth_timeout_ms: Option<u64>,
    /// The idle disconnect timeout.
    pub inactivity_timeout_ms: Option<u64>,
    /// The transport keepalive interval.
    pub keepalive_interval_ms: Option<u64>,
    /// How many unanswered keepalives disconnect the peer.
    pub keepalive_max: Option<usize>,
}

/// The options handed to the transport layer, derived from the settings.
/// Durations are milliseconds.
#[derive(Debug, PartialEq, Eq)]
pub struct TransportConfig {
    /// The advertised authentication methods; `None` leaves the
    /// transport's own default in place, for the anonymous mode.
    pub methods: Option<MethodSet>,
    /// The per-attempt rejection delay.
    pub auth_rejection_ms: Option<u64>,
    /// The initial authentication timeout; always set together with the
    /// rejection delay, to the same value.
    pub auth_rejection_initial_ms: Option<u64>,
    /// The idle disconnect timeout.
    pub inactivity_timeout_ms: Option<u64>,
    /// The transport keepalive interval.
    pub keepalive_interval_ms: Option<u64>,
    /// How many unanswered keepalives disconnect the peer.
    pub keepalive_max: Option<usize>,
}

impl ServerSettings {
    /// The transport options these settings call for: the advertised
    /// method set is restricted exactly when some verifier is configured,
    /// and each configured timeout is passed through.
    pub fn transport_config(&self) -> (r: TransportConfig)
        ensures
            r.methods == (if self.auth.spec_is_empty() {
                None::<MethodSet>
            } else {
                Some(
                    MethodSet {
                        password: self.auth.password,
                        public_key: self.auth.pubkey,
                    },
                )
            }),
            r.auth_rejection_ms == self.auth_timeout_ms,
            r.auth_rejection_initial_ms == self.auth_timeout_ms,
            r.inactivity_timeout_ms == self.inactivity_timeout_ms,
            r.keepalive_interval_ms == self.keepalive_interval_ms,
            r.keepalive_max == self.keepalive_max,
    {
        let methods = if self.auth.is_empty() {
            None
        } else {
            Some(self.auth.methods())
        };
        TransportConfig {
            methods,
            auth_rejection_ms: self.auth_timeout_ms,
            auth_rejection_initial_ms: self.auth_timeout_ms,
            inactivity_timeout_ms: self.inactivity_timeout_ms,
            keepalive_interval_ms: self.keepalive_interval_ms,
            keepalive_max: self.keepalive_max,
        }
    }
}

/// Whether serving may start: a bind address, at least one host key and a
/// handler are required, and each missing piece is reported as the
/// matching configuration error, checked in that order.
pub fn validate_serve(addr: &Option<String>, n_keys: usize, has_handler: bool) -> (r: Result<
    (),
    Error,
>)
    ensures
        r is Ok <==> (addr is Some && n_keys > 0 && has_handler),
        addr is None ==> (r matches Err(e) && e matches Error::Config(m) && m@
            == "No bind address specified"@),
        (addr is Some && n_keys == 0) ==> (r matches Err(e) && e matches Error::Config(m) && m@
            == "No host keys specified"@),
        (addr is Some && n_keys > 0 && !has_handler) ==> (r matches Err(e) && e
            matches Error::Config(m) && m@ == "No app handler specified"@),
{
    if addr.is_none() {
        return Err(Error::Config(String::from_str("No bind address specified")));
    }
    if n_keys == 0 {
        return Err(Error::Config(String::from_str("No host keys specified")));
    }
    if !has_handler {
        return Err(Error::Config(String::from_str("No app handler specified")));
    }
    Ok(())
}

} // verus!
