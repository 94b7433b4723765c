//! The per-connection protocol adapter.
//!
//! One `Connection` exists per accepted transport connection. It observes
//! authentication attempts and channel-setup requests, accumulates the
//! pending environment and pseudo-terminal state, and on a promoting
//! request — shell, exec or subsystem — hands back the [`Session`] for the
//! handler task. The glue that owns the transport drives it: it awaits the
//! configured verifiers and passes their verdicts in, stores the channel
//! handle whose presence is tracked here, and spawns the handler on the
//! session this adapter builds.

use vstd::prelude::*;

use crate::auth::AuthConfig;
use crate::auth::AuthDecision;
use crate::auth::spec_password_decision;
use crate::auth::spec_pubkey_decision;
use crate::env_map::EnvMap;
use crate::env_map::spec_insert;
use crate::error::Error;
use crate::kind::KindView;
use crate::kind::SessionKind;
use crate::pty::PtySize;
use crate::session::RemoteAddr;
use crate::session::Session;
use crate::session::SessionView;

verus! {

/// The spec-level state of a connection adapter.
#[verifier::ext_equal]
pub struct ConnectionView {
    /// Which verifiers the server was configured with.
    pub auth: AuthConfig,
    /// The peer's address, captured at accept time.
    pub addr: (Seq<char>, u16),
    /// The configured authentication banner, if any.
    pub banner: Option<Seq<char>>,
    /// Whether a session channel is currently stored.
    pub has_channel: bool,
    /// The authenticated user, once an attempt was accepted.
    pub user: Option<Seq<char>>,
    /// The environment requests accumulated so far.
    pub env: Seq<(Seq<char>, Seq<char>)>,
    /// The pending pseudo-terminal request, if one was observed.
    pub pty: Option<(Seq<char>, PtySize)>,
}

/// The principal name a session is built with: the authenticated user, or
/// the literal `unknown` when authentication was bypassed.
pub open spec fn session_user(user: Option<Seq<char>>) -> Seq<char> {
    match user {
        Some(u) => u,
        None => "unknown"@,
    }
}

/// The kind of a shell-promoted channel: `Pty` when a pseudo-terminal
/// request is pending, else `Shell`.
pub open spec fn shell_kind(pty: Option<(Seq<char>, PtySize)>) -> KindView {
    match pty {
        Some((term, size)) => KindView::Pty { term, size },
        None => KindView::Shell,
    }
}

/// The kind of an exec-promoted channel: `Pty` when a pseudo-terminal
/// request is pending — the command line is not carried in that case —
/// else `Exec` with the decoded command.
pub open spec fn exec_kind(pty: Option<(Seq<char>, PtySize)>, command: Seq<char>) -> KindView {
    match pty {
        Some((term, size)) => KindView::Pty { term, size },
        None => KindView::Exec { command },
    }
}

impl ConnectionView {
    /// A fresh adapter: nothing observed yet.
    pub open spec fn init(auth: AuthConfig, addr: (Seq<char>, u16), banner: Option<Seq<char>>) -> ConnectionView {
        ConnectionView {
            auth,
            addr,
            banner,
            has_channel: false,
            user: None,
            env: Seq::empty(),
            pty: None,
        }
    }

    /// A session channel was opened and stored.
    pub open spec fn step_open_channel(self) -> ConnectionView {
        ConnectionView { has_channel: true, ..self }
    }

    /// A public-key attempt for `user` was answered; an accepted attempt
    /// records the user.
    pub open spec fn step_auth_pubkey(self, user: Seq<char>, verdict: Option<bool>) -> (
        ConnectionView,
        AuthDecision,
    ) {
        let decision = spec_pubkey_decision(self.auth, verdict);
        if decision is Accept {
            (ConnectionView { user: Some(user), ..self }, decision)
        } else {
            (self, decision)
        }
    }

    /// A password attempt for `user` was answered; an accepted attempt
    /// records the user.
    pub open spec fn step_auth_password(self, user: Seq<char>, verdict: Option<bool>) -> (
        ConnectionView,
        AuthDecision,
    ) {
        let decision = spec_password_decision(self.auth, verdict);
        if decision is Accept {
            (ConnectionView { user: Some(user), ..self }, decision)
        } else {
            (self, decision)
        }
    }

    /// An environment request was observed: the variable is bound, a later
    /// request for the same name replacing the earlier value.
    pub open spec fn step_env(self, name: Seq<char>, value: Seq<char>) -> ConnectionView {
        ConnectionView { env: spec_insert(self.env, name, value), ..self }
    }

    /// A pseudo-terminal request was observed and stored as pending.
    pub open spec fn step_pty(self, term: Seq<char>, size: PtySize) -> ConnectionView {
        ConnectionView { pty: Some((term, size)), ..self }
    }

    /// The adapter state after handing a session out: the channel and the
    /// pending pseudo-terminal are taken, and the environment snapshot is
    /// transferred, leaving the accumulated map empty.
    pub open spec fn after_promotion(self) -> ConnectionView {
        ConnectionView { has_channel: false, env: Seq::empty(), pty: None, ..self }
    }

    /// The session a promoting request builds, given its kind.
    pub open spec fn promoted_session(self, kind: KindView) -> SessionView {
        SessionView {
            kind,
            user: session_user(self.user),
            env: self.env,
            addr: self.addr,
            exit_code: None,
        }
    }

    /// A shell request: with a stored channel, the session is built and
    /// the adapter is left promoted; without one, nothing changes.
    pub open spec fn step_shell(self) -> (ConnectionView, Option<SessionView>) {
        if self.has_channel {
            (self.after_promotion(), Some(self.promoted_session(shell_kind(self.pty))))
        } else {
            (self, None)
        }
    }

    /// An exec request carrying the raw command line `data`: as for shell,
    /// with the kind decided by [`exec_kind`] over the decoded command.
    pub open spec fn step_exec(self, data: Seq<u8>) -> (ConnectionView, Option<SessionView>) {
        if self.has_channel {
            (
                self.after_promotion(),
                Some(self.promoted_session(exec_kind(self.pty, crate::text::lossy_utf8(data)))),
            )
        } else {
            (self, None)
        }
    }

    /// A subsystem request: as for shell, but the kind names the subsystem
    /// and a pending pseudo-terminal is left in place.
    pub open spec fn step_subsystem(self, name: Seq<char>) -> (ConnectionView, Option<SessionView>) {
        if self.has_channel {
            (
                ConnectionView { has_channel: false, env: Seq::empty(), ..self },
                Some(self.promoted_session(KindView::Subsystem { name })),
            )
        } else {
            (self, None)
        }
    }
}

/// The per-connection protocol adapter.
pub struct Connection {
    auth: AuthConfig,
    remote_addr: RemoteAddr,
    banner: Option<String>,
    has_channel: bool,
    user: Option<String>,
    env: EnvMap,
    pty: Option<(String, PtySize)>,
}

impl View for Connection {
    type V = ConnectionView;

    closed spec fn view(&self) -> ConnectionView {
        ConnectionView {
            auth: self.auth,
            addr: self.remote_addr@,
            banner: match self.banner {
                Some(b) => Some(b@),
                None => None,
            },
            has_channel: self.has_channel,
            user: match self.user {
                Some(u) => Some(u@),
                None => None,
            },
            env: self.env@,
            pty: match self.pty {
                Some((term, size)) => Some((term@, size)),
                None => None,
            },
        }
    }
}

impl Connection {
    /// A fresh adapter for an accepted connection.
    pub fn new(auth: AuthConfig, remote_addr: RemoteAddr, banner: Option<String>) -> (r:
        Connection)
        ensures
            r@ == ConnectionView::init(
                auth,
                remote_addr@,
                match banner {
                    Some(b) => Some(b@),
                    None => None,
                },
            ),
    {
        let r = Connection {
            auth,
            remote_addr,
            banner,
            has_channel: false,
            user: None,
            env: EnvMap::new(),
            pty: None,
        };
        proof {
            assert(r@ =~= ConnectionView::init(
                r.auth,
                r.remote_addr@,
                match r.banner {
                    Some(b) => Some(b@),
                    None => None,
                },
            ));
        }
        r
    }

    /// The configured authentication banner, for the banner hook.
    pub fn authentication_banner(&self) -> (r: Option<String>)
        ensures
            match r {
                Some(b) => self@.banner == Some(b@),
                None => self@.banner is None,
            },
    {
        match &self.banner {
            Some(b) => Some(b.clone()),
            None => None,
        }
    }

    /// A session channel was opened; store it as pending and accept.
    pub fn channel_open_session(&mut self) -> (r: bool)
        ensures
            final(self)@ == old(self)@.step_open_channel(),
            r == true,
    {
        self.has_channel = true;
        proof {
            assert(final(self)@ =~= old(self)@.step_open_channel());
        }
        true
    }

    /// Answer a public-key attempt for `user`. `verdict` is the key
    /// verifier's verdict on the offered key, present exactly when a key
    /// verifier is configured.
    pub fn auth_publickey(&mut self, user: &str, verdict: Option<bool>) -> (r: AuthDecision)
        requires
            verdict is Some <==> old(self)@.auth.pubkey,
        ensures
            (final(self)@, r) == old(self)@.step_auth_pubkey(user@, verdict),
    {
        let decision = crate::auth::pubkey_decision(&self.auth, verdict);
        if let AuthDecision::Accept = decision {
            self.user = Some(user.to_owned());
        }
        proof {
            assert(final(self)@ =~= old(self)@.step_auth_pubkey(user@, verdict).0);
        }
        decision
    }

    /// Answer a password attempt for `user`. `verdict` is the password
    /// verifier's verdict, present exactly when a password verifier is
    /// configured.
    pub fn auth_password(&mut self, user: &str, verdict: Option<bool>) -> (r: AuthDecision)
        requires
            verdict is Some <==> old(self)@.auth.password,
        ensures
            (final(self)@, r) == old(self)@.step_auth_password(user@, verdict),
    {
        let decision = crate::auth::password_decision(&self.auth, verdict);
        if let AuthDecision::Accept = decision {
            self.user = Some(user.to_owned());
        }
        proof {
            assert(final(self)@ =~= old(self)@.step_auth_password(user@, verdict).0);
        }
        decision
    }

    /// An environment request: bind `name` to `value` in the pending map.
    pub fn env_request(&mut self, name: String, value: String)
        ensures
            final(self)@ == old(self)@.step_env(name@, value@),
    {
        let ghost nm: Seq<char> = name@;
        let ghost vv: Seq<char> = value@;
        self.env.insert(name, value);
        proof {
            assert(final(self)@ =~= old(self)@.step_env(nm, vv));
        }
    }

    /// A pseudo-terminal request: store the terminal name and geometry as
    /// pending. Terminal modes are accepted but not interpreted.
    pub fn pty_request(
        &mut self,
        term: String,
        col_width: u32,
        row_height: u32,
        pix_width: u32,
        pix_height: u32,
    )
        ensures
            final(self)@ == old(self)@.step_pty(
                term@,
                PtySize {
                    width: col_width,
                    height: row_height,
                    pixel_width: pix_width,
                    pixel_height: pix_height,
                },
            ),
    {
        let ghost tm: Seq<char> = term@;
        let size = PtySize {
            width: col_width,
            height: row_height,
            pixel_width: pix_width,
            pixel_height: pix_height,
        };
        self.pty = Some((term, size));
        proof {
            assert(final(self)@ =~= old(self)@.step_pty(tm, size));
        }
    }

    /// The user a session is built with; see [`session_user`].
    fn take_session_user(&self) -> (r: String)
        ensures
            r@ == session_user(self@.user),
    {
        match &self.user {
            Some(u) => u.clone(),
            None => String::from_str("unknown"),
        }
    }

    /// The environment snapshot for a session: the accumulated map is
    /// moved out and left empty.
    fn take_env(&mut self) -> (r: EnvMap)
        ensures
            r@ == old(self)@.env,
            final(self)@ == (ConnectionView { env: Seq::empty(), ..old(self)@ }),
    {
        let mut env = EnvMap::new();
        std::mem::swap(&mut env, &mut self.env);
        proof {
            assert(final(self)@ =~= (ConnectionView { env: Seq::empty(), ..old(self)@ }));
        }
        env
    }

    /// A shell request. With a stored channel the session is built — `Pty`
    /// when a pseudo-terminal is pending, else `Shell` — and returned for
    /// the handler task; without one the protocol invariant was violated
    /// and nothing changes.
    pub fn shell_request(&mut self) -> (r: Result<Session, Error>)
        ensures
            old(self)@.has_channel ==> {
                &&& final(self)@ == old(self)@.step_shell().0
                &&& r matches Ok(s) && Some(s@) == old(self)@.step_shell().1
            },
            !old(self)@.has_channel ==> {
                &&& final(self)@ == old(self)@
                &&& r matches Err(e) && e matches Error::Protocol(m) && m@
                    == "No channel available"@
            },
    {
        if !self.has_channel {
            return Err(Error::Protocol(String::from_str("No channel available")));
        }
        self.has_channel = false;
        let user = self.take_session_user();
        let env = self.take_env();
        let kind = match self.pty.take() {
            Some((term, size)) => SessionKind::Pty { term, size },
            None => SessionKind::Shell,
        };
        let session = Session::new(kind, user, env, self.remote_addr.clone());
        proof {
            assert(final(self)@ =~= old(self)@.step_shell().0);
            assert(session@ =~= old(self)@.step_shell().1.unwrap());
        }
        Ok(session)
    }

    /// An exec request carrying the raw command line `data`. With a stored
    /// channel the session is built — `Pty` when a pseudo-terminal is
    /// pending, else `Exec` with the command decoded as UTF-8, lossily —
    /// and returned for the handler task; without one nothing changes.
    pub fn exec_request(&mut self, data: &[u8]) -> (r: Result<Session, Error>)
        ensures
            old(self)@.has_channel ==> {
                &&& final(self)@ == old(self)@.step_exec(data@).0
                &&& r matches Ok(s) && Some(s@) == old(self)@.step_exec(data@).1
            },
            !old(self)@.has_channel ==> {
                &&& final(self)@ == old(self)@
                &&& r matches Err(e) && e matches Error::Protocol(m) && m@
                    == "No channel available"@
            },
    {
        if !self.has_channel {
            return Err(Error::Protocol(String::from_str("No channel available")));
        }
        self.has_channel = false;
        let command = crate::text::utf8_lossy(data);
        let user = self.take_session_user();
        let env = self.take_env();
        let kind = match self.pty.take() {
            Some((term, size)) => SessionKind::Pty { term, size },
            None => SessionKind::Exec { command },
        };
        let session = Session::new(kind, user, env, self.remote_addr.clone());
        proof {
            assert(final(self)@ =~= old(self)@.step_exec(data@).0);
            assert(session@ =~= old(self)@.step_exec(data@).1.unwrap());
        }
        Ok(session)
    }

    /// A subsystem request for `name`. With a stored channel the session
    /// is built with the named subsystem as its kind; without one nothing
    /// changes.
    pub fn subsystem_request(&mut self, name: String) -> (r: Result<Session, Error>)
        ensures
            old(self)@.has_channel ==> {
                &&& final(self)@ == old(self)@.step_subsystem(name@).0
                &&& r matches Ok(s) && Some(s@) == old(self)@.step_subsystem(name@).1
            },
            !old(self)@.has_channel ==> {
                &&& final(self)@ == old(self)@
                &&& r matches Err(e) && e matches Error::Protocol(m) && m@
                    == "No channel available"@
            },
    {
        let ghost nm: Seq<char> = name@;
        if !self.has_channel {
            return Err(Error::Protocol(String::from_str("No channel available")));
        }
        self.has_channel = false;
        let user = self.take_session_user();
        let env = self.take_env();
        let kind = SessionKind::Subsystem { name };
        let session = Session::new(kind, user, env, self.remote_addr.clone());
        proof {
            assert(final(self)@ =~= old(self)@.step_subsystem(nm).0);
            assert(session@ =~= old(self)@.step_subsystem(nm).1.unwrap());
        }
        Ok(session)
    }
}

/// An accepted authentication attempt records exactly the name the
/// verifier saw, and a promoting request then builds the session with that
/// name; a rejected attempt records nothing.
pub proof fn lemma_authenticated_user_is_session_user(
    c: ConnectionView,
    user: Seq<char>,
    verdict: Option<bool>,
)
    ensures
        c.step_auth_pubkey(user, verdict).1 is Accept ==> c.step_auth_pubkey(
            user,
            verdict,
        ).0.user == Some(user),
        !(c.step_auth_pubkey(user, verdict).1 is Accept) ==> c.step_auth_pubkey(
            user,
            verdict,
        ).0 == c,
        c.step_auth_password(user, verdict).1 is Accept ==> c.step_auth_password(
            user,
            verdict,
        ).0.user == Some(user),
        !(c.step_auth_password(user, verdict).1 is Accept) ==> c.step_auth_password(
            user,
            verdict,
        ).0 == c,
        (c.user == Some(user) && c.has_channel) ==> (match c.step_shell().1 {
            Some(s) => s.user == user,
            None => false,
        }),
{
}

/// Every promoting request, on an adapter with a stored channel, builds
/// its session from the same ingredients: the recorded user (or the
/// literal `unknown`), the whole accumulated environment, the peer's
/// address, and no exit code — and afterwards the channel is taken and
/// the adapter's environment is empty, so nothing accumulated leaks into
/// a later session.
pub proof fn lemma_promotion_builds_the_session(
    c: ConnectionView,
    data: Seq<u8>,
    name: Seq<char>,
)
    requires
        c.has_channel,
    ensures
        ({
            let (c2, sv) = c.step_shell();
            &&& sv == Some(c.promoted_session(shell_kind(c.pty)))
            &&& !c2.has_channel
            &&& c2.env == Seq::<(Seq<char>, Seq<char>)>::empty()
        }),
        ({
            let (c2, sv) = c.step_exec(data);
            &&& sv == Some(
                c.promoted_session(exec_kind(c.pty, crate::text::lossy_utf8(data))),
            )
            &&& !c2.has_channel
            &&& c2.env == Seq::<(Seq<char>, Seq<char>)>::empty()
        }),
        ({
            let (c2, sv) = c.step_subsystem(name);
            &&& sv == Some(c.promoted_session(KindView::Subsystem { name }))
            &&& !c2.has_channel
            &&& c2.env == Seq::<(Seq<char>, Seq<char>)>::empty()
        }),
        c.promoted_session(shell_kind(c.pty)).user == session_user(c.user),
        c.promoted_session(shell_kind(c.pty)).env == c.env,
        c.promoted_session(shell_kind(c.pty)).addr == c.addr,
        c.promoted_session(shell_kind(c.pty)).exit_code is None,
{
}

/// When authentication was bypassed — no attempt recorded a user — the
/// session is built with the literal `unknown` as its principal name.
pub proof fn lemma_bypassed_auth_user_is_unknown(c: ConnectionView)
    requires
        c.user is None,
        c.has_channel,
    ensures
        match c.step_shell().1 {
            Some(s) => s.user == "unknown"@,
            None => false,
        },
{
}

/// `c` after observing the environment requests `reqs`, in order.
pub open spec fn apply_env_requests(c: ConnectionView, reqs: Seq<(Seq<char>, Seq<char>)>) -> ConnectionView
    decreases reqs.len(),
{
    if reqs.len() == 0 {
        c
    } else {
        apply_env_requests(c.step_env(reqs[0].0, reqs[0].1), reqs.drop_first())
    }
}

/// `start` after binding each request of `reqs`, in order.
pub open spec fn env_after(
    start: Seq<(Seq<char>, Seq<char>)>,
    reqs: Seq<(Seq<char>, Seq<char>)>,
) -> Seq<(Seq<char>, Seq<char>)>
    decreases reqs.len(),
{
    if reqs.len() == 0 {
        start
    } else {
        env_after(spec_insert(start, reqs[0].0, reqs[0].1), reqs.drop_first())
    }
}

/// Environment requests change nothing but the accumulated map.
pub proof fn lemma_apply_env_requests(c: ConnectionView, reqs: Seq<(Seq<char>, Seq<char>)>)
    ensures
        apply_env_requests(c, reqs) =~= (ConnectionView { env: env_after(c.env, reqs), ..c }),
    decreases reqs.len(),
{
    if reqs.len() == 0 {
    } else {
        lemma_apply_env_requests(c.step_env(reqs[0].0, reqs[0].1), reqs.drop_first());
    }
}

/// The environment a handler sees is exactly the requests received between
/// channel-open and the promoting request, later bindings of a name
/// replacing earlier ones — and the adapter's own map is left empty.
pub proof fn lemma_env_snapshot(c: ConnectionView, reqs: Seq<(Seq<char>, Seq<char>)>)
    requires
        c.env == Seq::<(Seq<char>, Seq<char>)>::empty(),
    ensures
        ({
            let promoted = apply_env_requests(c.step_open_channel(), reqs);
            &&& (match promoted.step_shell().1 {
                Some(s) => s.env == env_after(Seq::empty(), reqs),
                None => false,
            })
            &&& promoted.step_shell().0.env == Seq::<(Seq<char>, Seq<char>)>::empty()
        }),
{
    lemma_apply_env_requests(c.step_open_channel(), reqs);
}

} // verus!
