//! The application-visible handle over a single promoted channel.
//!
//! A `Session` is created by the connection adapter once authentication has
//! succeeded and a promoting request has been observed. It carries why the
//! channel opened, the authenticated user, the environment snapshot, and
//! the exit state. The event pump's decision logic — which protocol frame
//! becomes which event, and how a window change updates the cached terminal
//! size — is [`Session::absorb`]; the glue that owns the transport channel
//! feeds frames in and performs the planned writes and the finish plan.

use vstd::prelude::*;

use crate::env_map::EnvMap;
use crate::error::Error;
use crate::event::Event;
use crate::event::Frame;
use crate::kind::SessionKind;
use crate::pty::PtySize;

verus! {

/// The extended-data stream code that carries standard error.
pub const STDERR_STREAM: u32 = 1;

/// The peer's socket address, captured at accept time.
#[derive(Debug, PartialEq, Eq)]
pub struct RemoteAddr {
    pub ip: String,
    pub port: u16,
}

impl Clone for RemoteAddr {
    fn clone(&self) -> (r: Self)
        ensures
            r == *self,
    {
        RemoteAddr { ip: self.ip.clone(), port: self.port }
    }
}

/// One write the runtime asks the transport to perform on the channel.
#[derive(Debug, PartialEq, Eq)]
pub struct WriteOp {
    /// The extended-data stream code; `None` is the main data stream.
    pub stream: Option<u32>,
    /// The bytes to send.
    pub data: Vec<u8>,
}

/// One step of the finish sequence run after the handler chain returns.
#[derive(Debug, Clone, PartialEq, Eq, Structural)]
pub enum FinalAction {
    /// Report the stored exit code to the peer.
    SendExitStatus(u32),
    /// Send the end-of-file marker.
    SendEof,
    /// Close the channel.
    Close,
}

impl View for RemoteAddr {
    type V = (Seq<char>, u16);

    open spec fn view(&self) -> (Seq<char>, u16) {
        (self.ip@, self.port)
    }
}

/// The spec-level shape of a [`Session`], with texts as character
/// sequences; the laws about promotion are stated over it.
pub struct SessionView {
    pub kind: crate::kind::KindView,
    pub user: Seq<char>,
    pub env: Seq<(Seq<char>, Seq<char>)>,
    pub addr: (Seq<char>, u16),
    pub exit_code: Option<u32>,
}

/// The application's handle to a single promoted channel.
#[derive(Debug)]
pub struct Session {
    kind: SessionKind,
    user: String,
    env: EnvMap,
    remote_addr: RemoteAddr,
    exit_code: Option<u32>,
}

impl View for Session {
    type V = SessionView;

    closed spec fn view(&self) -> SessionView {
        SessionView {
            kind: self.kind@,
            user: self.user@,
            env: self.env@,
            addr: self.remote_addr@,
            exit_code: self.exit_code,
        }
    }
}

impl Session {
    /// Why the channel was promoted.
    pub closed spec fn spec_kind(&self) -> SessionKind {
        self.kind
    }

    /// The authenticated principal name.
    pub closed spec fn spec_user(&self) -> String {
        self.user
    }

    /// The environment snapshot taken at promotion.
    pub closed spec fn spec_env(&self) -> EnvMap {
        self.env
    }

    /// The peer's address.
    pub closed spec fn spec_addr(&self) -> RemoteAddr {
        self.remote_addr
    }

    /// The stored exit code, if one was set.
    pub closed spec fn spec_exit_code(&self) -> Option<u32> {
        self.exit_code
    }

    /// `self` after absorbing `frame`, with the event yielded, if any.
    ///
    /// Only a window change alters the session: a `Pty` kind caches the new
    /// size. Everything else — user, environment, address, exit state — is
    /// untouched by the pump.
    pub closed spec fn spec_absorb(self, frame: Frame) -> (Session, Option<Event>) {
        match frame {
            Frame::Data(data) => (self, Some(Event::Input(data))),
            Frame::WindowChange { col_width, row_height, pix_width, pix_height } => {
                let size = PtySize {
                    width: col_width,
                    height: row_height,
                    pixel_width: pix_width,
                    pixel_height: pix_height,
                };
                (
                    Session { kind: self.kind.with_size(size), ..self },
                    Some(Event::Resize(size)),
                )
            },
            Frame::Signal(name) => (self, Some(Event::Signal(name))),
            Frame::Eof => (self, Some(Event::Eof)),
            Frame::Other => (self, None),
        }
    }

    /// `self` with the exit code stored.
    pub closed spec fn spec_exit(self, code: u32) -> Session {
        Session { exit_code: Some(code), ..self }
    }

    /// The finish sequence owed for the stored exit state: report the exit
    /// code, then end-of-file, then close — or nothing when no code was set.
    pub open spec fn spec_finish_actions(self) -> Seq<FinalAction> {
        match self.spec_exit_code() {
            Some(code) => seq![
                FinalAction::SendExitStatus(code),
                FinalAction::SendEof,
                FinalAction::Close,
            ],
            None => Seq::empty(),
        }
    }

    /// A fresh session for a promoted channel; no exit code is stored yet.
    pub fn new(kind: SessionKind, user: String, env: EnvMap, remote_addr: RemoteAddr) -> (r:
        Session)
        ensures
            r.spec_kind() == kind,
            r.spec_user() == user,
            r.spec_env() == env,
            r.spec_addr() == remote_addr,
            r.spec_exit_code() is None,
            r@ == (SessionView {
                kind: kind@,
                user: user@,
                env: env@,
                addr: remote_addr@,
                exit_code: None,
            }),
    {
        Session { kind, user, env, remote_addr, exit_code: None }
    }

    /// Absorb one protocol frame and yield the event it carries.
    ///
    /// Data, window-change, signal and end-of-input frames each yield their
    /// event; a window change also updates the size cached in a `Pty` kind.
    /// Any other frame yields nothing, and the pump loops for the next one.
    pub fn absorb(&mut self, frame: Frame) -> (r: Option<Event>)
        ensures
            (*final(self), r) == old(self).spec_absorb(frame),
            final(self).spec_user() == old(self).spec_user(),
            final(self).spec_env() == old(self).spec_env(),
            final(self).spec_addr() == old(self).spec_addr(),
            final(self).spec_exit_code() == old(self).spec_exit_code(),
            match frame {
                Frame::Data(data) => r == Some(Event::Input(data)) && final(self).spec_kind()
                    == old(self).spec_kind(),
                Frame::WindowChange { col_width, row_height, pix_width, pix_height } => {
                    let size = PtySize {
                        width: col_width,
                        height: row_height,
                        pixel_width: pix_width,
                        pixel_height: pix_height,
                    };
                    r == Some(Event::Resize(size)) && final(self).spec_kind() == old(
                        self,
                    ).spec_kind().with_size(size)
                },
                Frame::Signal(name) => r == Some(Event::Signal(name)) && final(self).spec_kind()
                    == old(self).spec_kind(),
                Frame::Eof => r == Some(Event::Eof) && final(self).spec_kind() == old(
                    self,
                ).spec_kind(),
                Frame::Other => r is None && final(self).spec_kind() == old(self).spec_kind(),
            },
    {
        match frame {
            Frame::Data(data) => Some(Event::Input(data)),
            Frame::WindowChange { col_width, row_height, pix_width, pix_height } => {
                let size = PtySize {
                    width: col_width,
                    height: row_height,
                    pixel_width: pix_width,
                    pixel_height: pix_height,
                };
                if let SessionKind::Pty { term: _, size: cached } = &mut self.kind {
                    *cached = size;
                }
                Some(Event::Resize(size))
            },
            Frame::Signal(name) => Some(Event::Signal(name)),
            Frame::Eof => Some(Event::Eof),
            Frame::Other => None,
        }
    }

    /// The input bytes carried by `event`, for the reader that filters the
    /// pump down to data frames; any other event is skipped by that reader.
    pub fn event_input(event: Event) -> (r: Option<Vec<u8>>)
        ensures
            match event {
                Event::Input(data) => r == Some(data),
                _ => r is None,
            },
    {
        match event {
            Event::Input(data) => Some(data),
            _ => None,
        }
    }

    /// Why the channel was promoted.
    pub fn kind(&self) -> (r: SessionKind)
        ensures
            r == self.spec_kind(),
    {
        self.kind.clone()
    }

    /// The terminal name and size, only when a pseudo-terminal was allocated.
    pub fn pty(&self) -> (r: Option<(&str, PtySize)>)
        ensures
            match self.spec_kind() {
                SessionKind::Pty { term, size } => {
                    &&& r matches Some(p)
                    &&& p.0@ == term@
                    &&& p.1 == size
                },
                _ => r is None,
            },
    {
        match &self.kind {
            SessionKind::Pty { term, size } => Some((term.as_str(), *size)),
            _ => None,
        }
    }

    /// The remote command line, only for an `Exec` session.
    pub fn command(&self) -> (r: Option<&str>)
        ensures
            match self.spec_kind() {
                SessionKind::Exec { command } => r matches Some(c) && c@ == command@,
                _ => r is None,
            },
    {
        match &self.kind {
            SessionKind::Exec { command } => Some(command.as_str()),
            _ => None,
        }
    }

    /// The subsystem name, only for a `Subsystem` session.
    pub fn subsystem(&self) -> (r: Option<&str>)
        ensures
            match self.spec_kind() {
                SessionKind::Subsystem { name } => r matches Some(n) && n@ == name@,
                _ => r is None,
            },
    {
        match &self.kind {
            SessionKind::Subsystem { name } => Some(name.as_str()),
            _ => None,
        }
    }

    /// The cached terminal size, only when a pseudo-terminal was allocated.
    pub fn pty_size(&self) -> (r: Option<PtySize>)
        ensures
            r == self.spec_kind().spec_pty_size(),
    {
        match &self.kind {
            SessionKind::Pty { term: _, size } => Some(*size),
            _ => None,
        }
    }

    /// The terminal name, only when a pseudo-terminal was allocated.
    pub fn term(&self) -> (r: Option<&str>)
        ensures
            match self.spec_kind() {
                SessionKind::Pty { term, size } => r matches Some(t) && t@ == term@,
                _ => r is None,
            },
    {
        match &self.kind {
            SessionKind::Pty { term, size: _ } => Some(term.as_str()),
            _ => None,
        }
    }

    /// The authenticated principal name.
    pub fn user(&self) -> (r: &str)
        ensures
            r@ == self.spec_user()@,
    {
        self.user.as_str()
    }

    /// The peer's socket address, captured at accept time.
    pub fn remote_addr(&self) -> (r: &RemoteAddr)
        ensures
            *r == self.spec_addr(),
    {
        &self.remote_addr
    }

    /// The environment snapshot taken at promotion.
    pub fn env(&self) -> (r: &EnvMap)
        ensures
            *r == self.spec_env(),
    {
        &self.env
    }

    /// Store `code` as the exit code and hand the session back; the code is
    /// reported to the peer only by the finish sequence, after the handler
    /// chain returns.
    pub fn exit(self, code: u32) -> (r: Result<Session, Error>)
        ensures
            r matches Ok(s) && s == self.spec_exit(code),
            r matches Ok(s) && s.spec_exit_code() == Some(code),
            r matches Ok(s) && s.spec_kind() == self.spec_kind(),
            r matches Ok(s) && s.spec_user() == self.spec_user(),
            r matches Ok(s) && s.spec_env() == self.spec_env(),
            r matches Ok(s) && s.spec_addr() == self.spec_addr(),
    {
        Ok(Session { exit_code: Some(code), ..self })
    }

    /// The stored exit code, if one was set.
    pub fn exit_code(&self) -> (r: Option<u32>)
        ensures
            r == self.spec_exit_code(),
    {
        self.exit_code
    }

    /// True when an exit code is stored.
    pub fn will_exit(&self) -> (r: bool)
        ensures
            r == (self.spec_exit_code() is Some),
    {
        self.exit_code.is_some()
    }

    /// True for the kinds a human sits in front of.
    pub fn is_interactive(&self) -> (r: bool)
        ensures
            r == self.spec_kind().spec_interactive(),
    {
        match &self.kind {
            SessionKind::Pty { .. } => true,
            SessionKind::Shell => true,
            _ => false,
        }
    }

    /// The finish sequence owed for the stored exit state.
    pub fn finish_actions(&self) -> (r: Vec<FinalAction>)
        ensures
            r@ == self.spec_finish_actions(),
    {
        match self.exit_code {
            Some(code) => {
                let mut actions: Vec<FinalAction> = Vec::new();
                actions.push(FinalAction::SendExitStatus(code));
                actions.push(FinalAction::SendEof);
                actions.push(FinalAction::Close);
                proof {
                    assert(actions@ =~= self.spec_finish_actions());
                }
                actions
            },
            None => {
                let actions: Vec<FinalAction> = Vec::new();
                proof {
                    assert(actions@ =~= self.spec_finish_actions());
                }
                actions
            },
        }
    }
}

/// The write of the bytes `data` on the stream `stream`, as the spec-level
/// pair of stream code and payload.
pub open spec fn spec_write_op(stream: Option<u32>, data: Seq<u8>) -> (Option<u32>, Seq<u8>) {
    (stream, data)
}

/// The write of the text `s` on the stream `stream`: its payload is the
/// UTF-8 encoding of `s`.
pub open spec fn spec_write_str_op(stream: Option<u32>, s: Seq<char>) -> (Option<u32>, Seq<u8>) {
    (stream, vstd::utf8::encode_utf8(s))
}

/// The write of `data` on the main data stream.
pub fn write_op(data: Vec<u8>) -> (r: WriteOp)
    ensures
        (r.stream, r.data@) == spec_write_op(None, data@),
{
    WriteOp { stream: None, data }
}

/// The write of the text `s` on the main data stream: the same operation
/// as [`write_op`] on the UTF-8 encoding of `s`.
pub fn write_str_op(s: &str) -> (r: WriteOp)
    ensures
        (r.stream, r.data@) == spec_write_str_op(None, s@),
{
    WriteOp { stream: None, data: s.as_bytes_vec() }
}

/// The write of `data` on the extended-data stream carrying standard error.
pub fn write_stderr_op(data: Vec<u8>) -> (r: WriteOp)
    ensures
        (r.stream, r.data@) == spec_write_op(Some(STDERR_STREAM), data@),
{
    WriteOp { stream: Some(STDERR_STREAM), data }
}

/// The write of the text `s` on the standard-error stream: the same
/// operation as [`write_stderr_op`] on the UTF-8 encoding of `s`.
pub fn write_stderr_str_op(s: &str) -> (r: WriteOp)
    ensures
        (r.stream, r.data@) == spec_write_str_op(Some(STDERR_STREAM), s@),
{
    WriteOp { stream: Some(STDERR_STREAM), data: s.as_bytes_vec() }
}

/// Writing a text is writing its UTF-8 bytes: on any stream, the write
/// built from the text `s` is exactly the write built from the encoding
/// of `s`.
pub proof fn lemma_write_str_is_write_bytes(stream: Option<u32>, s: Seq<char>)
    ensures
        spec_write_str_op(stream, s) == spec_write_op(stream, vstd::utf8::encode_utf8(s)),
{
}

/// Storing an exit code and finishing at once is the same as storing it
/// and letting the runtime finish after the handler chain returns: the
/// finish sequence after `exit(code)` is exactly report-code, end-of-file,
/// close.
pub proof fn lemma_abort_is_exit_then_finish(s: Session, code: u32)
    ensures
        s.spec_exit(code).spec_finish_actions() =~= seq![
            FinalAction::SendExitStatus(code),
            FinalAction::SendEof,
            FinalAction::Close,
        ],
{
}

/// An exit code, once stored, is never cleared: it survives any amount of
/// event-pump traffic, and changes only when a later `exit` overwrites it.
pub proof fn lemma_exit_code_stable(s: Session, code: u32, frame: Frame, later: u32)
    ensures
        s.spec_exit(code).spec_exit_code() == Some(code),
        s.spec_exit(code).spec_absorb(frame).0.spec_exit_code() == Some(code),
        s.spec_exit(code).spec_exit(later).spec_exit_code() == Some(later),
{
}

/// The session after absorbing `frames`, in order.
pub open spec fn absorb_all(s: Session, frames: Seq<Frame>) -> Session
    decreases frames.len(),
{
    if frames.len() == 0 {
        s
    } else {
        absorb_all(s.spec_absorb(frames[0]).0, frames.drop_first())
    }
}

/// The geometry of the most recent window-change frame of `frames`, if
/// one occurs.
pub open spec fn last_resize(frames: Seq<Frame>) -> Option<PtySize>
    decreases frames.len(),
{
    if frames.len() == 0 {
        None
    } else {
        let rest = last_resize(frames.drop_first());
        if rest is Some {
            rest
        } else {
            match frames[0] {
                Frame::WindowChange { col_width, row_height, pix_width, pix_height } => Some(
                    PtySize {
                        width: col_width,
                        height: row_height,
                        pixel_width: pix_width,
                        pixel_height: pix_height,
                    },
                ),
                _ => None,
            }
        }
    }
}

/// A pseudo-terminal session's cached size always reflects the most
/// recent window-change observed: after any sequence of frames, it is
/// the geometry of the last window-change among them, or the size it
/// already cached when there was none.
pub proof fn lemma_pty_size_is_most_recent_resize(s: Session, frames: Seq<Frame>)
    requires
        s.spec_kind() is Pty,
    ensures
        absorb_all(s, frames).spec_kind() is Pty,
        absorb_all(s, frames).spec_kind().spec_pty_size() == (match last_resize(frames) {
            Some(size) => Some(size),
            None => s.spec_kind().spec_pty_size(),
        }),
    decreases frames.len(),
{
    if frames.len() == 0 {
    } else {
        let s2 = s.spec_absorb(frames[0]).0;
        assert(s2.spec_kind() is Pty);
        lemma_pty_size_is_most_recent_resize(s2, frames.drop_first());
    }
}

/// After a window-change event is absorbed by a pseudo-terminal session,
/// the cached terminal size is exactly the new geometry, and the pump
/// yields the matching resize event.
pub proof fn lemma_resize_updates_pty_size(s: Session, frame: Frame)
    requires
        s.spec_kind() is Pty,
        frame matches Frame::WindowChange { .. },
    ensures
        ({
            let size = (match frame {
                Frame::WindowChange { col_width, row_height, pix_width, pix_height } => PtySize {
                    width: col_width,
                    height: row_height,
                    pixel_width: pix_width,
                    pixel_height: pix_height,
                },
                _ => PtySize { width: 0, height: 0, pixel_width: 0, pixel_height: 0 },
            });
            &&& s.spec_absorb(frame).0.spec_kind().spec_pty_size() == Some(size)
            &&& s.spec_absorb(frame).1 == Some(Event::Resize(size))
        }),
{
}

} // verus!
