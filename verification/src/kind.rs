//! Why a channel was promoted to an application session.

use vstd::prelude::*;

use crate::pty::PtySize;

verus! {

/// The request that promoted the channel, with what it carried.
///
/// A pseudo-terminal request observed before the promoting request turns a
/// shell or command channel into `Pty`; the cached `size` tracks the most
/// recent window-change event seen on the channel.
#[derive(Debug, PartialEq, Eq)]
pub enum SessionKind {
    /// An interactive channel with an allocated pseudo-terminal.
    Pty { term: String, size: PtySize },
    /// An interactive shell without a pseudo-terminal.
    Shell,
    /// A single remote command.
    Exec { command: String },
    /// A named non-shell protocol riding inside the channel.
    Subsystem { name: String },
}

/// The spec-level shape of a [`SessionKind`], with texts as character
/// sequences.
pub enum KindView {
    Pty { term: Seq<char>, size: PtySize },
    Shell,
    Exec { command: Seq<char> },
    Subsystem { name: Seq<char> },
}

impl View for SessionKind {
    type V = KindView;

    open spec fn view(&self) -> KindView {
        match self {
            SessionKind::Pty { term, size } => KindView::Pty { term: term@, size: *size },
            SessionKind::Shell => KindView::Shell,
            SessionKind::Exec { command } => KindView::Exec { command: command@ },
            SessionKind::Subsystem { name } => KindView::Subsystem { name: name@ },
        }
    }
}

impl Clone for SessionKind {
    fn clone(&self) -> (r: Self)
        ensures
            r == *self,
    {
        match self {
            SessionKind::Pty { term, size } => SessionKind::Pty {
                term: term.clone(),
                size: *size,
            },
            SessionKind::Shell => SessionKind::Shell,
            SessionKind::Exec { command } => SessionKind::Exec { command: command.clone() },
            SessionKind::Subsystem { name } => SessionKind::Subsystem { name: name.clone() },
        }
    }
}

impl SessionKind {
    /// True for the kinds a human sits in front of.
    pub open spec fn spec_interactive(self) -> bool {
        self is Pty || self is Shell
    }

    /// The cached terminal size, present only on a `Pty` kind.
    pub open spec fn spec_pty_size(self) -> Option<PtySize> {
        match self {
            SessionKind::Pty { size, .. } => Some(size),
            _ => None,
        }
    }

    /// This kind after a window-change to `new`: only a `Pty` caches it.
    pub open spec fn with_size(self, new: PtySize) -> SessionKind {
        match self {
            SessionKind::Pty { term, size } => SessionKind::Pty { term, size: new },
            other => other,
        }
    }
}

} // verus!
