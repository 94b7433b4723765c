//! Events the session facade yields to application code.

use vstd::prelude::*;

use crate::pty::PtySize;

verus! {

/// A typed event produced by the session's event pump.
#[derive(Debug, Clone, PartialEq, Eq)]
pub enum Event {
    /// A data frame from the peer.
    Input(Vec<u8>),
    /// The peer resized its terminal window.
    Resize(PtySize),
    /// The peer delivered the named signal.
    Signal(String),
    /// The peer will send no more input.
    Eof,
}

/// A protocol message observed on the channel, reduced to the parts the
/// event pump reads. Everything the pump skips arrives as `Other`.
#[derive(Debug, Clone, PartialEq, Eq)]
pub enum Frame {
    /// A data frame carrying input bytes.
    Data(Vec<u8>),
    /// A window-change message with the new terminal geometry.
    WindowChange { col_width: u32, row_height: u32, pix_width: u32, pix_height: u32 },
    /// A signal message, by signal name.
    Signal(String),
    /// The end-of-input marker.
    Eof,
    /// Any other protocol message; the pump skips it.
    Other,
}

} // verus!
