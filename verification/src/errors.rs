//! The errors the session surface reports to the caller. Only failures
//! that affect whether the surface itself is usable are returned; physical
//! I/O hiccups are absorbed inside the worker.

use vstd::prelude::*;

verus! {

/// Why a call on the session surface failed.
#[derive(Clone, Copy, PartialEq, Eq, Structural, Debug)]
pub enum TerminalError {
    /// The driver could not open the port. Terminal for that attempt; a
    /// fresh connect may be tried.
    ConnectFailed,
    /// A connect was attempted while a session is already live. The
    /// existing session is left untouched.
    AlreadyConnected,
    /// A send was attempted with no live worker to receive it.
    Disconnected,
}

} // verus!
