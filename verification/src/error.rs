use vstd::prelude::*;

verus! {

/// Error surfaced by an asynchronous messaging operation.
///
/// Would-block is never surfaced as an error: it drives suspension and retry
/// inside the polling operations. The variants here are the terminal
/// outcomes handed back to the caller.
#[derive(Clone, Copy, Debug, PartialEq, Eq, Structural)]
pub enum TmqError {
    /// Fatal transport error, carrying the transport's error code.
    Zmq(i32),
    /// A multi-frame send wrote at least one frame to the wire and then could
    /// not continue. The peer may be left mid-way through a message that will
    /// never complete, so this condition is surfaced distinctly rather than
    /// folded into the generic transport failure.
    InterruptedSend,
    /// I/O error from the readiness registration, carrying the OS error code.
    Io(i32),
}

} // verus!
