//! The streaming sink's decisions.  A sink wraps one broadcast connection:
//! each write sends the bytes and, when that worked, forces them out at once;
//! the first failed send leaves the sink failed for good.
use vstd::prelude::*;

verus! {

/// A write to the broadcast connection failed.  The transport's own cause is
/// not kept.
#[derive(PartialEq, Eq, Structural, Clone, Copy, Debug)]
pub struct StreamWriteFailure;

impl StreamWriteFailure {
    pub fn message(&self) -> (r: String)
        ensures
            r@ == "Error writing to Shoutcast Connection"@,
    {
        "Error writing to Shoutcast Connection".to_owned()
    }
}

/// What a write does with the connection.
#[derive(PartialEq, Eq, Structural, Clone, Copy, Debug)]
pub enum SinkAction {
    /// Send the bytes, and force them out if the send worked.
    SendThenSync,
    /// Send nothing: the sink has failed.
    Refuse,
}

/// The state of a sink: connected, or failed after a send that did not work.
#[derive(PartialEq, Eq, Structural, Clone, Copy, Debug)]
pub struct StreamSink {
    pub failed: bool,
}

impl StreamSink {
    /// A sink on a connection that was just made.
    pub fn new() -> (r: Self)
        ensures
            !r.failed,
    {
        StreamSink { failed: false }
    }

    /// A connected sink sends; a failed one never sends again.
    pub fn begin_write(&self) -> (r: SinkAction)
        ensures
            r == SinkAction::SendThenSync <==> !self.failed,
    {
        if self.failed {
            SinkAction::Refuse
        } else {
            SinkAction::SendThenSync
        }
    }

    /// The result of a write of `len` bytes.  `sent` says whether the
    /// connection took them; a refused write counts as not sent.  A write
    /// that worked reports all `len` bytes; any other fails, and the sink is
    /// failed from then on.
    pub fn finish_write(&mut self, sent: bool, len: usize) -> (r: Result<usize, StreamWriteFailure>)
        ensures
            final(self).failed == (old(self).failed || !sent),
            (r == Ok::<usize, StreamWriteFailure>(len)) <==> (!old(self).failed && sent),
            r is Err <==> (old(self).failed || !sent),
    {
        if self.failed || !sent {
            self.failed = true;
            Err(StreamWriteFailure)
        } else {
            Ok(len)
        }
    }
}

} // verus!
