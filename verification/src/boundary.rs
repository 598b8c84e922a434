//! The response-handling protocol for native query calls.
//!
//! Every native query returns a status code plus a pointer to a
//! native-allocated text buffer.  The protocol is uniform: a null buffer
//! fails the call outright; otherwise the text is copied to owned memory
//! and the native buffer is released exactly once — on every path, success
//! or failure — and only then is the status code consulted.
//!
//! The unverified shell performs the raw copy and release; the decision it
//! must follow is [`interpret_reply`].  The release discipline itself is
//! proved here over an instrumented stand-in for the native allocator:
//! [`reclaim_and_interpret`] runs the whole protocol against a
//! [`BufferLedger`] and its contract pins the number of releases.

use vstd::prelude::*;
use crate::errors::OsrmError;

verus! {

/// The status code with which the native side reports success.
pub const STATUS_OK: i32 = 0;

/// Counts allocate and release operations of a stand-in native allocator,
/// so the reclaim-exactly-once discipline can be stated and tested.
#[derive(Clone, Copy, Debug, PartialEq, Eq, Structural)]
pub struct BufferLedger {
    pub allocated: u64,
    pub freed: u64,
}

impl BufferLedger {
    /// A ledger with no buffers outstanding.
    pub fn new() -> (r: BufferLedger)
        ensures
            r.allocated == 0,
            r.freed == 0,
    {
        BufferLedger { allocated: 0, freed: 0 }
    }

    /// Every allocation has been matched by exactly one release.
    pub open spec fn balanced(&self) -> bool {
        self.allocated == self.freed
    }

    /// Records that the native side handed out one buffer.
    pub fn record_alloc(&mut self)
        requires
            old(self).allocated < u64::MAX,
        ensures
            final(self).allocated == old(self).allocated + 1,
            final(self).freed == old(self).freed,
    {
        self.allocated = self.allocated + 1;
    }

    /// Records that one buffer was released back to the native side.
    pub fn record_free(&mut self)
        requires
            old(self).freed < u64::MAX,
        ensures
            final(self).freed == old(self).freed + 1,
            final(self).allocated == old(self).allocated,
    {
        self.freed = self.freed + 1;
    }
}

/// The decision the protocol takes once the buffer has been copied and
/// released.  `message` is the copied text, `None` standing for a null
/// buffer pointer.  A null buffer fails regardless of the status code; a
/// non-success code fails with the native-reported text; otherwise the
/// text is the success payload, still unparsed.
pub fn interpret_reply(code: i32, message: Option<String>) -> (r: Result<String, OsrmError>)
    ensures
        message is None ==> (r matches Err(e) && e matches OsrmError::FfiError(m)
            && m@ == "OSRM returned a null message"@),
        message is Some && code != STATUS_OK ==> (r matches Err(e)
            && e matches OsrmError::FfiError(m) && m == message->0),
        message is Some && code == STATUS_OK ==> r == Ok::<String, OsrmError>(message->0),
        r is Ok <==> (message is Some && code == STATUS_OK),
{
    match message {
        None => Err(OsrmError::FfiError("OSRM returned a null message".to_owned())),
        Some(text) => {
            if code != STATUS_OK {
                Err(OsrmError::FfiError(text))
            } else {
                Ok(text)
            }
        },
    }
}

/// The whole per-call protocol, run against the instrumented allocator:
/// reclaim the buffer, then interpret the reply.  The first two clauses
/// are the resource invariant: exactly one release for a non-null buffer
/// and none for a null one, whether the call succeeds or fails.
pub fn reclaim_and_interpret(ledger: &mut BufferLedger, code: i32, buffer: Option<String>) -> (r:
    Result<String, OsrmError>)
    requires
        old(ledger).freed < u64::MAX,
    ensures
        final(ledger).freed == old(ledger).freed + (if buffer is Some { 1int } else { 0int }),
        final(ledger).allocated == old(ledger).allocated,
        old(ledger).allocated == old(ledger).freed + 1 && buffer is Some
            ==> final(ledger).balanced(),
        buffer is None ==> (r matches Err(e) && e matches OsrmError::FfiError(m)
            && m@ == "OSRM returned a null message"@),
        buffer is Some && code != STATUS_OK ==> (r matches Err(e)
            && e matches OsrmError::FfiError(m) && m == buffer->0),
        buffer is Some && code == STATUS_OK ==> r == Ok::<String, OsrmError>(buffer->0),
        r is Ok <==> (buffer is Some && code == STATUS_OK),
{
    match buffer {
        None => interpret_reply(code, None),
        Some(text) => {
            ledger.record_free();
            interpret_reply(code, Some(text))
        },
    }
}

} // verus!
