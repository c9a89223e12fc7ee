//! Execution streams: ordered queues of device work.
//!
//! Stream-ordered (asynchronous) operations are enqueued on a stream and are
//! only guaranteed complete after the stream has been synchronized; nothing
//! here synchronizes implicitly. The modeled device runs each enqueued
//! operation at enqueue time — one legal schedule, since work on a single
//! stream executes in enqueue order — so the stream carries only the count
//! of work enqueued since the last synchronization point. A result that a
//! stream-ordered operation wrote is owed to the host only once
//! [`Stream::synchronize`] has reported that no work is pending.

use crate::error::CudaResult;
use vstd::prelude::*;

verus! {

/// An ordered queue of device work.
pub struct Stream {
    pending: Ghost<nat>,
}

impl Stream {
    /// How many operations were enqueued since the last synchronization.
    pub closed spec fn spec_pending(self) -> nat {
        self.pending@
    }

    /// Creates a stream with no pending work.
    pub fn new() -> (s: Stream)
        ensures
            s.spec_pending() == 0,
    {
        Stream { pending: Ghost(0) }
    }

    /// Records one enqueued operation.
    pub(crate) fn enqueue(&mut self)
        ensures
            final(self).spec_pending() == old(self).spec_pending() + 1,
    {
        proof {
            self.pending@ = self.pending@ + 1;
        }
    }

    /// Blocks until every operation enqueued on this stream has completed.
    /// Afterwards no work is pending, and everything enqueued earlier is
    /// owed to have taken effect.
    pub fn synchronize(&mut self) -> (r: CudaResult<()>)
        ensures
            r is Ok,
            final(self).spec_pending() == 0,
    {
        proof {
            self.pending@ = 0;
        }
        Ok(())
    }
}

} // verus!
