//! The life of an engine transaction: it is begun with a handle, and the
//! handle is given up exactly once, to be committed, aborted, or aborted
//! when the transaction is dropped unfinished.
use vstd::prelude::*;

verus! {

/// The engine's handle of a transaction while the transaction is live.
#[derive(Debug)]
pub struct TxnLife<H> {
    handle: Option<H>,
}

impl<H> TxnLife<H> {
    /// The handle, while the transaction is live.
    pub closed spec fn live_handle(&self) -> Option<H> {
        self.handle
    }

    /// A live transaction with the engine's `handle`.
    pub fn begin(handle: H) -> (r: Self)
        ensures
            r.live_handle() == Some(handle),
    {
        TxnLife { handle: Some(handle) }
    }

    /// Whether the transaction is still live.
    pub fn is_live(&self) -> (r: bool)
        ensures
            r == self.live_handle() is Some,
    {
        self.handle.is_some()
    }

    /// Ends the transaction: hands out its handle if it was live, and
    /// nothing if it had already ended.
    pub fn finish(&mut self) -> (r: Option<H>)
        ensures
            r == old(self).live_handle(),
            final(self).live_handle() is None,
    {
        self.handle.take()
    }
}

} // verus!
