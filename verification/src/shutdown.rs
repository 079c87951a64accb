use vstd::prelude::*;

verus! {

/// The process-wide cancellation flag: initially clear, set (idempotently)
/// when an interrupt or termination request arrives, and read by the
/// sampler loop between cycles. Setting and reading never block and never
/// allocate; making the flag reachable from an asynchronous signal handler
/// is the host program's concern.
pub struct ShutdownFlag {
    requested: bool,
}

impl ShutdownFlag {
    /// Whether shutdown has been requested.
    pub closed spec fn is_set(self) -> bool {
        self.requested
    }

    /// A fresh flag: shutdown not requested.
    pub fn new() -> (r: ShutdownFlag)
        ensures
            !r.is_set(),
    {
        ShutdownFlag { requested: false }
    }

    /// Request shutdown. Idempotent: the flag is set afterwards however
    /// often this is called, and it is never cleared again.
    pub fn signal_shutdown(&mut self)
        ensures
            final(self).is_set(),
    {
        self.requested = true;
    }

    /// Read the flag without blocking.
    pub fn is_shutdown_requested(&self) -> (r: bool)
        ensures
            r == self.is_set(),
    {
        self.requested
    }
}

} // verus!
