use vstd::prelude::*;

verus! {

/// The process-wide shutdown state: whether the agent still runs, and so
/// whether the module still has to be unloaded when the host terminates.
pub struct ShutdownLatch {
    running: bool,
}

impl View for ShutdownLatch {
    type V = bool;

    closed spec fn view(&self) -> bool {
        self.running
    }
}

/// What one termination signal leads to from the running state `running`:
/// whether the module is unloaded now, and the running state afterwards.
pub open spec fn after_termination(running: bool) -> (bool, bool) {
    (running, false)
}

impl ShutdownLatch {
    /// A latch in the running state.
    pub fn new() -> (r: ShutdownLatch)
        ensures
            r@,
    {
        ShutdownLatch { running: true }
    }

    /// Whether the agent still runs; the accept loop stops once this is false.
    pub fn is_running(&self) -> (r: bool)
        ensures
            r == self@,
    {
        self.running
    }

    /// Takes one termination signal from the host. Returns true when the
    /// caller must unload the module now: on the first signal only.
    pub fn terminate(&mut self) -> (unload: bool)
        ensures
            (unload, final(self)@) == after_termination(old(self)@),
    {
        let unload = self.running;
        self.running = false;
        unload
    }
}

/// Shutdown happens once: of two termination signals at most the first one
/// unloads the module, and a latch that was running unloads it exactly once.
pub proof fn lemma_shutdown_once(running: bool)
    ensures
        !after_termination(after_termination(running).1).0,
        !after_termination(after_termination(running).1).1,
        after_termination(running).0 == running,
{
}

} // verus!
