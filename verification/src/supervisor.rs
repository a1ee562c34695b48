//! The slot that holds the handle of the one supervised process.
//!
//! The supervisor never touches the process itself. It hands the handle out
//! exactly once, to the caller that terminates; that caller kills the process
//! and waits for its exit. The host serialises every access through one lock.

use vstd::prelude::*;

verus! {

/// What a call to terminate found.
#[derive(Debug, PartialEq, Eq)]
pub enum Termination<H> {
    /// A process was being supervised. Its handle is handed over to be
    /// killed and waited for; the supervisor keeps no copy.
    Terminated(H),
    /// Nothing was being supervised: never started, or already terminated.
    NoProcessRunning,
}

/// The slot after a handle has been stored in it.
pub open spec fn slot_after_store<H>(slot: Option<H>, handle: H) -> Option<H> {
    Some(handle)
}

/// The slot after termination: always empty.
pub open spec fn slot_after_terminate<H>(slot: Option<H>) -> Option<H> {
    None
}

/// What termination reports for a slot.
pub open spec fn termination_of<H>(slot: Option<H>) -> Termination<H> {
    match slot {
        Some(handle) => Termination::Terminated(handle),
        None => Termination::NoProcessRunning,
    }
}

/// Holder of at most one process handle.
#[derive(Debug)]
pub struct ProcessSupervisor<H> {
    slot: Option<H>,
}

impl<H> View for ProcessSupervisor<H> {
    type V = Option<H>;

    closed spec fn view(&self) -> Option<H> {
        self.slot
    }
}

impl<H> ProcessSupervisor<H> {
    /// A supervisor that supervises nothing.
    pub fn new() -> (supervisor: Self)
        ensures
            supervisor@ is None,
    {
        ProcessSupervisor { slot: None }
    }

    /// Whether a handle is held.
    pub fn is_running(&self) -> (running: bool)
        ensures
            running == (self@ is Some),
    {
        self.slot.is_some()
    }

    /// Takes over the handle of a process that was just started. A handle
    /// that was still held is replaced and returned.
    pub fn store(&mut self, handle: H) -> (previous: Option<H>)
        ensures
            final(self)@ == slot_after_store(old(self)@, handle),
            previous == old(self)@,
    {
        let previous = self.slot.take();
        self.slot = Some(handle);
        previous
    }

    /// Gives up the held handle, if any. Afterwards nothing is held, so a
    /// handle is handed out at most once.
    pub fn terminate(&mut self) -> (termination: Termination<H>)
        ensures
            final(self)@ == slot_after_terminate(old(self)@),
            termination == termination_of(old(self)@),
    {
        match self.slot.take() {
            Some(handle) => Termination::Terminated(handle),
            None => Termination::NoProcessRunning,
        }
    }
}

/// Terminating when nothing was ever stored finds no process and changes
/// nothing.
pub proof fn law_terminate_without_spawn<H>()
    ensures
        termination_of(None::<H>) == Termination::<H>::NoProcessRunning,
        slot_after_terminate(None::<H>) == None::<H>,
{
}

/// Storing a handle and terminating right away hands that handle over and
/// leaves none behind.
pub proof fn law_spawn_then_terminate<H>(slot: Option<H>, handle: H)
    ensures
        termination_of(slot_after_store(slot, handle)) == Termination::Terminated(handle),
        slot_after_terminate(slot_after_store(slot, handle)) is None,
{
}

/// Terminating a second time finds no process and changes nothing.
pub proof fn law_terminate_idempotent<H>(slot: Option<H>)
    ensures
        termination_of(slot_after_terminate(slot)) == Termination::<H>::NoProcessRunning,
        slot_after_terminate(slot_after_terminate(slot)) == slot_after_terminate(slot),
{
}

} // verus!
