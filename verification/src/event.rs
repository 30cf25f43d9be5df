use vstd::prelude::*;

verus! {

/// What happened to a child process started by this program.
pub enum ProcessEvent {
    /// The child with this process id is running; its standard streams are
    /// held by the caller.
    Started { pid: u32 },
    /// The child with this process id has ended. `Ok` holds its exit code
    /// (`None` when a signal ended it); `Err` holds why waiting for it failed.
    Terminated { pid: u32, result: Result<Option<i32>, String> },
}

/// An input of [`crate::Handler`].
pub enum Event {
    ProcessEvent(ProcessEvent),
    /// A signal delivered to this process, by its number.
    Signal(i32),
}

} // verus!
