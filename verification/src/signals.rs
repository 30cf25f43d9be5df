//! Signal numbers of the platform, as the `libc` crate defines them.
use vstd::prelude::*;

verus! {

/// The numbers that targets give the child-status signal `SIGCHLD`: 17 on
/// most Linux targets, 18 (MIPS among them) or 20 (the BSDs among them) on
/// others, 5 on Haiku.
pub open spec fn is_child_status_number(sig: i32) -> bool {
    sig == 5 || sig == 17 || sig == 18 || sig == 20
}

/// The number of the polite termination request `SIGTERM`.
pub open spec fn terminate_number() -> i32 {
    15
}

/// The number of the keyboard interrupt `SIGINT`.
pub open spec fn interrupt_number() -> i32 {
    2
}

/// Reads `libc::SIGCHLD`, the number of the signal that reports a change in
/// a child's state. Its value depends on the target; the `libc` crate defines
/// it as one of 5, 17, 18 and 20 on every target, and that is all that is
/// claimed.
#[verifier::external_body]
pub(crate) fn child_signal() -> (sig: i32)
    ensures
        is_child_status_number(sig),
{
    libc::SIGCHLD
}

/// Reads `libc::SIGTERM`, which the `libc` crate defines as 15 on every
/// target.
#[verifier::external_body]
pub(crate) fn terminate_signal() -> (sig: i32)
    ensures
        sig == terminate_number(),
{
    libc::SIGTERM
}

/// Reads `libc::SIGINT`, which the `libc` crate defines as 2 on every
/// target.
#[verifier::external_body]
pub(crate) fn interrupt_signal() -> (sig: i32)
    ensures
        sig == interrupt_number(),
{
    libc::SIGINT
}

} // verus!
