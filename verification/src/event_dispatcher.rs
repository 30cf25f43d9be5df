//! The decisions of the signal-driven variant of the init process: it learns
//! of its child by an event, reaps on each child-status signal, asks its
//! children to terminate on a termination request, and shuts the whole
//! process group down once no immediate child is left, once a termination
//! request has gone unanswered for too long, or on an I/O error.
use std::collections::HashSet;

use vstd::prelude::*;
use vstd::std_specs::iter::IteratorSpec;

use crate::signals;

verus! {

broadcast use vstd::std_specs::hash::group_hash_axioms;

/// An input of a [`Dispatcher`].
pub enum DispatchEvent {
    /// The immediate child with this process id was started.
    ChildBorn(u32),
    /// A signal delivered to this process, by its number.
    Signal(i32),
    /// The children did not end in time after a termination request.
    TerminationTimeout,
    /// Starting the child or listening for a signal failed, for this reason.
    IoError(String),
}

/// What the caller is to do after an event.
pub enum Directive {
    /// Nothing; wait for the next event.
    Continue,
    /// Collect one ended child without blocking (`waitpid(-1, WNOHANG)`), and
    /// pass what that returns to [`Dispatcher::handle_signal_received_sigchld`],
    /// which asks for this again after each child collected.
    ReapChild,
    /// Send `SIGTERM` to each of these processes, then arm the termination
    /// timer, which comes back as [`DispatchEvent::TerminationTimeout`].
    TerminateChildren(Vec<u32>),
    /// Send `SIGKILL` to the whole process group; then, if `reap_remaining`,
    /// collect every remaining child (see [`reap_step`]); then exit.
    Shutdown { reap_remaining: bool },
}

/// The next step of collecting the remaining children, from what one
/// non-blocking `waitpid(-1, ..)` returned.
#[derive(PartialEq, Eq, Structural)]
pub enum ReapStep {
    /// No child is left to collect.
    Finished,
    /// Children are left but none has ended yet: pause, then wait again.
    PauseThenRetry,
    /// A child was collected: wait again.
    Retry,
}

/// The abstract state of a [`Dispatcher`].
pub struct DispatcherView {
    /// The immediate children that are running.
    pub children: Set<u32>,
    /// The numbers that the platform gives the child-status signal, the
    /// termination request and the interrupt.
    pub child_signal: i32,
    pub terminate_signal: i32,
    pub interrupt_signal: i32,
}

impl DispatcherView {
    /// The same state with `children` in place of its children.
    pub open spec fn with_children(self, children: Set<u32>) -> DispatcherView {
        DispatcherView { children, ..self }
    }

    /// Whether `sig` asks the process to terminate.
    pub open spec fn is_termination_request(self, sig: i32) -> bool {
        sig != self.child_signal && (sig == self.terminate_signal || sig == self.interrupt_signal)
    }

    /// Whether any immediate child is left.
    pub open spec fn has_children(self) -> bool {
        self.children != Set::<u32>::empty()
    }

    /// The state after `event` has been handled in this one.
    pub open spec fn after(self, event: DispatchEvent) -> DispatcherView {
        match event {
            DispatchEvent::ChildBorn(pid) => self.with_children(self.children.insert(pid)),
            _ => self,
        }
    }

    /// The state after the wait for an ended child returned `dead_child_pid`.
    pub open spec fn after_reaping(self, dead_child_pid: i32) -> DispatcherView {
        self.with_children(self.children.remove(dead_child_pid as u32))
    }
}

/// `pids` names each member of `children` exactly once.
pub open spec fn lists_each_once(pids: Seq<u32>, children: Set<u32>) -> bool {
    pids.no_duplicates() && pids.to_set() == children
}

/// The state of the signal-driven init process.
pub struct Dispatcher {
    immediate_children: HashSet<u32>,
    child_signal: i32,
    terminate_signal: i32,
    interrupt_signal: i32,
}

impl View for Dispatcher {
    type V = DispatcherView;

    closed spec fn view(&self) -> DispatcherView {
        DispatcherView {
            children: self.immediate_children@,
            child_signal: self.child_signal,
            terminate_signal: self.terminate_signal,
            interrupt_signal: self.interrupt_signal,
        }
    }
}

/// A dispatcher that knows no child yet, and that takes the platform's
/// `SIGCHLD`, `SIGTERM` and `SIGINT` as the child-status signal, the
/// termination request and the interrupt.
pub fn new() -> (dispatcher: Dispatcher)
    ensures
        dispatcher@.children == Set::<u32>::empty(),
        signals::is_child_status_number(dispatcher@.child_signal),
        dispatcher@.terminate_signal == signals::terminate_number(),
        dispatcher@.interrupt_signal == signals::interrupt_number(),
{
    Dispatcher {
        immediate_children: HashSet::new(),
        child_signal: signals::child_signal(),
        terminate_signal: signals::terminate_signal(),
        interrupt_signal: signals::interrupt_signal(),
    }
}

/// What to do next while collecting the remaining children, given what one
/// non-blocking `waitpid(-1, ..)` returned: `-1` means no child is left, `0`
/// that none has ended yet, anything else that one was collected.
pub fn reap_step(dead_child_pid: i32) -> (step: ReapStep)
    ensures
        step == (if dead_child_pid == -1 {
            ReapStep::Finished
        } else if dead_child_pid == 0 {
            ReapStep::PauseThenRetry
        } else {
            ReapStep::Retry
        }),
{
    if dead_child_pid == -1 {
        ReapStep::Finished
    } else if dead_child_pid == 0 {
        ReapStep::PauseThenRetry
    } else {
        ReapStep::Retry
    }
}

/// The event that starting the immediate child yields: its process id, or
/// the reason it could not be started.
pub fn child_started_event(spawned: Result<u32, String>) -> (event: DispatchEvent)
    ensures
        match spawned {
            Ok(pid) => event matches DispatchEvent::ChildBorn(p) && p == pid,
            Err(reason) => event matches DispatchEvent::IoError(msg) && msg@ == reason@,
        },
{
    match spawned {
        Ok(pid) => DispatchEvent::ChildBorn(pid),
        Err(reason) => DispatchEvent::IoError(reason),
    }
}

/// The event that listening for signal `sig` yields: the signal when it
/// arrived, or the reason listening failed.
pub fn signal_event(sig: i32, delivered: Result<(), String>) -> (event: DispatchEvent)
    ensures
        match delivered {
            Ok(_) => event matches DispatchEvent::Signal(s) && s == sig,
            Err(reason) => event matches DispatchEvent::IoError(msg) && msg@ == reason@,
        },
{
    match delivered {
        Ok(_) => DispatchEvent::Signal(sig),
        Err(reason) => DispatchEvent::IoError(reason),
    }
}

/// The members of `set`, each once, in no promised order.
fn pids_of(set: &HashSet<u32>) -> (pids: Vec<u32>)
    ensures
        lists_each_once(pids@, set@),
{
    let iter = set.iter();
    let ghost keys: Seq<u32> = IteratorSpec::remaining(&iter).unref();
    let mut pids: Vec<u32> = Vec::new();
    for pid in it: iter
        invariant
            it.seq().unref() == keys,
            pids@.len() == it.index(),
            forall|j: int| 0 <= j < it.index() ==> pids@[j] == keys[j],
    {
        pids.push(*pid);
    }
    assert(pids@ =~= keys);
    pids
}

impl Dispatcher {
    fn handle_child_born(&mut self, child_pid: u32) -> (d: Directive)
        ensures
            final(self)@ == old(self)@.with_children(old(self)@.children.insert(child_pid)),
            d is Continue,
    {
        self.immediate_children.insert(child_pid);
        Directive::Continue
    }

    /// Forgets the child that the wait for an ended child returned (as an
    /// unsigned process id: `-1` and `0` name no child). Once no immediate
    /// child is left it asks for shutdown, with the remaining children
    /// collected; otherwise, after a collected child (a positive process id)
    /// it asks to collect the next one, since one child-status signal may
    /// stand for several ended children, and when the wait reports that no
    /// ended child is waiting it waits for the next event.
    pub fn handle_signal_received_sigchld(&mut self, dead_child_pid: i32) -> (d: Directive)
        ensures
            final(self)@ == old(self)@.after_reaping(dead_child_pid),
            final(self)@.children == old(self)@.children.remove(dead_child_pid as u32),
            final(self)@.child_signal == old(self)@.child_signal,
            final(self)@.terminate_signal == old(self)@.terminate_signal,
            final(self)@.interrupt_signal == old(self)@.interrupt_signal,
            if !final(self)@.has_children() {
                d matches Directive::Shutdown { reap_remaining } && reap_remaining
            } else if dead_child_pid > 0 {
                d is ReapChild
            } else {
                d is Continue
            },
    {
        let pid = dead_child_pid as u32;
        self.immediate_children.remove(&pid);
        if self.immediate_children.is_empty() {
            Directive::Shutdown { reap_remaining: true }
        } else if dead_child_pid > 0 {
            Directive::ReapChild
        } else {
            Directive::Continue
        }
    }

    fn handle_signal_received_sigterm(&self) -> (d: Directive)
        ensures
            d matches Directive::TerminateChildren(pids) && lists_each_once(pids@, self@.children),
    {
        Directive::TerminateChildren(pids_of(&self.immediate_children))
    }

    fn handle_signal_received(&self, sig_num: i32) -> (d: Directive)
        ensures
            if sig_num == self@.child_signal {
                d is ReapChild
            } else if self@.is_termination_request(sig_num) {
                d matches Directive::TerminateChildren(pids) && lists_each_once(pids@, self@.children)
            } else {
                d is Continue
            },
    {
        if sig_num == self.child_signal {
            Directive::ReapChild
        } else if sig_num == self.terminate_signal || sig_num == self.interrupt_signal {
            self.handle_signal_received_sigterm()
        } else {
            Directive::Continue
        }
    }

    fn handle_termination_timeout(&self) -> (d: Directive)
        ensures
            d matches Directive::Shutdown { reap_remaining } && reap_remaining,
    {
        Directive::Shutdown { reap_remaining: true }
    }

    fn handle_io_error(&self) -> (d: Directive)
        ensures
            d matches Directive::Shutdown { reap_remaining } && !reap_remaining,
    {
        Directive::Shutdown { reap_remaining: false }
    }

    /// Handles one event.
    ///
    /// A born child is remembered. The child-status signal asks for one
    /// ended child to be collected; `SIGTERM` and `SIGINT` ask for each
    /// immediate child to be sent `SIGTERM` and the termination timer to be
    /// armed; other signals are ignored. When the timer runs out, the process
    /// group is killed, the remaining children are collected and the process
    /// exits; on an I/O error the process group is killed and the process
    /// exits at once.
    pub fn handle(&mut self, event: DispatchEvent) -> (d: Directive)
        ensures
            final(self)@ == old(self)@.after(event),
            final(self)@.children == match event {
                DispatchEvent::ChildBorn(pid) => old(self)@.children.insert(pid),
                _ => old(self)@.children,
            },
            final(self)@.child_signal == old(self)@.child_signal,
            final(self)@.terminate_signal == old(self)@.terminate_signal,
            final(self)@.interrupt_signal == old(self)@.interrupt_signal,
            match event {
                DispatchEvent::ChildBorn(_) => d is Continue,
                DispatchEvent::Signal(sig) => if sig == old(self)@.child_signal {
                    d is ReapChild
                } else if old(self)@.is_termination_request(sig) {
                    d matches Directive::TerminateChildren(pids) && lists_each_once(pids@, old(self)@.children)
                } else {
                    d is Continue
                },
                DispatchEvent::TerminationTimeout => d matches Directive::Shutdown { reap_remaining }
                    && reap_remaining,
                DispatchEvent::IoError(_) => d matches Directive::Shutdown { reap_remaining }
                    && !reap_remaining,
            },
    {
        match event {
            DispatchEvent::ChildBorn(child_pid) => self.handle_child_born(child_pid),
            DispatchEvent::Signal(sig_num) => self.handle_signal_received(sig_num),
            DispatchEvent::TerminationTimeout => self.handle_termination_timeout(),
            DispatchEvent::IoError(_) => self.handle_io_error(),
        }
    }
}

/// A child that is born and then collected leaves the dispatcher as it
/// found it, provided the dispatcher did not know that child before.
pub proof fn lemma_born_then_reaped_restores(v: DispatcherView, pid: u32)
    requires
        !v.children.contains(pid),
        pid <= i32::MAX,
    ensures
        v.after(DispatchEvent::ChildBorn(pid)).after_reaping(pid as i32) == v,
{
    assert((pid as i32) as u32 == pid) by (bit_vector)
        requires
            pid <= i32::MAX,
    ;
    assert(v.children.insert(pid).remove(pid) =~= v.children);
}

/// Only a born child changes which children the dispatcher knows; signals,
/// timeouts and errors leave them alone.
pub proof fn lemma_only_births_add_children(v: DispatcherView, event: DispatchEvent)
    ensures
        v.after(event).children.subset_of(
            match event {
                DispatchEvent::ChildBorn(pid) => v.children.insert(pid),
                _ => v.children,
            },
        ),
        !(event is ChildBorn) ==> v.after(event) == v,
{
}

/// A collected child other than a still-running immediate child never
/// leads to shutdown.
pub proof fn lemma_running_child_prevents_shutdown(v: DispatcherView, running: u32, dead_child_pid: i32)
    requires
        v.children.contains(running),
        dead_child_pid as u32 != running,
    ensures
        v.after_reaping(dead_child_pid).has_children(),
{
    assert(v.after_reaping(dead_child_pid).children.contains(running));
}

/// A born child is remembered, whatever its process id, next to the
/// children known before; the signal numbers do not change.
pub proof fn lemma_born_child_is_remembered(v: DispatcherView, pid: u32)
    ensures
        v.after(DispatchEvent::ChildBorn(pid)).children == v.children.insert(pid),
        v.after(DispatchEvent::ChildBorn(pid)).children.contains(pid),
        v.children.subset_of(v.after(DispatchEvent::ChildBorn(pid)).children),
        v.after(DispatchEvent::ChildBorn(pid)).child_signal == v.child_signal,
        v.after(DispatchEvent::ChildBorn(pid)).terminate_signal == v.terminate_signal,
        v.after(DispatchEvent::ChildBorn(pid)).interrupt_signal == v.interrupt_signal,
{
}

/// No event changes the signal numbers, so the child-status signal always
/// asks for collecting and `SIGTERM` and `SIGINT` always ask the children to
/// terminate.
pub proof fn lemma_events_keep_signal_numbers(v: DispatcherView, event: DispatchEvent)
    ensures
        v.after(event).child_signal == v.child_signal,
        v.after(event).terminate_signal == v.terminate_signal,
        v.after(event).interrupt_signal == v.interrupt_signal,
{
}

/// Collecting changes only the children: the collected process id is
/// forgotten, no other child is, and none is added.
pub proof fn lemma_reaping_changes_only_children(v: DispatcherView, dead_child_pid: i32)
    ensures
        v.after_reaping(dead_child_pid).children == v.children.remove(dead_child_pid as u32),
        v.after_reaping(dead_child_pid).children.subset_of(v.children),
        v.after_reaping(dead_child_pid).child_signal == v.child_signal,
        v.after_reaping(dead_child_pid).terminate_signal == v.terminate_signal,
        v.after_reaping(dead_child_pid).interrupt_signal == v.interrupt_signal,
{
}

} // verus!
