//! The decisions of the init process: which children it knows, what it does
//! with each event, and whether it keeps running.
use std::collections::HashSet;

use vstd::prelude::*;
use vstd::std_specs::iter::IteratorSpec;

use crate::event::{Event, ProcessEvent};
use crate::signals;

verus! {

broadcast use vstd::std_specs::hash::group_hash_axioms;

/// Work that handling an event asks the caller to perform.
#[derive(PartialEq, Eq, Structural)]
pub enum Action {
    /// Connect this program's standard input, output and error to those of
    /// the child `pid`.
    RedirectStdio { pid: u32 },
    /// Send signal `sig` to the process `pid`.
    SendSignal { pid: u32, sig: i32 },
    /// Collect one ended child, immediate or adopted, without blocking
    /// (`waitpid(-1, .., WNOHANG)`), and pass what that returns to
    /// [`Handler::handle_reaped`].
    ReapChild,
}

/// What handling an event produced: the work to do, and whether the init
/// process keeps waiting for further events.
pub struct Reaction {
    pub actions: Vec<Action>,
    pub keep_running: bool,
}

/// Why handling an event failed.
pub enum HandleError {
    /// Waiting for an immediate child failed, for this reason.
    ChildFailed(String),
}

/// The abstract state of a [`Handler`].
pub struct HandlerView {
    /// The immediate children that are running.
    pub children: Set<u32>,
    /// The number that the platform gives the child-status signal.
    pub child_signal: i32,
}

impl HandlerView {
    /// The state after `event` has been handled in this one.
    pub open spec fn after(self, event: Event) -> HandlerView {
        match event {
            Event::ProcessEvent(ProcessEvent::Started { pid }) => HandlerView {
                children: self.children.insert(pid),
                child_signal: self.child_signal,
            },
            Event::ProcessEvent(ProcessEvent::Terminated { pid, result: Ok(_) }) => HandlerView {
                children: self.children.remove(pid),
                child_signal: self.child_signal,
            },
            _ => self,
        }
    }

    /// The state after the wait for an ended child returned `dead_child_pid`:
    /// a positive value is the process id of the child collected.
    pub open spec fn after_reaping(self, dead_child_pid: i32) -> HandlerView {
        if dead_child_pid > 0 {
            HandlerView { children: self.children.remove(dead_child_pid as u32), child_signal: self.child_signal }
        } else {
            self
        }
    }

    /// Whether any immediate child is left.
    pub open spec fn has_children(self) -> bool {
        self.children != Set::<u32>::empty()
    }
}

/// `actions` sends `sig` to each member of `children` exactly once, and to
/// nothing else.
pub open spec fn signals_each_once(actions: Seq<Action>, children: Set<u32>, sig: i32) -> bool {
    &&& actions.no_duplicates()
    &&& forall|i: int|
        0 <= i < actions.len() ==> (#[trigger] actions[i] matches Action::SendSignal { pid, sig: s }
            && s == sig && children.contains(pid))
    &&& forall|p: u32| #[trigger] children.contains(p) ==> actions.contains((Action::SendSignal { pid: p, sig }))
}

/// The state of the init process: the immediate children it started and
/// has not yet seen end.
pub struct Handler {
    immediate_children: HashSet<u32>,
    child_signal: i32,
}

impl View for Handler {
    type V = HandlerView;

    closed spec fn view(&self) -> HandlerView {
        HandlerView { children: self.immediate_children@, child_signal: self.child_signal }
    }
}

impl Handler {
    /// A handler that knows no child yet, and that takes the platform's
    /// `SIGCHLD` as the child-status signal.
    pub fn new() -> (handler: Handler)
        ensures
            handler@.children == Set::<u32>::empty(),
            signals::is_child_status_number(handler@.child_signal),
    {
        Handler { immediate_children: HashSet::new(), child_signal: signals::child_signal() }
    }

    /// The number of the child-status signal that this handler answers by
    /// collecting ended children.
    pub fn child_signal(&self) -> (sig: i32)
        ensures
            sig == self@.child_signal,
    {
        self.child_signal
    }

    /// Handles one event.
    ///
    /// A started child is remembered and its standard streams are to be
    /// connected to ours. A child whose waiting failed turns into an error,
    /// and the state stays as it was. A child that ended is forgotten, and
    /// the process keeps running as long as another immediate child is left.
    /// The child-status signal asks for ended children, immediate or adopted,
    /// to be collected (see [`Handler::handle_reaped`]); every other signal
    /// is forwarded to each immediate child.
    pub fn handle(&mut self, event: Event) -> (r: Result<Reaction, HandleError>)
        ensures
            final(self)@ == old(self)@.after(event),
            final(self)@.child_signal == old(self)@.child_signal,
            final(self)@.children == match event {
                Event::ProcessEvent(ProcessEvent::Started { pid }) => old(self)@.children.insert(pid),
                Event::ProcessEvent(ProcessEvent::Terminated { pid, result: Ok(_) }) => old(self)@.children.remove(pid),
                _ => old(self)@.children,
            },
            match event {
                Event::ProcessEvent(ProcessEvent::Started { pid }) => r matches Ok(re)
                    && re.actions@ == seq![Action::RedirectStdio { pid }]
                    && re.keep_running,
                Event::ProcessEvent(ProcessEvent::Terminated { pid, result: Err(reason) }) =>
                    r matches Err(HandleError::ChildFailed(msg)) && msg@ == reason@,
                Event::ProcessEvent(ProcessEvent::Terminated { pid, result: Ok(_) }) => r matches Ok(re)
                    && re.actions@.len() == 0
                    && re.keep_running == final(self)@.has_children(),
                Event::Signal(sig) => r matches Ok(re)
                    && re.keep_running
                    && (if sig == old(self)@.child_signal {
                        re.actions@ == seq![Action::ReapChild]
                    } else {
                        signals_each_once(re.actions@, old(self)@.children, sig)
                    }),
            },
    {
        match event {
            Event::ProcessEvent(ProcessEvent::Started { pid }) => {
                self.immediate_children.insert(pid);
                let mut actions: Vec<Action> = Vec::new();
                actions.push(Action::RedirectStdio { pid });
                Ok(Reaction { actions, keep_running: true })
            },
            Event::ProcessEvent(ProcessEvent::Terminated { pid: _, result: Err(reason) }) => {
                Err(HandleError::ChildFailed(reason))
            },
            Event::ProcessEvent(ProcessEvent::Terminated { pid, result: Ok(_) }) => {
                self.immediate_children.remove(&pid);
                let keep_running = !self.immediate_children.is_empty();
                Ok(Reaction { actions: Vec::new(), keep_running })
            },
            Event::Signal(sig) => {
                if sig == self.child_signal {
                    let mut actions: Vec<Action> = Vec::new();
                    actions.push(Action::ReapChild);
                    Ok(Reaction { actions, keep_running: true })
                } else {
                    let actions = Self::forward(&self.immediate_children, sig);
                    Ok(Reaction { actions, keep_running: true })
                }
            },
        }
    }

    /// Takes what one wait for an ended child returned: a positive process id
    /// of the child collected, `0` when no child has ended, `-1` when none is
    /// left. A collected immediate child is forgotten (an adopted one was
    /// never known). The process keeps running as long as an immediate child
    /// is left, and then, after each collected child, asks to collect the
    /// next, until the wait reports that no ended child is waiting.
    pub fn handle_reaped(&mut self, dead_child_pid: i32) -> (re: Reaction)
        ensures
            final(self)@ == old(self)@.after_reaping(dead_child_pid),
            final(self)@.child_signal == old(self)@.child_signal,
            final(self)@.children == (if dead_child_pid > 0 {
                old(self)@.children.remove(dead_child_pid as u32)
            } else {
                old(self)@.children
            }),
            re.keep_running == final(self)@.has_children(),
            re.actions@ == (if re.keep_running && dead_child_pid > 0 {
                seq![Action::ReapChild]
            } else {
                Seq::<Action>::empty()
            }),
    {
        if dead_child_pid > 0 {
            let pid = dead_child_pid as u32;
            self.immediate_children.remove(&pid);
        }
        let keep_running = !self.immediate_children.is_empty();
        let mut actions: Vec<Action> = Vec::new();
        if keep_running && dead_child_pid > 0 {
            actions.push(Action::ReapChild);
        }
        Reaction { actions, keep_running }
    }

    /// One `SendSignal` action for each member of `children`.
    fn forward(children: &HashSet<u32>, sig: i32) -> (actions: Vec<Action>)
        ensures
            signals_each_once(actions@, children@, sig),
    {
        let iter = children.iter();
        let ghost pids: Seq<u32> = IteratorSpec::remaining(&iter).unref();
        let mut actions: Vec<Action> = Vec::new();
        for pid in it: iter
            invariant
                it.seq().unref() == pids,
                actions@.len() == it.index(),
                forall|j: int| 0 <= j < it.index() ==> #[trigger] actions@[j] == (Action::SendSignal { pid: pids[j], sig }),
        {
            actions.push(Action::SendSignal { pid: *pid, sig });
        }
        assert(pids.no_duplicates() && pids.to_set() == children@);
        assert(actions@.len() == pids.len());
        assert forall|p: u32| #[trigger] children@.contains(p) implies actions@.contains((Action::SendSignal { pid: p, sig })) by {
            assert(pids.to_set().contains(p));
            let k = choose|k: int| 0 <= k < pids.len() && pids[k] == p;
            assert(actions@[k] == (Action::SendSignal { pid: p, sig }));
        }
        assert forall|a: int, b: int| 0 <= a < actions@.len() && 0 <= b < actions@.len() && a != b implies actions@[a] != actions@[b] by {
            assert(pids[a] != pids[b]);
        }
        assert forall|j: int| 0 <= j < actions@.len() implies (#[trigger] actions@[j] matches Action::SendSignal { pid, sig: s }
            && s == sig && children@.contains(pid)) by {
            assert(pids.to_set().contains(pids[j]));
        }
        actions
    }
}
/// A child that starts and then ends leaves the handler as it found it,
/// provided the handler did not know that child before.
pub proof fn lemma_start_then_end_restores(v: HandlerView, pid: u32, code: Option<i32>)
    requires
        !v.children.contains(pid),
    ensures
        v.after(Event::ProcessEvent(ProcessEvent::Started { pid })).after(
            Event::ProcessEvent(ProcessEvent::Terminated { pid, result: Ok(code) }),
        ) == v,
{
    assert(v.children.insert(pid).remove(pid) =~= v.children);
}

/// Starting the same child twice is the same as starting it once.
pub proof fn lemma_start_is_idempotent(v: HandlerView, pid: u32)
    ensures
        v.after(Event::ProcessEvent(ProcessEvent::Started { pid })).after(
            Event::ProcessEvent(ProcessEvent::Started { pid }),
        ) == v.after(Event::ProcessEvent(ProcessEvent::Started { pid })),
{
    assert(v.children.insert(pid).insert(pid) =~= v.children.insert(pid));
}

/// No signal changes which children the handler knows.
pub proof fn lemma_signal_keeps_state(v: HandlerView, sig: i32)
    ensures
        v.after(Event::Signal(sig)) == v,
{
}

/// A failed wait for a child changes nothing.
pub proof fn lemma_failed_wait_keeps_state(v: HandlerView, pid: u32, reason: String)
    ensures
        v.after(Event::ProcessEvent(ProcessEvent::Terminated { pid, result: Err(reason) })) == v,
{
}

/// While a started child has not ended, the end of another child does not
/// stop the process.
pub proof fn lemma_running_child_keeps_process_alive(v: HandlerView, running: u32, ended: u32, code: Option<i32>)
    requires
        v.children.contains(running),
        running != ended,
    ensures
        v.after(Event::ProcessEvent(ProcessEvent::Terminated { pid: ended, result: Ok(code) })).has_children(),
{
    let after = v.after(Event::ProcessEvent(ProcessEvent::Terminated { pid: ended, result: Ok(code) }));
    assert(after.children.contains(running));
}

/// The end of the last immediate child stops the process.
pub proof fn lemma_last_child_ends_run(v: HandlerView, pid: u32, code: Option<i32>)
    requires
        v.children == Set::<u32>::empty().insert(pid),
    ensures
        !v.after(Event::ProcessEvent(ProcessEvent::Terminated { pid, result: Ok(code) })).has_children(),
{
    assert(v.children.remove(pid) =~= Set::<u32>::empty());
}

/// Collecting an adopted child, one the handler never started, changes
/// nothing: only immediate children are tracked.
pub proof fn lemma_reaping_adopted_child_keeps_state(v: HandlerView, dead_child_pid: i32)
    requires
        dead_child_pid > 0,
        !v.children.contains(dead_child_pid as u32),
    ensures
        v.after_reaping(dead_child_pid) == v,
{
    assert(v.children.remove(dead_child_pid as u32) =~= v.children);
}

/// An immediate child that starts and is then collected leaves the handler
/// as it found it, provided the handler did not know that child before.
pub proof fn lemma_start_then_reap_restores(v: HandlerView, pid: u32)
    requires
        !v.children.contains(pid),
        0 < pid <= i32::MAX,
    ensures
        v.after(Event::ProcessEvent(ProcessEvent::Started { pid })).after_reaping(pid as i32) == v,
{
    assert((pid as i32) as u32 == pid) by (bit_vector)
        requires
            pid <= i32::MAX,
    ;
    assert(v.children.insert(pid).remove(pid) =~= v.children);
}

/// `SIGTERM` and `SIGINT` are never taken for the child-status signal, so a
/// handler always forwards them to its children.
pub proof fn lemma_termination_requests_are_forwarded(v: HandlerView)
    requires
        signals::is_child_status_number(v.child_signal),
    ensures
        signals::terminate_number() != v.child_signal,
        signals::interrupt_number() != v.child_signal,
{
}

/// A started child is remembered, whatever its process id, next to the
/// children known before; nothing else changes.
pub proof fn lemma_started_child_is_remembered(v: HandlerView, pid: u32)
    ensures
        v.after(Event::ProcessEvent(ProcessEvent::Started { pid })).children == v.children.insert(pid),
        v.after(Event::ProcessEvent(ProcessEvent::Started { pid })).children.contains(pid),
        forall|q: u32| #[trigger] v.children.contains(q) ==> v.after(
            Event::ProcessEvent(ProcessEvent::Started { pid }),
        ).children.contains(q),
        v.after(Event::ProcessEvent(ProcessEvent::Started { pid })).child_signal == v.child_signal,
{
}

/// A child that ended is forgotten, and no other child is.
pub proof fn lemma_ended_child_is_forgotten(v: HandlerView, pid: u32, code: Option<i32>)
    ensures
        v.after(Event::ProcessEvent(ProcessEvent::Terminated { pid, result: Ok(code) })).children
            == v.children.remove(pid),
        !v.after(Event::ProcessEvent(ProcessEvent::Terminated { pid, result: Ok(code) })).children.contains(pid),
{
}

/// No event changes the number of the child-status signal, so the
/// child-status signal is answered by collecting, never forwarded, for the
/// whole run.
pub proof fn lemma_events_keep_child_signal(v: HandlerView, event: Event)
    ensures
        v.after(event).child_signal == v.child_signal,
{
}

/// Collecting changes only the children: a collected child (a positive
/// process id) is forgotten and no other is, and a wait that collected
/// nothing changes nothing.
pub proof fn lemma_reaping_changes_only_children(v: HandlerView, dead_child_pid: i32)
    ensures
        v.after_reaping(dead_child_pid).child_signal == v.child_signal,
        dead_child_pid <= 0 ==> v.after_reaping(dead_child_pid) == v,
        dead_child_pid > 0 ==> v.after_reaping(dead_child_pid).children == v.children.remove(dead_child_pid as u32),
        v.after_reaping(dead_child_pid).children.subset_of(v.children),
{
}

} // verus!
