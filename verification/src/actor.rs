//! The lifecycle of an actor: what its message loop decides.
use crate::sync::Stat;
use std::task::Waker;
use vstd::prelude::*;

verus! {

/// Where an actor is in its life.
#[derive(Debug, Eq)]
pub enum ActorStat {
    Creating,
    Running,
    Stopped,
}

impl PartialEq for ActorStat {
    fn eq(&self, other: &Self) -> (r: bool) {
        match (self, other) {
            (ActorStat::Creating, ActorStat::Creating) => true,
            (ActorStat::Running, ActorStat::Running) => true,
            (ActorStat::Stopped, ActorStat::Stopped) => true,
            _ => false,
        }
    }
}

impl vstd::std_specs::cmp::PartialEqSpecImpl for ActorStat {
    open spec fn obeys_eq_spec() -> bool {
        true
    }

    open spec fn eq_spec(&self, other: &Self) -> bool {
        *self == *other
    }
}

impl Clone for ActorStat {
    fn clone(&self) -> (r: Self)
        ensures
            r == *self,
    {
        match self {
            ActorStat::Creating => ActorStat::Creating,
            ActorStat::Running => ActorStat::Running,
            ActorStat::Stopped => ActorStat::Stopped,
        }
    }
}

/// The messages every actor understands.
pub enum ActorControl {
    Stop,
}

/// How an actor answers a control message, at once: `Stop` marks it
/// stopped. If it was not stopped before, the wakers of the tasks that watch
/// its state are handed back to be woken.
pub fn handle_control(msg: ActorControl, stat: &mut Stat<ActorStat>) -> (to_wake: Vec<Waker>)
    ensures
        final(stat).value() == ActorStat::Stopped,
        old(stat).value() == ActorStat::Stopped ==> final(stat).wakers() == old(stat).wakers()
            && to_wake@.len() == 0,
        old(stat).value() != ActorStat::Stopped ==> final(stat).wakers().len() == 0 && to_wake@
            == old(stat).wakers(),
{
    match msg {
        ActorControl::Stop => stat.update_stat(ActorStat::Stopped),
    }
}

/// What happened in an actor's message loop.
#[derive(Debug, Clone, Copy, PartialEq, Eq)]
pub enum LoopEvent {
    /// The actor's start hook has run.
    Started,
    /// One message has been handed to the actor.
    Handled,
    /// No sender is left: no message will come.
    Closed,
}

/// What the message loop does next.
#[derive(Debug, Clone, Copy, PartialEq, Eq)]
pub enum LoopAction {
    /// Wait for the next message.
    Receive,
    /// Run the stop hook and end.
    Finish,
}

/// The state an actor is in after `event`, and what its loop does next:
/// after starting it runs; after a message it goes on unless the message
/// stopped it; once no message can come it is stopped.
pub open spec fn loop_step(stat: ActorStat, event: LoopEvent) -> (ActorStat, LoopAction) {
    match event {
        LoopEvent::Started => (ActorStat::Running, LoopAction::Receive),
        LoopEvent::Handled => if stat == ActorStat::Stopped {
            (ActorStat::Stopped, LoopAction::Finish)
        } else {
            (stat, LoopAction::Receive)
        },
        LoopEvent::Closed => (ActorStat::Stopped, LoopAction::Finish),
    }
}

/// One decision of an actor's message loop: updates the actor's state for
/// `event`, and says what the loop does next and which waiting tasks' wakers
/// are to be woken because the state changed.
pub fn msg_loop_step(stat: &mut Stat<ActorStat>, event: LoopEvent) -> (r: (LoopAction, Vec<Waker>))
    ensures
        final(stat).value() == loop_step(old(stat).value(), event).0,
        r.0 == loop_step(old(stat).value(), event).1,
        final(stat).value() == old(stat).value() ==> final(stat).wakers() == old(stat).wakers()
            && r.1@.len() == 0,
        final(stat).value() != old(stat).value() ==> final(stat).wakers().len() == 0 && r.1@
            == old(stat).wakers(),
        event == LoopEvent::Started ==> final(stat).value() == ActorStat::Running && r.0
            == LoopAction::Receive,
        event == LoopEvent::Handled && old(stat).value() != ActorStat::Stopped ==> final(stat).value()
            == old(stat).value() && final(stat).wakers() == old(stat).wakers() && r.0
            == LoopAction::Receive && r.1@.len() == 0,
        event == LoopEvent::Handled && old(stat).value() == ActorStat::Stopped ==> final(stat).value()
            == ActorStat::Stopped && final(stat).wakers() == old(stat).wakers() && r.0
            == LoopAction::Finish && r.1@.len() == 0,
        event == LoopEvent::Closed ==> final(stat).value() == ActorStat::Stopped && r.0
            == LoopAction::Finish,
{
    match event {
        LoopEvent::Started => {
            let to_wake = stat.update_stat(ActorStat::Running);
            (LoopAction::Receive, to_wake)
        },
        LoopEvent::Handled => {
            if stat.current_stat() == ActorStat::Stopped {
                let to_wake = stat.update_stat(ActorStat::Stopped);
                (LoopAction::Finish, to_wake)
            } else {
                (LoopAction::Receive, Vec::new())
            }
        },
        LoopEvent::Closed => {
            let to_wake = stat.update_stat(ActorStat::Stopped);
            (LoopAction::Finish, to_wake)
        },
    }
}

/// Once an actor has been told to stop, its loop ends after that message,
/// whatever state it was in.
pub proof fn lemma_stop_ends_loop(stat: ActorStat)
    ensures
        loop_step(ActorStat::Stopped, LoopEvent::Handled) == (ActorStat::Stopped, LoopAction::Finish),
        loop_step(stat, LoopEvent::Closed).1 == LoopAction::Finish,
        loop_step(stat, LoopEvent::Started).0 == ActorStat::Running,
{
}

/// The life of an actor's loop: starting makes it run; handling a message
/// leaves an actor that is not stopped as it is and keeps the loop receiving,
/// so only a `Stop` (which marks it stopped) ends the loop after a message;
/// once no sender is left it stops and the loop ends.
pub proof fn lemma_loop_step_law(stat: ActorStat)
    ensures
        loop_step(stat, LoopEvent::Started) == (ActorStat::Running, LoopAction::Receive),
        stat != ActorStat::Stopped ==> loop_step(stat, LoopEvent::Handled) == (stat, LoopAction::Receive),
        loop_step(ActorStat::Running, LoopEvent::Handled) == (ActorStat::Running, LoopAction::Receive),
        loop_step(ActorStat::Stopped, LoopEvent::Handled) == (ActorStat::Stopped, LoopAction::Finish),
        loop_step(stat, LoopEvent::Closed) == (ActorStat::Stopped, LoopAction::Finish),
        loop_step(stat, LoopEvent::Handled).1 == LoopAction::Finish <==> stat == ActorStat::Stopped,
{
}

} // verus!
