//! The control loop as a state machine.
//!
//! The loop itself lives in the surrounding process, which blocks on the
//! watch channel and spawns the command. Every decision, though, is made
//! here: the process reports what happened as a [`LoopEvent`], and
//! [`Controller::step`] answers with the next [`Directive`]. The whole
//! transition relation is the spec function [`spec_step`], and the lemmas
//! at the end state the loop's guarantees over arbitrary event sequences.

use vstd::prelude::*;

use crate::config::Config;
use crate::event::Notification;
use crate::event::Outcome;
use crate::event::qualifies;
use crate::event::spec_qualifies;

verus! {

/// Where the control loop stands.
#[derive(Debug, Clone, Copy, PartialEq, Eq, Structural)]
pub enum Phase {
    /// Before the loop: no notification has been looked at yet.
    Startup,
    /// Waiting for the next notification.
    Idle,
    /// A command dispatch is in flight.
    Dispatching,
    /// The process is to terminate; no further dispatch ever happens.
    Stopped,
}

/// What the surrounding process reports to the controller.
pub enum LoopEvent {
    /// Startup is complete and the loop is about to begin.
    Started,
    /// A notification arrived on the watch channel.
    Notified(Notification),
    /// Receiving from the watch channel failed. Such errors are logged by
    /// the caller and are never fatal.
    RecvError,
    /// The dispatch in flight finished with this outcome.
    Finished(Outcome),
}

/// What the controller asks the surrounding process to do next.
#[derive(Debug, Clone, Copy, PartialEq, Eq, Structural)]
pub enum Directive {
    /// Run the configured command, then report `Finished`.
    Dispatch,
    /// Block on the watch channel, then report `Notified` or `RecvError`.
    Wait,
    /// Terminate the whole process with this exit status.
    Exit(u8),
}

/// The decision state of the control loop: the two policy flags from the
/// configuration, and the current phase.
pub struct Controller {
    pub immediate: bool,
    pub stop_on_error: bool,
    pub phase: Phase,
}

/// The full transition relation of the loop: from a controller state and a
/// reported event to the next state and the directive issued.
///
/// - At startup, the `immediate` flag decides whether one dispatch happens
///   before the first notification is ever looked at.
/// - When idle, a qualifying notification triggers exactly one dispatch;
///   a non-qualifying one, and a receive error, leave the state unchanged.
/// - When a dispatch finishes, a `Failure` together with `stop_on_error`
///   terminates the process with exit status 1; any other outcome returns
///   the loop to waiting.
/// - `Stopped` is absorbing: nothing is dispatched after it.
///
/// An event that does not belong to the current phase changes nothing and
/// asks the process to keep waiting.
pub open spec fn spec_step(c: Controller, ev: LoopEvent) -> (Controller, Directive) {
    match c.phase {
        Phase::Startup => match ev {
            LoopEvent::Started => if c.immediate {
                (Controller { phase: Phase::Dispatching, ..c }, Directive::Dispatch)
            } else {
                (Controller { phase: Phase::Idle, ..c }, Directive::Wait)
            },
            _ => (c, Directive::Wait),
        },
        Phase::Idle => match ev {
            LoopEvent::Notified(n) => if spec_qualifies(n) {
                (Controller { phase: Phase::Dispatching, ..c }, Directive::Dispatch)
            } else {
                (c, Directive::Wait)
            },
            _ => (c, Directive::Wait),
        },
        Phase::Dispatching => match ev {
            LoopEvent::Finished(o) => if o is Failure && c.stop_on_error {
                (Controller { phase: Phase::Stopped, ..c }, Directive::Exit(1u8))
            } else {
                (Controller { phase: Phase::Idle, ..c }, Directive::Wait)
            },
            _ => (c, Directive::Wait),
        },
        Phase::Stopped => (c, Directive::Exit(1u8)),
    }
}

impl Controller {
    /// A fresh controller for the given configuration, standing at startup.
    pub fn new(cfg: &Config) -> (c: Controller)
        ensures
            c.immediate == cfg.immediate,
            c.stop_on_error == cfg.stop_on_error,
            c.phase is Startup,
    {
        Controller {
            immediate: cfg.immediate,
            stop_on_error: cfg.stop_on_error,
            phase: Phase::Startup,
        }
    }

    /// Take one step of the loop: record the reported event and return the
    /// directive that [`spec_step`] prescribes.
    pub fn step(&mut self, ev: &LoopEvent) -> (d: Directive)
        ensures
            *final(self) == spec_step(*old(self), *ev).0,
            d == spec_step(*old(self), *ev).1,
    {
        match self.phase {
            Phase::Startup => match ev {
                LoopEvent::Started => if self.immediate {
                    self.phase = Phase::Dispatching;
                    Directive::Dispatch
                } else {
                    self.phase = Phase::Idle;
                    Directive::Wait
                },
                _ => Directive::Wait,
            },
            Phase::Idle => match ev {
                LoopEvent::Notified(n) => if qualifies(n) {
                    self.phase = Phase::Dispatching;
                    Directive::Dispatch
                } else {
                    Directive::Wait
                },
                _ => Directive::Wait,
            },
            Phase::Dispatching => match ev {
                LoopEvent::Finished(o) => if matches!(o, Outcome::Failure) && self.stop_on_error {
                    self.phase = Phase::Stopped;
                    Directive::Exit(1u8)
                } else {
                    self.phase = Phase::Idle;
                    Directive::Wait
                },
                _ => Directive::Wait,
            },
            Phase::Stopped => Directive::Exit(1u8),
        }
    }
}

/// The directives issued when the controller consumes a whole sequence of
/// events, one [`spec_step`] at a time.
pub open spec fn run_controller(c: Controller, evs: Seq<LoopEvent>) -> Seq<Directive>
    decreases evs.len(),
{
    if evs.len() == 0 {
        Seq::empty()
    } else {
        seq![spec_step(c, evs[0]).1] + run_controller(spec_step(c, evs[0]).0, evs.drop_first())
    }
}

/// How many of these directives ask for a dispatch.
pub open spec fn dispatch_count(ds: Seq<Directive>) -> nat
    decreases ds.len(),
{
    if ds.len() == 0 {
        0
    } else {
        (if ds[0] is Dispatch { 1nat } else { 0nat }) + dispatch_count(ds.drop_first())
    }
}

/// An idle controller dispatches on a notification exactly when the
/// notification qualifies; a non-qualifying one changes nothing and causes
/// no dispatch.
pub proof fn lemma_notification_dispatch(c: Controller, n: Notification)
    requires
        c.phase is Idle,
    ensures
        spec_step(c, LoopEvent::Notified(n)).1 is Dispatch <==> spec_qualifies(n),
        !spec_qualifies(n) ==> spec_step(c, LoopEvent::Notified(n)) == (c, Directive::Wait),
{
}

/// At startup, exactly the `immediate` flag decides whether one dispatch
/// happens before any notification is processed; without it the loop goes
/// straight to waiting.
pub proof fn lemma_immediate_dispatch(c: Controller)
    requires
        c.phase is Startup,
    ensures
        spec_step(c, LoopEvent::Started).1 is Dispatch <==> c.immediate,
        c.immediate ==> spec_step(c, LoopEvent::Started).0.phase is Dispatching,
        !c.immediate ==> spec_step(c, LoopEvent::Started).0.phase is Idle
            && spec_step(c, LoopEvent::Started).1 is Wait,
{
}

/// With `immediate` set, the very first directive of a run is a dispatch:
/// it precedes the processing of every notification in the sequence.
pub proof fn lemma_immediate_first_directive(c: Controller, evs: Seq<LoopEvent>)
    requires
        c.phase is Startup,
        c.immediate,
        evs.len() > 0,
        evs[0] is Started,
    ensures
        run_controller(c, evs)[0] is Dispatch,
{
}

/// A stopped controller never dispatches again, whatever else happens.
pub proof fn lemma_stopped_no_dispatch(c: Controller, evs: Seq<LoopEvent>)
    requires
        c.phase is Stopped,
    ensures
        dispatch_count(run_controller(c, evs)) == 0,
    decreases evs.len(),
{
    if evs.len() > 0 {
        let d = spec_step(c, evs[0]).1;
        let rest = run_controller(spec_step(c, evs[0]).0, evs.drop_first());
        lemma_stopped_no_dispatch(spec_step(c, evs[0]).0, evs.drop_first());
        assert((seq![d] + rest).drop_first() =~= rest);
    }
}

/// With `stop_on_error` set, a dispatch failure terminates the process with
/// exit status 1, and no later event of any kind causes another dispatch.
pub proof fn lemma_failure_stops(c: Controller, evs: Seq<LoopEvent>)
    requires
        c.phase is Dispatching,
        c.stop_on_error,
    ensures
        spec_step(c, LoopEvent::Finished(Outcome::Failure)).1 == Directive::Exit(1u8),
        spec_step(c, LoopEvent::Finished(Outcome::Failure)).0.phase is Stopped,
        dispatch_count(
            run_controller(spec_step(c, LoopEvent::Finished(Outcome::Failure)).0, evs),
        ) == 0,
{
    lemma_stopped_no_dispatch(spec_step(c, LoopEvent::Finished(Outcome::Failure)).0, evs);
}

/// Without `stop_on_error`, a dispatch failure returns the loop to waiting,
/// and a later qualifying notification still triggers another dispatch.
pub proof fn lemma_failure_continues(c: Controller, n: Notification)
    requires
        c.phase is Dispatching,
        !c.stop_on_error,
        spec_qualifies(n),
    ensures
        spec_step(c, LoopEvent::Finished(Outcome::Failure)).1 is Wait,
        spec_step(c, LoopEvent::Finished(Outcome::Failure)).0.phase is Idle,
        spec_step(
            spec_step(c, LoopEvent::Finished(Outcome::Failure)).0,
            LoopEvent::Notified(n),
        ).1 is Dispatch,
{
}

} // verus!
