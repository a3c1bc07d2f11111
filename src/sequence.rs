use vstd::prelude::*;

use crate::display::DisplayErrors;
use crate::transfer::{failure_of, signals, Op, Signal};

verus! {

/// What the hardware reported for the operation handed out last.
#[derive(Clone, Copy, Debug, PartialEq, Eq, Structural)]
pub enum Event {
    /// Nothing has been handed out yet.
    Start,
    /// The operation went through.
    Succeeded,
    /// The operation failed.
    Failed,
}

/// What to do next.
#[derive(Debug)]
pub enum Action {
    /// Carry out this operation and report how it went.
    Perform(Op),
    /// The run is over, with this result.
    Finish(Result<(), DisplayErrors>),
}

/// True when `a` asks for an operation whose model is `s`.
pub open spec fn performs(a: Action, s: Signal) -> bool {
    match a {
        Action::Perform(op) => op@ == s,
        Action::Finish(_) => false,
    }
}

/// True when `a` ends the run successfully.
pub open spec fn finishes_ok(a: Action) -> bool {
    match a {
        Action::Finish(Ok(())) => true,
        _ => false,
    }
}

/// True when `a` ends the run with the error `e`.
pub open spec fn finishes_with(a: Action, e: DisplayErrors) -> bool {
    match a {
        Action::Finish(Err(f)) => f == e,
        _ => false,
    }
}

/// A run of operations that stops at the first failure.
pub struct Run {
    ops: Vec<Op>,
    done: usize,
    awaiting: bool,
    finished: bool,
}

impl Run {
    /// The operations of the run, in order.
    pub closed spec fn plan(self) -> Seq<Signal> {
        signals(self.ops@)
    }

    /// How many operations have gone through.
    pub closed spec fn completed(self) -> int {
        self.done as int
    }

    /// Whether an operation has been handed out and its outcome is awaited.
    pub closed spec fn is_awaiting(self) -> bool {
        self.awaiting
    }

    /// Whether the run has ended.
    pub closed spec fn is_finished(self) -> bool {
        self.finished
    }

    /// The count of completed operations stays within the plan.
    pub closed spec fn wf(self) -> bool {
        &&& self.done <= self.ops@.len()
        &&& self.awaiting ==> self.done < self.ops@.len()
    }

    /// A run of `ops` that has not started.
    pub fn new(ops: Vec<Op>) -> (r: Run)
        ensures
            r.wf(),
            r.plan() == signals(ops@),
            r.completed() == 0,
            !r.is_awaiting(),
            !r.is_finished(),
    {
        Run { ops, done: 0, awaiting: false, finished: false }
    }

    /// Takes the outcome of the last operation and decides what comes next:
    /// a failure ends the run with that operation's error; otherwise the next
    /// operation is handed out, or the run ends successfully when none is left.
    pub fn step(&mut self, event: Event) -> (a: Action)
        requires
            old(self).wf(),
            !old(self).is_finished(),
            (event == Event::Start) == !old(self).is_awaiting(),
        ensures
            final(self).wf(),
            final(self).plan() == old(self).plan(),
            event == Event::Failed ==> {
                &&& finishes_with(a, failure_of(old(self).plan()[old(self).completed()]))
                &&& final(self).is_finished()
                &&& final(self).completed() == old(self).completed()
            },
            event != Event::Failed ==> {
                let next = if event == Event::Succeeded {
                    old(self).completed() + 1
                } else {
                    old(self).completed()
                };
                &&& final(self).completed() == next
                &&& next < old(self).plan().len() ==> performs(a, old(self).plan()[next])
                    && final(self).is_awaiting() && !final(self).is_finished()
                &&& next == old(self).plan().len() ==> finishes_ok(a) && final(self).is_finished()
            },
    {
        if event == Event::Failed {
            self.finished = true;
            self.awaiting = false;
            let e = match &self.ops[self.done] {
                Op::Command(_) | Op::Data(_) => DisplayErrors::SpiError,
                _ => DisplayErrors::PinError,
            };
            return Action::Finish(Err(e));
        }
        if event == Event::Succeeded {
            assert(self.done < self.ops.len());
            self.done = self.done + 1;
        }
        if self.done < self.ops.len() {
            self.awaiting = true;
            Action::Perform(self.ops[self.done].duplicate())
        } else {
            self.awaiting = false;
            self.finished = true;
            Action::Finish(Ok(()))
        }
    }
}

} // verus!
