use vstd::prelude::*;

use crate::action::Action;

verus! {

/// What the driver should do next.
#[derive(Clone, Copy, Debug, PartialEq, Eq, Structural)]
pub enum Step {
    /// Carry out the action at this index of the plan, then report how it
    /// went.
    Perform(usize),
    /// The plan is exhausted; the configuration pass succeeded.
    Done,
    /// An earlier action failed; the pass is aborted, nothing further
    /// runs, and the caller must signal fatal failure.
    Fatal,
}

/// Walks a plan in order.  The driver alternates: ask for the next step,
/// carry the action out, report whether it succeeded.  The first reported
/// failure aborts the whole pass — every later step is [`Step::Fatal`],
/// whatever is reported afterwards.
pub struct Executor {
    pub plan: Vec<Action>,
    pub next: usize,
    pub failed: bool,
}

/// The transition relation of [`Executor::next_step`]: from the executor
/// state before the call and the reported outcome of the previous action
/// to the state after the call and the returned step.
pub open spec fn step_spec(pre: Executor, prev_ok: bool, post: Executor, s: Step) -> bool {
    &&& post.plan == pre.plan
    &&& if pre.failed || !prev_ok {
        s == Step::Fatal && post.failed && post.next == pre.next
    } else if pre.next < pre.plan@.len() {
        s == Step::Perform(pre.next) && !post.failed && post.next == pre.next + 1
    } else {
        s == Step::Done && !post.failed && post.next == pre.next
    }
}

impl Executor {
    /// Start a pass over `plan`.
    pub fn new(plan: Vec<Action>) -> (e: Executor)
        ensures
            e.plan == plan,
            e.next == 0,
            !e.failed,
    {
        Executor { plan, next: 0, failed: false }
    }

    /// Report whether the previous action succeeded (`true` on the first
    /// call) and obtain the next step.
    pub fn next_step(&mut self, prev_ok: bool) -> (s: Step)
        ensures
            step_spec(*old(self), prev_ok, *final(self), s),
    {
        if self.failed || !prev_ok {
            self.failed = true;
            Step::Fatal
        } else if self.next < self.plan.len() {
            let i = self.next;
            self.next = i + 1;
            Step::Perform(i)
        } else {
            Step::Done
        }
    }

    /// The action to carry out for a `Perform(i)` step.
    pub fn action(&self, i: usize) -> (a: &Action)
        requires
            i < self.plan@.len(),
        ensures
            *a == self.plan@[i as int],
    {
        &self.plan[i]
    }
}

/// Law: failure is absorbing.  Once an action has failed — or the
/// executor has already aborted — the transition yields `Fatal`, leaves
/// the position unchanged, and leaves the executor aborted, so no
/// subsequent action of the plan is ever issued.
pub proof fn lemma_failure_is_absorbing(pre: Executor, prev_ok: bool, post: Executor, s: Step)
    requires
        step_spec(pre, prev_ok, post, s),
        pre.failed || !prev_ok,
    ensures
        s == Step::Fatal,
        post.failed,
        post.next == pre.next,
{
}

/// Law: actions are issued in plan order, without gaps.  A `Perform`
/// step always names the executor's current position and advances it by
/// exactly one.
pub proof fn lemma_steps_in_order(pre: Executor, prev_ok: bool, post: Executor, i: usize)
    requires
        step_spec(pre, prev_ok, post, Step::Perform(i)),
    ensures
        i == pre.next,
        i < pre.plan@.len(),
        post.next == pre.next + 1,
        !pre.failed && prev_ok && !post.failed,
{
}

} // verus!
