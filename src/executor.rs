//! The executor's scheduling core: which task a wake token advances, what
//! becomes of a task that completes, and what awaiting a spawned task does.

use vstd::prelude::*;
use crossbeam_channel::{Receiver, Sender};
use crate::channel::{send_token, token_channel};

verus! {

/// Names the task that a wake notification is for.
#[derive(Clone, Copy, Debug, PartialEq, Eq, Structural)]
pub enum Token {
    /// The root computation that `block_on` runs.
    Main,
    /// The spawned task with this index.
    Spawned(usize),
}

/// What the executor loop does with a token.
#[derive(Clone, Copy, Debug, PartialEq, Eq, Structural)]
pub enum Step {
    /// Advance the root computation.
    PollMain,
    /// Advance the spawned task with this index.
    PollSpawned(usize),
    /// Nothing: the task has completed already, or is unknown.
    Skip,
}

/// The cached state of a spawned task: whether it has completed, and who
/// awaits it. `W` is the wake continuation of the awaiting computation.
pub struct TaskState<W> {
    pub done: bool,
    pub waiter: Option<W>,
}

/// What the loop does with token `t`, given the spawned tasks' states.
pub open spec fn step_for<W>(tasks: Seq<TaskState<W>>, t: Token) -> Step {
    match t {
        Token::Main => Step::PollMain,
        Token::Spawned(i) => if i < tasks.len() && !tasks[i as int].done {
            Step::PollSpawned(i)
        } else {
            Step::Skip
        },
    }
}

/// The states of the spawned tasks after task `i` was advanced: once it has
/// completed, it is done and nobody waits on it any more.
pub open spec fn after_poll<W>(tasks: Seq<TaskState<W>>, i: int, ready: bool) -> Seq<TaskState<W>> {
    if ready {
        tasks.update(i, TaskState { done: true, waiter: None })
    } else {
        tasks
    }
}

/// The states of the spawned tasks after `waiter` awaited task `i`: a task
/// still pending keeps the waiter, replacing any earlier one.
pub open spec fn after_await<W>(tasks: Seq<TaskState<W>>, i: int, waiter: W) -> Seq<TaskState<W>> {
    if tasks[i].done {
        tasks
    } else {
        tasks.update(i, TaskState { done: false, waiter: Some(waiter) })
    }
}

/// The scheduling state of an executor: the spawned tasks, and the channel
/// on which their wake tokens arrive. `sent` records, in order, the tokens
/// that the scheduler itself has put on the channel; wakers held by other
/// threads send tokens of their own besides.
pub struct Scheduler<W> {
    tasks: Vec<TaskState<W>>,
    sender: Sender<Token>,
    receiver: Receiver<Token>,
    sent: Ghost<Seq<Token>>,
}

impl<W> Scheduler<W> {
    pub closed spec fn tasks(&self) -> Seq<TaskState<W>> {
        self.tasks@
    }

    /// The tokens this scheduler has sent on its channel, oldest first.
    pub closed spec fn sent(&self) -> Seq<Token> {
        self.sent@
    }

    /// A scheduler with no task spawned, on a new channel that holds no
    /// token.
    pub fn new() -> (r: Self)
        ensures
            r.tasks() == Seq::<TaskState<W>>::empty(),
            r.sent() == Seq::<Token>::empty(),
    {
        let (sender, receiver) = token_channel();
        Scheduler { tasks: Vec::new(), sender, receiver, sent: Ghost(Seq::empty()) }
    }

    /// The sending side of the token channel, for wakers to clone.
    pub fn sender(&self) -> &Sender<Token> {
        &self.sender
    }

    /// The receiving side of the token channel, where the loop waits.
    pub fn receiver(&self) -> &Receiver<Token> {
        &self.receiver
    }

    /// Sends a wake token to the loop. The scheduler holds the receiving
    /// side, so the send cannot fail.
    pub fn wake(&mut self, t: Token)
        ensures
            final(self).tasks() == old(self).tasks(),
            final(self).sent() == old(self).sent().push(t),
    {
        send_token(&self.sender, t);
        self.sent = Ghost(self.sent@.push(t));
    }

    /// The number of tasks spawned so far.
    pub fn len(&self) -> (r: usize)
        ensures
            r == self.tasks().len(),
    {
        self.tasks.len()
    }

    /// Whether spawned task `i` has completed.
    pub fn is_done(&self, i: usize) -> (r: bool)
        requires
            i < self.tasks().len(),
        ensures
            r == self.tasks()[i as int].done,
    {
        self.tasks[i].done
    }

    /// What the loop does with token `t`: the root is always advanced, a
    /// spawned task only while it is pending.
    pub fn on_token(&self, t: Token) -> (r: Step)
        ensures
            r == step_for(self.tasks(), t),
    {
        match t {
            Token::Main => Step::PollMain,
            Token::Spawned(i) => if i < self.tasks.len() && !self.tasks[i].done {
                Step::PollSpawned(i)
            } else {
                Step::Skip
            },
        }
    }

    /// Registers a new task, pending and awaited by nobody. The caller
    /// advances it once at once, and reports that with `launched`.
    pub fn spawn(&mut self) -> (r: usize)
        requires
            old(self).tasks().len() < usize::MAX,
        ensures
            r == old(self).tasks().len(),
            final(self).tasks() == old(self).tasks().push(TaskState { done: false, waiter: None }),
            step_for(final(self).tasks(), Token::Spawned(r)) == Step::PollSpawned(r),
            final(self).sent() == old(self).sent(),
    {
        let r = self.tasks.len();
        self.tasks.push(TaskState { done: false, waiter: None });
        r
    }

    /// Records the outcome of advancing spawned task `i`. Once it has
    /// completed, returns the continuation that awaited it, to be woken.
    pub fn on_polled(&mut self, i: usize, ready: bool) -> (r: Option<W>)
        requires
            i < old(self).tasks().len(),
            !old(self).tasks()[i as int].done,
        ensures
            final(self).tasks() == after_poll(old(self).tasks(), i as int, ready),
            r == (if ready { old(self).tasks()[i as int].waiter } else { None }),
            final(self).sent() == old(self).sent(),
    {
        if ready {
            let mut slot = TaskState { done: true, waiter: None };
            self.tasks.set_and_swap(i, &mut slot);
            slot.waiter
        } else {
            None
        }
    }

    /// Records the eager first advance of a task just spawned, and sends its
    /// token, and no other, so that the loop advances it again.
    pub fn launched(&mut self, i: usize, ready: bool)
        requires
            i < old(self).tasks().len(),
            !old(self).tasks()[i as int].done,
        ensures
            final(self).tasks() == after_poll(old(self).tasks(), i as int, ready),
            final(self).sent() == old(self).sent().push(Token::Spawned(i)),
    {
        let _ = self.on_polled(i, ready);
        self.wake(Token::Spawned(i));
    }

    /// Awaits spawned task `i` on behalf of `waiter`: true if it has
    /// completed, so that its result can be taken; otherwise `waiter` is
    /// kept, to be woken when it completes.
    pub fn await_task(&mut self, i: usize, waiter: W) -> (r: bool)
        requires
            i < old(self).tasks().len(),
        ensures
            r == old(self).tasks()[i as int].done,
            final(self).tasks() == after_await(old(self).tasks(), i as int, waiter),
            final(self).sent() == old(self).sent(),
    {
        if self.tasks[i].done {
            true
        } else {
            let mut slot = TaskState { done: false, waiter: Some(waiter) };
            self.tasks.set_and_swap(i, &mut slot);
            false
        }
    }
}

/// A task that has completed is never advanced again: its later tokens are
/// skipped, awaiting it returns at once and changes nothing, and it stays
/// complete whatever happens to the other tasks.
pub proof fn lemma_completed_task_is_final<W>(tasks: Seq<TaskState<W>>, i: usize, j: usize, ready: bool, waiter: W)
    requires
        i < tasks.len(),
        j < tasks.len(),
        j != i,
    ensures
        after_poll(tasks, i as int, true)[i as int].done,
        step_for(after_poll(tasks, i as int, true), Token::Spawned(i)) == Step::Skip,
        after_await(after_poll(tasks, i as int, true), i as int, waiter) == after_poll(tasks, i as int, true),
        tasks[i as int].done ==> after_poll(tasks, j as int, ready)[i as int].done,
        tasks[i as int].done ==> after_await(tasks, j as int, waiter)[i as int].done,
{
}

/// Awaiting a task that has already completed returns at once and changes
/// nothing: no continuation is stored, and the task is not advanced again.
pub proof fn lemma_await_of_completed_task_is_immediate<W>(tasks: Seq<TaskState<W>>, i: usize, waiter: W)
    requires
        i < tasks.len(),
        tasks[i as int].done,
    ensures
        after_await(tasks, i as int, waiter) == tasks,
        step_for(after_await(tasks, i as int, waiter), Token::Spawned(i)) == Step::Skip,
{
}

/// Spawning a computation that completes without suspending and awaiting
/// it: the eager first advance completes the task, the await returns at once
/// without storing a continuation, and the token sent by the spawn is
/// skipped.
pub proof fn lemma_ready_spawn_awaits_at_once<W>(tasks: Seq<TaskState<W>>, waiter: W)
    requires
        tasks.len() < usize::MAX,
    ensures
        ({
            let n = tasks.len();
            let s = after_poll(tasks.push(TaskState { done: false, waiter: None }), n as int, true);
            &&& s[n as int].done
            &&& after_await(s, n as int, waiter) == s
            &&& step_for(s, Token::Spawned(n as usize)) == Step::Skip
        }),
{
}

/// A pending task that is awaited and then completes hands back exactly the
/// continuation that awaited it, so that the awaiting side is woken.
pub proof fn lemma_completion_wakes_waiter<W>(tasks: Seq<TaskState<W>>, i: usize, waiter: W)
    requires
        i < tasks.len(),
        !tasks[i as int].done,
    ensures
        after_await(tasks, i as int, waiter)[i as int].waiter == Some(waiter),
        !after_await(tasks, i as int, waiter)[i as int].done,
        step_for(after_await(tasks, i as int, waiter), Token::Spawned(i)) == Step::PollSpawned(i),
{
}

} // verus!
