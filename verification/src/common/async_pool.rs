//! The ledger of a pool of workers: how many tasks wait, how many run, and
//! how many may run at once.

use vstd::prelude::*;

verus! {

/// What a pool holds at one moment.
pub struct PoolState {
    /// The number of tasks that may run at once.
    pub limit: nat,
    /// The number of tasks that wait for a permit.
    pub queued: nat,
    /// The number of tasks that run.
    pub running: nat,
    /// The number of tasks that have ended.
    pub ended: nat,
}

/// What happens to a pool.
pub enum PoolEvent {
    /// A task is submitted.
    Submit,
    /// A waiting task asks for a permit.
    Start,
    /// A running task ends.
    End,
}

/// The pool of `limit` permits to which nothing has been submitted.
pub open spec fn fresh_pool(limit: nat) -> PoolState {
    PoolState { limit, queued: 0, running: 0, ended: 0 }
}

/// The pool after an event: a submitted task waits; a waiting task starts if
/// a permit is free, and waits on if none is; a running task that ends gives
/// its permit back.
pub open spec fn pool_step(state: PoolState, event: PoolEvent) -> PoolState {
    match event {
        PoolEvent::Submit => PoolState { queued: state.queued + 1, ..state },
        PoolEvent::Start => if state.queued > 0 && state.running < state.limit {
            PoolState {
                queued: (state.queued - 1) as nat,
                running: state.running + 1,
                ..state
            }
        } else {
            state
        },
        PoolEvent::End => if state.running > 0 {
            PoolState { running: (state.running - 1) as nat, ended: state.ended + 1, ..state }
        } else {
            state
        },
    }
}

/// The pool after a run of events.
pub open spec fn pool_after(state: PoolState, events: Seq<PoolEvent>) -> PoolState
    decreases events.len(),
{
    if events.len() == 0 {
        state
    } else {
        pool_step(pool_after(state, events.drop_last()), events.last())
    }
}

/// How many tasks a run of events submits.
pub open spec fn submitted(events: Seq<PoolEvent>) -> nat
    decreases events.len(),
{
    if events.len() == 0 {
        0
    } else if events.last() is Submit {
        submitted(events.drop_last()) + 1
    } else {
        submitted(events.drop_last())
    }
}

/// A run of `n` submissions, one after the other.
pub open spec fn submissions(n: nat) -> Seq<PoolEvent> {
    Seq::new(n, |i: int| PoolEvent::Submit)
}

/// After `n` submissions `n` more tasks wait, and nothing else has changed:
/// none of them runs yet, and none is dropped.
pub proof fn lemma_submissions(state: PoolState, n: nat)
    ensures
        pool_after(state, submissions(n)) == (PoolState { queued: state.queued + n, ..state }),
        submitted(submissions(n)) == n,
    decreases n,
{
    if n > 0 {
        lemma_submissions(state, (n - 1) as nat);
        assert(submissions(n).drop_last() =~= submissions((n - 1) as nat));
        assert(submissions(n).last() is Submit);
    }
}

/// What happens to a pool in two runs of events is what happens to it in the
/// one run of both.
pub proof fn lemma_pool_after_both(state: PoolState, first: Seq<PoolEvent>, then: Seq<PoolEvent>)
    ensures
        pool_after(pool_after(state, first), then) == pool_after(state, first + then),
        submitted(first + then) == submitted(first) + submitted(then),
    decreases then.len(),
{
    if then.len() == 0 {
        assert(first + then =~= first);
    } else {
        lemma_pool_after_both(state, first, then.drop_last());
        assert((first + then).drop_last() =~= first + then.drop_last());
        assert((first + then).last() == then.last());
    }
}

/// Whatever happens to a pool, at no time do more tasks run than may run at
/// once, and no task is lost: each submitted task waits, runs or has ended.
pub proof fn lemma_pool_within_limit(limit: nat, events: Seq<PoolEvent>)
    ensures
        pool_after(fresh_pool(limit), events).running <= limit,
        pool_after(fresh_pool(limit), events).limit == limit,
        pool_after(fresh_pool(limit), events).queued + pool_after(
            fresh_pool(limit),
            events,
        ).running + pool_after(fresh_pool(limit), events).ended == submitted(events),
    decreases events.len(),
{
    if events.len() > 0 {
        lemma_pool_within_limit(limit, events.drop_last());
    }
}

/// Once no task waits and none runs, every submitted task has ended.
pub proof fn lemma_drained_pool(limit: nat, events: Seq<PoolEvent>)
    requires
        pool_after(fresh_pool(limit), events).queued == 0,
        pool_after(fresh_pool(limit), events).running == 0,
    ensures
        pool_after(fresh_pool(limit), events).ended == submitted(events),
{
    lemma_pool_within_limit(limit, events);
}

/// The permits of a pool that runs at most `capacity` tasks at once. Tasks
/// that are submitted beyond that wait; none is dropped.
#[derive(Debug)]
pub struct AsyncPool {
    capacity: usize,
    waiting: usize,
    active: usize,
    completed: u64,
}

impl AsyncPool {
    /// At all times no more tasks run than may run at once.
    #[verifier::type_invariant]
    spec fn within_capacity(&self) -> bool {
        self.active <= self.capacity
    }

    /// What the pool holds.
    pub closed spec fn view(&self) -> PoolState {
        PoolState {
            limit: self.capacity as nat,
            queued: self.waiting as nat,
            running: self.active as nat,
            ended: self.completed as nat,
        }
    }

    /// The number of tasks that may run at once.
    pub open spec fn limit(&self) -> nat {
        self@.limit
    }

    /// The number of tasks that wait for a permit.
    pub open spec fn queued(&self) -> nat {
        self@.queued
    }

    /// The number of tasks that run.
    pub open spec fn running(&self) -> nat {
        self@.running
    }

    /// The number of tasks that have ended.
    pub open spec fn ended(&self) -> nat {
        self@.ended
    }

    /// A pool of `capacity` permits, with nothing submitted yet.
    pub fn new(capacity: usize) -> (pool: AsyncPool)
        ensures
            pool@ == fresh_pool(capacity as nat),
    {
        AsyncPool { capacity, waiting: 0, active: 0, completed: 0 }
    }

    /// The number of tasks that run: never more than may run at once.
    pub fn active_tasks(&self) -> (n: usize)
        ensures
            n == self.running(),
            n <= self.limit(),
    {
        proof {
            use_type_invariant(self);
        }
        self.active
    }

    /// The number of tasks that wait for a permit.
    pub fn waiting_tasks(&self) -> (n: usize)
        ensures
            n == self.queued(),
    {
        self.waiting
    }

    /// The number of tasks that have ended.
    pub fn completed_tasks(&self) -> (n: u64)
        ensures
            n == self.ended(),
    {
        self.completed
    }

    /// A task is submitted: it waits for a permit.
    pub fn submit(&mut self)
        requires
            old(self).queued() < usize::MAX,
        ensures
            final(self)@ == pool_step(old(self)@, PoolEvent::Submit),
    {
        proof {
            use_type_invariant(&*self);
        }
        self.waiting = self.waiting + 1;
    }

    /// `count` tasks are submitted at once: they all wait for a permit, and the
    /// call does not wait for any of them.
    pub fn submit_all(&mut self, count: usize)
        requires
            old(self).queued() + count <= usize::MAX,
        ensures
            final(self)@ == pool_after(old(self)@, submissions(count as nat)),
            final(self).queued() == old(self).queued() + count,
            final(self).running() == old(self).running(),
            final(self).ended() == old(self).ended(),
            final(self).limit() == old(self).limit(),
            final(self).running() <= final(self).limit(),
    {
        proof {
            use_type_invariant(&*self);
            lemma_submissions(self@, count as nat);
        }
        self.waiting = self.waiting + count;
    }

    /// Gives a permit to a waiting task, if a task waits and a permit is free;
    /// says whether it did.
    pub fn start_next(&mut self) -> (started: bool)
        ensures
            final(self)@ == pool_step(old(self)@, PoolEvent::Start),
            started == (old(self).queued() > 0 && old(self).running() < old(self).limit()),
            final(self).running() <= final(self).limit(),
    {
        proof {
            use_type_invariant(&*self);
        }
        if self.waiting > 0 && self.active < self.capacity {
            self.waiting = self.waiting - 1;
            self.active = self.active + 1;
            true
        } else {
            false
        }
    }

    /// A running task has ended: its permit is free again.
    pub fn complete(&mut self)
        requires
            old(self).running() > 0,
            old(self).ended() < u64::MAX,
        ensures
            final(self)@ == pool_step(old(self)@, PoolEvent::End),
    {
        proof {
            use_type_invariant(&*self);
        }
        self.active = self.active - 1;
        self.completed = self.completed + 1;
    }

    /// Whether every submitted task has ended: then none runs and none waits.
    pub fn is_drained(&self) -> (drained: bool)
        ensures
            drained == (self.running() == 0 && self.queued() == 0),
    {
        self.active == 0 && self.waiting == 0
    }
}

} // verus!
