//! What the two limits promise of all lookups together.
//!
//! A [`Pool`] is the state of a resolver as a whole: the lookups under way and
//! the workers that run. It moves by [`PoolStep`]s, each of which is one thing
//! that can happen to one lookup, to one worker or to the resolver. The lookups
//! begin as [`Call::begin`] begins them and move as [`Call::advance`] moves them;
//! the resolver's [`is_closed`](crate::resolver::SystemResolver::is_closed) is what
//! [`Pool::closed`] stands for. Of the semaphores a step takes what
//! they are there for: an open semaphore grants a permit while fewer than its
//! number are out, and a closed one grants none.

use crate::config::ResolverConfig;
use crate::error::ResolveError;
use crate::resolver::{Call, Event, PermitOutcome, Stage, WorkerEvent};
use crate::time::Duration;
use vstd::prelude::*;

verus! {

/// All lookups and workers of a resolver.
pub struct Pool {
    /// The number of soft permits.
    pub soft_limit: nat,
    /// The number of hard permits.
    pub hard_limit: nat,
    /// Whether the resolver was shut down.
    pub closed: bool,
    /// The lookups that were not dropped.
    pub calls: Map<nat, Call>,
    /// The lookups whose workers run.
    pub workers: Set<nat>,
}

/// One thing that can happen.
pub enum PoolStep {
    /// A lookup begins.
    Begin {
        /// Its number.
        id: nat,
        /// Whether it cannot block.
        inline: bool,
        /// The resolver's configuration.
        config: ResolverConfig,
        /// When it begins.
        now: Duration,
    },
    /// A lookup learns what came of its action. What a result holds is left out.
    Advance {
        /// Its number.
        id: nat,
        /// What came of the action.
        event: Event<()>,
    },
    /// A lookup is dropped by its caller, wherever it stands.
    Abandon {
        /// Its number.
        id: nat,
    },
    /// A worker exits.
    WorkerExit {
        /// The number of its lookup.
        id: nat,
    },
    /// The resolver is shut down.
    Shutdown,
}

impl Pool {
    /// An idle resolver.
    pub open spec fn idle(config: ResolverConfig) -> Pool {
        Pool {
            soft_limit: config.soft_permits(),
            hard_limit: config.hard_limit as nat,
            closed: false,
            calls: Map::empty(),
            workers: Set::empty(),
        }
    }

    /// The lookups that hold a soft permit.
    pub open spec fn soft_out(self) -> Set<nat> {
        self.calls.dom().filter(|id: nat| self.calls[id].holds_soft())
    }

    /// The lookups that hold a hard permit themselves.
    pub open spec fn about_to_spawn(self) -> Set<nat> {
        self.calls.dom().filter(|id: nat| self.calls[id].holds_hard())
    }

    /// The lookups whose hard permit is out, be it with the lookup or with its
    /// worker.
    pub open spec fn hard_out(self) -> Set<nat> {
        self.about_to_spawn().union(self.workers)
    }

    /// Whether the caller of a worker's lookup still waits and the worker has not
    /// stalled.
    pub open spec fn is_awaited(self, id: nat) -> bool {
        self.calls.dom().contains(id) && (self.calls[id].stage matches Stage::Worker(wait)
            && !wait.stalled)
    }

    /// The workers that have neither stalled nor lost their caller.
    pub open spec fn awaited_workers(self) -> Set<nat> {
        self.workers.filter(|id: nat| self.is_awaited(id))
    }

    /// Whether a step can happen.
    pub open spec fn allows(self, step: PoolStep) -> bool {
        match step {
            PoolStep::Begin { id, inline, config, now } => {
                &&& !self.calls.dom().contains(id)
                &&& !self.workers.contains(id)
                &&& Call::begin_result(inline, self.closed, config, now) is Ok
            },
            PoolStep::Advance { id, event } => {
                &&& self.calls.dom().contains(id)
                &&& self.calls[id].accepts(event)
                &&& event == Event::<()>::Permit(PermitOutcome::Acquired) ==> {
                    &&& !self.closed
                    &&& self.calls[id].stage is SoftPermit ==> self.soft_out().len()
                        < self.soft_limit
                    &&& self.calls[id].stage is HardPermit ==> self.hard_out().len()
                        < self.hard_limit
                }
                &&& event == Event::<()>::Permit(PermitOutcome::Closed) ==> self.closed
            },
            PoolStep::Abandon { id } => self.calls.dom().contains(id),
            PoolStep::WorkerExit { id } => self.workers.contains(id),
            PoolStep::Shutdown => true,
        }
    }

    /// The pool after a step.
    pub open spec fn after(self, step: PoolStep) -> Pool {
        match step {
            PoolStep::Begin { id, inline, config, now } => Pool {
                calls: self.calls.insert(id, Call::begun(inline, config, now)),
                ..self
            },
            PoolStep::Advance { id, event } => Pool {
                calls: self.calls.insert(id, self.calls[id].after(event)),
                workers: if event is Spawned {
                    self.workers.insert(id)
                } else {
                    self.workers
                },
                ..self
            },
            PoolStep::Abandon { id } => Pool { calls: self.calls.remove(id), ..self },
            PoolStep::WorkerExit { id } => Pool { workers: self.workers.remove(id), ..self },
            PoolStep::Shutdown => Pool { closed: true, ..self },
        }
    }

    /// Whether a sequence of steps can happen.
    pub open spec fn allows_all(self, steps: Seq<PoolStep>) -> bool
        decreases steps.len(),
    {
        steps.len() == 0 || (self.allows_all(steps.drop_last()) && self.after_all(
            steps.drop_last(),
        ).allows(steps.last()))
    }

    /// The pool after a sequence of steps.
    pub open spec fn after_all(self, steps: Seq<PoolStep>) -> Pool
        decreases steps.len(),
    {
        if steps.len() == 0 {
            self
        } else {
            self.after_all(steps.drop_last()).after(steps.last())
        }
    }

    /// What holds of every pool that can come about: no more permits are out
    /// than there are, and a lookup that has a worker is past starting one.
    pub open spec fn sound(self) -> bool {
        &&& self.calls.dom().finite()
        &&& self.workers.finite()
        &&& self.soft_out().len() <= self.soft_limit
        &&& self.hard_out().len() <= self.hard_limit
        &&& forall|id: nat| #[trigger]
            self.calls.dom().contains(id) ==> self.calls[id].well_formed()
        &&& forall|id: nat|
            #![trigger self.calls.dom().contains(id), self.workers.contains(id)]
            self.calls.dom().contains(id) && self.workers.contains(id) ==> self.calls[id].stage is Worker
                || self.calls[id].stage is Done
    }
}

proof fn out_sets_are_finite(pool: Pool)
    requires
        pool.calls.dom().finite(),
        pool.workers.finite(),
    ensures
        pool.soft_out().finite(),
        pool.about_to_spawn().finite(),
        pool.hard_out().finite(),
{
    pool.calls.dom().lemma_len_filter(|id: nat| pool.calls[id].holds_soft());
    pool.calls.dom().lemma_len_filter(|id: nat| pool.calls[id].holds_hard());
}

/// An idle resolver has no permit out.
pub proof fn idle_is_sound(config: ResolverConfig)
    ensures
        Pool::idle(config).sound(),
{
    let pool = Pool::idle(config);
    assert(pool.soft_out() =~= Set::empty());
    assert(pool.hard_out() =~= Set::empty());
}

/// Whatever happens, no more permits are out than there are.
pub proof fn steps_keep_soundness(pool: Pool, step: PoolStep)
    requires
        pool.sound(),
        pool.allows(step),
    ensures
        pool.after(step).sound(),
{
    let next = pool.after(step);
    out_sets_are_finite(pool);
    match step {
        PoolStep::Begin { id, inline, config, now } => {
            assert(next.soft_out() =~= pool.soft_out());
            assert(next.hard_out() =~= pool.hard_out());
        },
        PoolStep::Advance { id, event } => {
            let was = pool.calls[id];
            let is = was.after(event);
            assert(next.calls[id] == is);
            if is.holds_soft() {
                assert(next.soft_out() =~= pool.soft_out().insert(id));
            } else {
                assert(next.soft_out() =~= pool.soft_out().remove(id));
            }
            if is.holds_hard() || next.workers.contains(id) {
                assert(next.hard_out() =~= pool.hard_out().insert(id));
            } else {
                assert(next.hard_out() =~= pool.hard_out().remove(id));
            }
        },
        PoolStep::Abandon { id } => {
            assert(next.soft_out() =~= pool.soft_out().remove(id));
            if pool.workers.contains(id) {
                assert(next.hard_out() =~= pool.hard_out());
            } else {
                assert(next.hard_out() =~= pool.hard_out().remove(id));
            }
        },
        PoolStep::WorkerExit { id } => {
            assert(next.soft_out() =~= pool.soft_out());
            assert(next.hard_out() =~= pool.hard_out().remove(id));
        },
        PoolStep::Shutdown => {
            assert(next.soft_out() =~= pool.soft_out());
            assert(next.hard_out() =~= pool.hard_out());
        },
    }
}

proof fn runs_are_sound(pool: Pool, steps: Seq<PoolStep>)
    requires
        pool.sound(),
        pool.allows_all(steps),
    ensures
        pool.after_all(steps).sound(),
        pool.after_all(steps).soft_limit == pool.soft_limit,
        pool.after_all(steps).hard_limit == pool.hard_limit,
    decreases steps.len(),
{
    if steps.len() > 0 {
        runs_are_sound(pool, steps.drop_last());
        steps_keep_soundness(pool.after_all(steps.drop_last()), steps.last());
    }
}

/// At most `hard_limit` workers run at any time, and at most as many of them as
/// there are soft permits have neither stalled nor lost their caller.
pub proof fn limits_hold(config: ResolverConfig, steps: Seq<PoolStep>)
    requires
        Pool::idle(config).allows_all(steps),
    ensures
        Pool::idle(config).after_all(steps).workers.len() <= config.hard_limit,
        Pool::idle(config).after_all(steps).awaited_workers().len() <= config.soft_permits(),
        Pool::idle(config).after_all(steps).soft_out().len() <= config.soft_permits(),
        Pool::idle(config).after_all(steps).hard_out().len() <= config.hard_limit,
{
    let pool = Pool::idle(config).after_all(steps);
    idle_is_sound(config);
    runs_are_sound(Pool::idle(config), steps);
    out_sets_are_finite(pool);
    vstd::set_lib::lemma_len_subset(pool.workers, pool.hard_out());
    assert(pool.awaited_workers().subset_of(pool.soft_out()));
    vstd::set_lib::lemma_len_subset(pool.awaited_workers(), pool.soft_out());
}

/// When every lookup has ended or was dropped and every worker has exited, all
/// permits are back.
pub proof fn idle_again(pool: Pool)
    requires
        forall|id: nat| #[trigger]
            pool.calls.dom().contains(id) ==> pool.calls[id].stage is Done,
        pool.workers == Set::<nat>::empty(),
    ensures
        pool.soft_out() == Set::<nat>::empty(),
        pool.hard_out() == Set::<nat>::empty(),
{
    assert(pool.soft_out() =~= Set::empty());
    assert(pool.hard_out() =~= Set::empty());
}

/// Dropping a lookup returns its soft permit at once. Its worker, where it has
/// one, runs on with the hard permit; else the hard permit is back too.
pub proof fn dropping_returns_the_soft_permit(pool: Pool, id: nat)
    requires
        pool.sound(),
        pool.allows(PoolStep::Abandon { id }),
    ensures
        pool.after(PoolStep::Abandon { id }).soft_out() == pool.soft_out().remove(id),
        pool.after(PoolStep::Abandon { id }).workers == pool.workers,
        pool.after(PoolStep::Abandon { id }).hard_out().contains(id) <==> pool.workers.contains(id),
{
    assert(pool.after(PoolStep::Abandon { id }).soft_out() =~= pool.soft_out().remove(id));
}

/// A worker that stalls returns its soft permit, so that one more lookup can
/// proceed, and keeps its hard permit.
pub proof fn stalling_returns_the_soft_permit(pool: Pool, id: nat)
    requires
        pool.sound(),
        pool.allows(PoolStep::Advance { id, event: Event::Worker(WorkerEvent::StallElapsed) }),
    ensures
        ({
            let next = pool.after(
                PoolStep::Advance { id, event: Event::Worker(WorkerEvent::StallElapsed) },
            );
            &&& pool.soft_out().contains(id)
            &&& next.soft_out() == pool.soft_out().remove(id)
            &&& next.soft_out().len() == pool.soft_out().len() - 1
            &&& next.soft_out().len() < next.soft_limit
            &&& next.hard_out() == pool.hard_out()
            &&& next.workers == pool.workers
            &&& next.calls[id].stage is Worker
        }),
{
    let next = pool.after(
        PoolStep::Advance { id, event: Event::Worker(WorkerEvent::StallElapsed) },
    );
    out_sets_are_finite(pool);
    assert(pool.calls[id].well_formed());
    assert(next.soft_out() =~= pool.soft_out().remove(id));
    assert(next.hard_out() =~= pool.hard_out());
}

/// A lookup that ends by itself returns its soft permit, however it ends, and its
/// hard permit unless a worker of its still runs.
pub proof fn ending_returns_the_permits(pool: Pool, id: nat, event: Event<()>)
    requires
        pool.sound(),
        pool.allows(PoolStep::Advance { id, event }),
        pool.calls[id].outcome(event) is Some,
    ensures
        pool.after(PoolStep::Advance { id, event }).soft_out() == pool.soft_out().remove(id),
        pool.after(PoolStep::Advance { id, event }).workers == pool.workers,
        pool.after(PoolStep::Advance { id, event }).hard_out().contains(id)
            <==> pool.workers.contains(id),
{
    let next = pool.after(PoolStep::Advance { id, event });
    assert(next.calls[id].stage is Done);
    assert(next.soft_out() =~= pool.soft_out().remove(id));
}

/// A worker's hard permit is out from its start to its exit, whatever becomes of
/// its lookup.
pub proof fn workers_keep_the_hard_permit(pool: Pool, id: nat, step: PoolStep)
    requires
        pool.workers.contains(id),
        step != (PoolStep::WorkerExit { id }),
    ensures
        pool.after(step).workers.contains(id),
        pool.after(step).hard_out().contains(id),
{
}

/// A worker that exits returns its hard permit.
pub proof fn exiting_returns_the_hard_permit(pool: Pool, id: nat)
    requires
        pool.sound(),
        pool.allows(PoolStep::WorkerExit { id }),
    ensures
        pool.after(PoolStep::WorkerExit { id }).hard_out() == pool.hard_out().remove(id),
{
    assert(pool.after(PoolStep::WorkerExit { id }).hard_out() =~= pool.hard_out().remove(id));
}

/// The grant of a permit to a waiting lookup.
pub open spec fn grant(id: nat) -> PoolStep {
    PoolStep::Advance { id, event: Event::Permit(PermitOutcome::Acquired) }
}

/// A lookup that waits for a hard permit can go on as soon as a worker exits,
/// even where every hard permit was out.
pub proof fn an_exit_admits_a_waiting_lookup(pool: Pool, worker: nat, waiting: nat)
    requires
        pool.sound(),
        !pool.closed,
        pool.allows(PoolStep::WorkerExit { id: worker }),
        pool.calls.dom().contains(waiting),
        pool.calls[waiting].stage is HardPermit,
    ensures
        pool.hard_out().len() == pool.hard_limit ==> !pool.allows(grant(waiting)),
        pool.after(PoolStep::WorkerExit { id: worker }).allows(grant(waiting)),
{
    out_sets_are_finite(pool);
    exiting_returns_the_hard_permit(pool, worker);
    assert(pool.hard_out().contains(worker));
}

/// A lookup that waits for a soft permit can go on as soon as a worker stalls or
/// the caller of a lookup with a soft permit drops it, even where every soft
/// permit was out.
pub proof fn a_stall_or_a_drop_admits_a_waiting_lookup(pool: Pool, holder: nat, waiting: nat)
    requires
        pool.sound(),
        !pool.closed,
        pool.soft_out().contains(holder),
        pool.calls.dom().contains(waiting),
        pool.calls[waiting].stage is SoftPermit,
    ensures
        pool.soft_out().len() == pool.soft_limit ==> !pool.allows(grant(waiting)),
        pool.after(PoolStep::Abandon { id: holder }).allows(grant(waiting)),
        ({
            let stall = PoolStep::Advance {
                id: holder,
                event: Event::Worker(WorkerEvent::StallElapsed),
            };
            pool.allows(stall) ==> pool.after(stall).allows(grant(waiting))
        }),
{
    let stall = PoolStep::Advance { id: holder, event: Event::Worker(WorkerEvent::StallElapsed) };
    out_sets_are_finite(pool);
    dropping_returns_the_soft_permit(pool, holder);
    if pool.allows(stall) {
        stalling_returns_the_soft_permit(pool, holder);
    }
}

/// A resolver is closed if and only if it was shut down, be it once or more often
/// and whatever else happened: not up to the first shutdown, and for good after
/// it.
pub proof fn closed_means_shut_down(config: ResolverConfig, steps: Seq<PoolStep>)
    ensures
        Pool::idle(config).after_all(steps).closed <==> steps.contains(PoolStep::Shutdown),
    decreases steps.len(),
{
    if steps.len() > 0 {
        let before = steps.drop_last();
        closed_means_shut_down(config, before);
        if steps.contains(PoolStep::Shutdown) && steps.last() != PoolStep::Shutdown {
            let i = choose|i: int| 0 <= i < steps.len() && steps[i] == PoolStep::Shutdown;
            assert(before[i] == PoolStep::Shutdown);
        }
        if before.contains(PoolStep::Shutdown) {
            let i = choose|i: int| 0 <= i < before.len() && before[i] == PoolStep::Shutdown;
            assert(steps[i] == PoolStep::Shutdown);
        }
        if steps.last() == PoolStep::Shutdown {
            assert(steps[steps.len() - 1] == PoolStep::Shutdown);
        }
    }
}

/// A shut-down resolver stays shut down and grants no permit: from then on the
/// permits that are out only come back. Shutting down twice is shutting down
/// once.
pub proof fn shutdown_is_final(pool: Pool, step: PoolStep)
    requires
        pool.sound(),
        pool.closed,
        pool.allows(step),
    ensures
        pool.after(step).closed,
        pool.after(step).soft_out().subset_of(pool.soft_out()),
        pool.after(step).hard_out().subset_of(pool.hard_out()),
        pool.after(PoolStep::Shutdown) == pool,
{
    if let PoolStep::Advance { id, event } = step {
        assert(pool.calls[id].well_formed());
    }
}

/// In a shut-down resolver a lookup that waits for a permit, or begins to, can
/// only end with `Cancelled`, or with `TimedOut` where it has a deadline.
pub proof fn shutdown_cancels_waiting_lookups(pool: Pool, id: nat, event: Event<()>)
    requires
        pool.closed,
        pool.allows(PoolStep::Advance { id, event }),
        pool.calls[id].stage is SoftPermit || pool.calls[id].stage is HardPermit,
    ensures
        pool.calls[id].outcome(event) == Some(Err::<(), ResolveError>(ResolveError::Cancelled)) || (
        pool.calls[id].deadline is Some && pool.calls[id].outcome(event) == Some(
            Err::<(), ResolveError>(ResolveError::TimedOut),
        )),
{
}

/// A lookup that cannot block does not begin in a shut-down resolver: it is
/// refused with `Cancelled`. Any other begins by waiting for a permit.
pub proof fn shutdown_refuses_inline_lookups(
    pool: Pool,
    id: nat,
    config: ResolverConfig,
    now: Duration,
)
    requires
        pool.closed,
    ensures
        Call::begin_result(true, pool.closed, config, now) == Err::<Call, ResolveError>(
            ResolveError::Cancelled,
        ),
        !pool.allows(PoolStep::Begin { id, inline: true, config, now }),
        pool.after(PoolStep::Begin { id, inline: false, config, now }).calls[id].stage
            is SoftPermit,
{
}

/// A lookup that cannot block takes no permit and starts no worker: it begins
/// and ends with the permits where they were, even where all of them are out.
pub proof fn inline_lookups_take_no_permits(
    pool: Pool,
    id: nat,
    config: ResolverConfig,
    now: Duration,
    result: Result<(), ResolveError>,
)
    requires
        !pool.closed,
        !pool.calls.dom().contains(id),
        !pool.workers.contains(id),
    ensures
        ({
            let begin = PoolStep::Begin { id, inline: true, config, now };
            let end = PoolStep::Advance { id, event: Event::Returned(result) };
            let mid = pool.after(begin);
            let last = mid.after(end);
            &&& pool.allows(begin)
            &&& mid.allows(end)
            &&& mid.soft_out() == pool.soft_out()
            &&& mid.hard_out() == pool.hard_out()
            &&& last.soft_out() == pool.soft_out()
            &&& last.hard_out() == pool.hard_out()
            &&& last.workers == pool.workers
            &&& last.calls[id].stage is Done
        }),
{
    let begin = PoolStep::Begin { id, inline: true, config, now };
    let end = PoolStep::Advance { id, event: Event::Returned(result) };
    let mid = pool.after(begin);
    let last = mid.after(end);
    assert(mid.soft_out() =~= pool.soft_out());
    assert(mid.hard_out() =~= pool.hard_out());
    assert(last.soft_out() =~= pool.soft_out());
    assert(last.hard_out() =~= pool.hard_out());
}

} // verus!
