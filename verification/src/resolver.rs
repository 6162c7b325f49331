//! The resolver: who may start a worker, how long a lookup waits, and what it
//! ends with.
//!
//! [`SystemResolver`] holds the configuration and the two semaphores. Each of
//! its `resolve_*` methods begins a lookup and returns at once. The lookup's
//! [`Call`] then names one [`Action`] after the other; whoever drives it
//! performs the action, hands the [`Event`] that came of it to
//! [`Call::advance`], drops the soft permit when the [`Step`] says so, and stops
//! at the step that holds the result.
//!
//! Dropping a lookup at any point is safe: the permits that it holds go with
//! it, and a worker that was started owns its hard permit until it exits.

use crate::codes::{
    ai_addrconfig, ai_numerichost, ai_numericserv, ni_numerichost, ni_numericserv,
};
use crate::config::ResolverConfig;
use crate::error::{IoError, ResolveError};
use crate::ffi::opt_str;
use crate::time::Duration;
use crate::types::{opt_text, AddrInfoHints, AiFlags, NiFlags, SocketAddr};
use std::sync::Arc;
use tokio::sync::Semaphore;
use vstd::prelude::*;

verus! {

/// Stack size of the worker threads.
///
/// `getaddrinfo` and `getnameinfo` need far less than a thread's default stack;
/// the size keeps a margin for what NSS modules use.
pub const WORKER_STACK_SIZE: usize = 512 * 1024;

/// Whether a reverse lookup cannot consult the network, files or NSS: host and
/// service are both wanted in numeric form.
pub open spec fn reverse_is_inline(flags: NiFlags) -> bool {
    flags.has(NiFlags(ni_numerichost())) && flags.has(NiFlags(ni_numericserv()))
}

/// Whether a `getnameinfo` request is guaranteed not to block, and so can run on
/// the calling task.
pub fn getnameinfo_is_inline(flags: NiFlags) -> (r: bool)
    ensures
        r == reverse_is_inline(flags),
{
    flags.contains(NiFlags::NUMERICHOST()) && flags.contains(NiFlags::NUMERICSERV())
}

/// Whether a forward lookup cannot consult the network, files or NSS: host and
/// service are each absent or numeric, and the host's interfaces are not looked
/// at.
pub open spec fn forward_is_inline(
    has_host: bool,
    has_service: bool,
    hints: Option<AddrInfoHints>,
) -> bool {
    match hints {
        None => false,
        Some(h) => {
            &&& has_host ==> h.flags.has(AiFlags(ai_numerichost()))
            &&& has_service ==> h.flags.has(AiFlags(ai_numericserv()))
            &&& !h.flags.has(AiFlags(ai_addrconfig()))
        },
    }
}

/// Whether a `getaddrinfo` request is guaranteed not to block, and so can run on
/// the calling task.
pub fn getaddrinfo_is_inline(
    host: Option<&str>,
    service: Option<&str>,
    hints: Option<&AddrInfoHints>,
) -> (r: bool)
    ensures
        r == forward_is_inline(
            host is Some,
            service is Some,
            match hints {
                Some(h) => Some(*h),
                None => None,
            },
        ),
{
    match hints {
        None => false,
        Some(hints) => {
            let host_ok = host.is_none() || hints.flags.contains(AiFlags::NUMERICHOST());
            let service_ok = service.is_none() || hints.flags.contains(AiFlags::NUMERICSERV());
            host_ok && service_ok && !hints.flags.contains(AiFlags::ADDRCONFIG())
        },
    }
}

/// How the wait for a permit ended.
#[derive(Debug, Clone, Copy, PartialEq, Eq, Structural)]
pub enum PermitOutcome {
    /// The semaphore granted a permit.
    Acquired,
    /// The semaphore is closed.
    Closed,
    /// The deadline passed first.
    DeadlinePassed,
}

/// What a lookup makes of the end of its wait for a permit.
pub fn acquire_permit(outcome: PermitOutcome) -> (r: Result<(), ResolveError>)
    ensures
        r == permit_result(outcome),
{
    match outcome {
        PermitOutcome::Acquired => Ok(()),
        PermitOutcome::Closed => Err(ResolveError::Cancelled),
        PermitOutcome::DeadlinePassed => Err(ResolveError::TimedOut),
    }
}

/// A granted permit lets the lookup go on, a closed semaphore cancels it, a
/// passed deadline times it out.
pub open spec fn permit_result(outcome: PermitOutcome) -> Result<(), ResolveError> {
    match outcome {
        PermitOutcome::Acquired => Ok(()),
        PermitOutcome::Closed => Err(ResolveError::Cancelled),
        PermitOutcome::DeadlinePassed => Err(ResolveError::TimedOut),
    }
}

/// The wait for a worker's result.
#[derive(Debug, Clone, Copy, PartialEq, Eq, Structural)]
pub struct WorkerWait {
    /// Whether the lookup still holds its soft permit.
    pub soft_permit: bool,
    /// Whether the stall threshold has passed.
    pub stalled: bool,
    /// When the lookup times out.
    pub deadline: Option<Duration>,
}

/// What the wait for a worker's result can see.
#[derive(Debug)]
pub enum WorkerEvent<T> {
    /// The worker sent its result.
    Finished(Result<T, ResolveError>),
    /// The worker ended without a result.
    Lost,
    /// The stall threshold passed.
    StallElapsed,
    /// The deadline passed.
    DeadlinePassed,
}

impl WorkerWait {
    /// Whether the wait looks out for `event`: for the stall threshold until it
    /// has passed, for the deadline where there is one.
    pub open spec fn accepts<T>(self, event: WorkerEvent<T>) -> bool {
        match event {
            WorkerEvent::Finished(_) => true,
            WorkerEvent::Lost => true,
            WorkerEvent::StallElapsed => !self.stalled,
            WorkerEvent::DeadlinePassed => self.deadline is Some,
        }
    }

    /// The wait after an event. Every event ends the hold on the soft permit.
    pub open spec fn after<T>(self, event: WorkerEvent<T>) -> WorkerWait {
        WorkerWait {
            soft_permit: false,
            stalled: self.stalled || event is StallElapsed,
            deadline: self.deadline,
        }
    }

    /// What the lookup ends with at an event; nothing at a stall.
    pub open spec fn outcome<T>(self, event: WorkerEvent<T>) -> Option<Result<T, ResolveError>> {
        match event {
            WorkerEvent::Finished(result) => Some(result),
            WorkerEvent::Lost => Some(Err(ResolveError::Cancelled)),
            WorkerEvent::StallElapsed => None,
            WorkerEvent::DeadlinePassed => Some(Err(ResolveError::TimedOut)),
        }
    }

    /// One turn of the wait for a worker's result.
    pub fn await_worker_result<T>(&mut self, event: WorkerEvent<T>) -> (r: Option<
        Result<T, ResolveError>,
    >)
        requires
            old(self).accepts(event),
        ensures
            *final(self) == old(self).after(event),
            r == old(self).outcome(event),
    {
        self.soft_permit = false;
        match event {
            WorkerEvent::Finished(result) => Some(result),
            WorkerEvent::Lost => Some(Err(ResolveError::Cancelled)),
            WorkerEvent::StallElapsed => {
                self.stalled = true;
                None
            },
            WorkerEvent::DeadlinePassed => Some(Err(ResolveError::TimedOut)),
        }
    }
}

/// Where a lookup stands.
#[derive(Debug, Clone, Copy, PartialEq, Eq, Structural)]
pub enum Stage {
    /// The system call runs on the calling task.
    Inline,
    /// Waiting for a soft permit.
    SoftPermit,
    /// Waiting for a hard permit, with a soft permit.
    HardPermit,
    /// About to start a worker, with both permits.
    Spawn,
    /// Waiting for the worker, which has the hard permit.
    Worker(WorkerWait),
    /// Ended.
    Done,
}

/// The next thing to do for a lookup.
#[derive(Debug, Clone, Copy, PartialEq, Eq, Structural)]
pub enum Action {
    /// Make the system call on the calling task.
    RunInline,
    /// Wait for a soft permit, until the deadline.
    AcquireSoft {
        /// When to give up.
        deadline: Option<Duration>,
    },
    /// Wait for a hard permit, until the deadline.
    AcquireHard {
        /// When to give up.
        deadline: Option<Duration>,
    },
    /// Start a worker with a stack of this size and give it the hard permit.
    SpawnWorker {
        /// The size in bytes.
        stack_size: usize,
    },
    /// Wait for the worker's result.
    AwaitWorker {
        /// How long after its start the worker counts as stalled; `None` once
        /// it does.
        stall_after: Option<Duration>,
        /// When to give up.
        deadline: Option<Duration>,
    },
    /// Nothing: the lookup has ended.
    Stop,
}

/// What came of an action.
#[derive(Debug)]
pub enum Event<T> {
    /// The system call returned on the calling task.
    Returned(Result<T, ResolveError>),
    /// The wait for a permit ended.
    Permit(PermitOutcome),
    /// The worker was started.
    Spawned,
    /// The worker could not be started. The hard permit is gone with it.
    SpawnFailed(IoError),
    /// Something happened while the worker ran.
    Worker(WorkerEvent<T>),
}

/// What follows from an event.
#[derive(Debug)]
pub struct Step<T> {
    /// Whether to drop the soft permit now.
    pub release_soft: bool,
    /// What the lookup ends with, where it ends.
    pub result: Option<Result<T, ResolveError>>,
}

/// The course of one lookup.
#[derive(Debug, Clone, Copy)]
pub struct Call {
    /// Where it stands.
    pub stage: Stage,
    /// How long a worker may run before it counts as stalled.
    pub stall_threshold: Duration,
    /// When the lookup times out, whatever it waits for.
    pub deadline: Option<Duration>,
}

/// The point in time at which a lookup that starts at `now` times out.
pub open spec fn deadline_at(timeout: Option<Duration>, now: Duration) -> Option<Duration> {
    match timeout {
        Some(t) => Some(Duration { nanos: (now.nanos + t.nanos) as u128 }),
        None => None,
    }
}

/// Whether that point in time can be represented.
pub open spec fn deadline_fits(timeout: Option<Duration>, now: Duration) -> bool {
    timeout matches Some(t) ==> now.nanos + t.nanos <= u128::MAX
}

impl Call {
    /// A lookup that has just begun.
    pub open spec fn begun(inline: bool, config: ResolverConfig, now: Duration) -> Call {
        Call {
            stage: if inline {
                Stage::Inline
            } else {
                Stage::SoftPermit
            },
            stall_threshold: config.stall_threshold,
            deadline: if inline {
                None
            } else {
                deadline_at(config.timeout, now)
            },
        }
    }

    /// What beginning a lookup comes to: a lookup that cannot block is refused by
    /// a closed resolver, any other begins.
    pub open spec fn begin_result(
        inline: bool,
        closed: bool,
        config: ResolverConfig,
        now: Duration,
    ) -> Result<Call, ResolveError> {
        if inline && closed {
            Err(ResolveError::Cancelled)
        } else {
            Ok(Call::begun(inline, config, now))
        }
    }

    /// Begins a lookup.
    ///
    /// A lookup that cannot block takes no permit and has no deadline; it is
    /// refused where the resolver is `closed`. Any other starts by waiting for
    /// a permit, and learns there that the resolver is closed.
    pub fn begin(inline: bool, closed: bool, config: &ResolverConfig, now: Duration) -> (r: Result<
        Call,
        ResolveError,
    >)
        requires
            !inline ==> deadline_fits(config.timeout, now),
        ensures
            r == Call::begin_result(inline, closed, *config, now),
            r matches Ok(call) ==> call.well_formed() && !call.holds_soft() && !call.holds_hard(),
    {
        if inline {
            if closed {
                Err(ResolveError::Cancelled)
            } else {
                Ok(
                    Call {
                        stage: Stage::Inline,
                        stall_threshold: config.stall_threshold,
                        deadline: None,
                    },
                )
            }
        } else {
            let deadline: Option<Duration> = match config.timeout {
                Some(timeout) => Some(Duration { nanos: now.nanos + timeout.nanos }),
                None => None,
            };
            Ok(
                Call {
                    stage: Stage::SoftPermit,
                    stall_threshold: config.stall_threshold,
                    deadline,
                },
            )
        }
    }

    /// The wait for a worker goes by the lookup's deadline, and holds the soft
    /// permit until it stalls.
    pub open spec fn well_formed(self) -> bool {
        self.stage matches Stage::Worker(wait) ==> {
            &&& wait.deadline == self.deadline
            &&& wait.soft_permit == !wait.stalled
        }
    }

    /// Whether the lookup holds a soft permit.
    pub open spec fn holds_soft(self) -> bool {
        match self.stage {
            Stage::HardPermit => true,
            Stage::Spawn => true,
            Stage::Worker(wait) => wait.soft_permit,
            _ => false,
        }
    }

    /// Whether the lookup itself holds a hard permit.
    pub open spec fn holds_hard(self) -> bool {
        self.stage is Spawn
    }

    /// The next thing to do.
    pub open spec fn action(self) -> Action {
        match self.stage {
            Stage::Inline => Action::RunInline,
            Stage::SoftPermit => Action::AcquireSoft { deadline: self.deadline },
            Stage::HardPermit => Action::AcquireHard { deadline: self.deadline },
            Stage::Spawn => Action::SpawnWorker { stack_size: WORKER_STACK_SIZE },
            Stage::Worker(wait) => Action::AwaitWorker {
                stall_after: if wait.stalled {
                    None
                } else {
                    Some(self.stall_threshold)
                },
                deadline: wait.deadline,
            },
            Stage::Done => Action::Stop,
        }
    }

    /// Tells the next thing to do.
    pub fn next_action(&self) -> (r: Action)
        ensures
            r == self.action(),
    {
        match self.stage {
            Stage::Inline => Action::RunInline,
            Stage::SoftPermit => Action::AcquireSoft { deadline: self.deadline },
            Stage::HardPermit => Action::AcquireHard { deadline: self.deadline },
            Stage::Spawn => Action::SpawnWorker { stack_size: WORKER_STACK_SIZE },
            Stage::Worker(wait) => {
                let stall_after: Option<Duration> = if wait.stalled {
                    None
                } else {
                    Some(self.stall_threshold)
                };
                Action::AwaitWorker { stall_after, deadline: wait.deadline }
            },
            Stage::Done => Action::Stop,
        }
    }

    /// Whether `event` can come of the next action.
    pub open spec fn accepts<T>(self, event: Event<T>) -> bool {
        match self.stage {
            Stage::Inline => event is Returned,
            Stage::SoftPermit | Stage::HardPermit => event matches Event::Permit(outcome) && (
            outcome is DeadlinePassed ==> self.deadline is Some),
            Stage::Spawn => event is Spawned || event is SpawnFailed,
            Stage::Worker(wait) => event matches Event::Worker(e) && wait.accepts(e),
            Stage::Done => false,
        }
    }

    /// Where the lookup stands after an event.
    pub open spec fn stage_after<T>(self, event: Event<T>) -> Stage {
        match (self.stage, event) {
            (Stage::SoftPermit, Event::Permit(PermitOutcome::Acquired)) => Stage::HardPermit,
            (Stage::HardPermit, Event::Permit(PermitOutcome::Acquired)) => Stage::Spawn,
            (Stage::Spawn, Event::Spawned) => Stage::Worker(
                WorkerWait { soft_permit: true, stalled: false, deadline: self.deadline },
            ),
            (Stage::Worker(wait), Event::Worker(e)) => if wait.outcome(e) is None {
                Stage::Worker(wait.after(e))
            } else {
                Stage::Done
            },
            _ => Stage::Done,
        }
    }

    /// The lookup after an event.
    pub open spec fn after<T>(self, event: Event<T>) -> Call {
        Call { stage: self.stage_after(event), ..self }
    }

    /// What the lookup ends with at an event, where it ends.
    pub open spec fn outcome<T>(self, event: Event<T>) -> Option<Result<T, ResolveError>> {
        match event {
            Event::Returned(result) => Some(result),
            Event::Permit(outcome) => match permit_result(outcome) {
                Ok(_) => None,
                Err(err) => Some(Err(err)),
            },
            Event::Spawned => None,
            Event::SpawnFailed(err) => Some(Err(ResolveError::Io(err))),
            Event::Worker(e) => match self.stage {
                Stage::Worker(wait) => wait.outcome(e),
                _ => None,
            },
        }
    }

    /// Takes in what came of the last action.
    pub fn advance<T>(&mut self, event: Event<T>) -> (r: Step<T>)
        requires
            old(self).well_formed(),
            old(self).accepts(event),
        ensures
            *final(self) == old(self).after(event),
            final(self).well_formed(),
            r.result == old(self).outcome(event),
            r.release_soft == (old(self).holds_soft() && !final(self).holds_soft()),
            r.result is Some <==> final(self).stage is Done,
    {
        match (self.stage, event) {
            (Stage::Inline, Event::Returned(result)) => {
                self.stage = Stage::Done;
                Step { release_soft: false, result: Some(result) }
            },
            (Stage::SoftPermit, Event::Permit(outcome)) => match acquire_permit(outcome) {
                Ok(_) => {
                    self.stage = Stage::HardPermit;
                    Step { release_soft: false, result: None }
                },
                Err(err) => {
                    self.stage = Stage::Done;
                    Step { release_soft: false, result: Some(Err(err)) }
                },
            },
            (Stage::HardPermit, Event::Permit(outcome)) => match acquire_permit(outcome) {
                Ok(_) => {
                    self.stage = Stage::Spawn;
                    Step { release_soft: false, result: None }
                },
                Err(err) => {
                    self.stage = Stage::Done;
                    Step { release_soft: true, result: Some(Err(err)) }
                },
            },
            (Stage::Spawn, Event::Spawned) => {
                self.stage = Stage::Worker(
                    WorkerWait { soft_permit: true, stalled: false, deadline: self.deadline },
                );
                Step { release_soft: false, result: None }
            },
            (Stage::Spawn, Event::SpawnFailed(err)) => {
                self.stage = Stage::Done;
                Step { release_soft: true, result: Some(Err(ResolveError::Io(err))) }
            },
            (Stage::Worker(wait), Event::Worker(e)) => {
                let mut wait: WorkerWait = wait;
                let release_soft = wait.soft_permit;
                let result = wait.await_worker_result(e);
                self.stage = if result.is_some() {
                    Stage::Done
                } else {
                    Stage::Worker(wait)
                };
                Step { release_soft, result }
            },
            _ => Step { release_soft: false, result: None },
        }
    }
}

/// One deadline covers the wait for the soft permit, for the hard permit and for
/// the worker: it is set when the lookup begins and never moves.
pub proof fn one_deadline_covers_all_waits<T>(call: Call, event: Event<T>)
    requires
        call.well_formed(),
        call.accepts(event),
    ensures
        call.after(event).deadline == call.deadline,
        call.after(event).well_formed(),
        call.action() matches Action::AcquireSoft { deadline } ==> deadline == call.deadline,
        call.action() matches Action::AcquireHard { deadline } ==> deadline == call.deadline,
        call.action() matches Action::AwaitWorker { deadline, .. } ==> deadline == call.deadline,
{
}

/// A lookup that has ended holds no permit; it ends exactly when it has a result.
pub proof fn ended_lookups_hold_nothing<T>(call: Call, event: Event<T>)
    requires
        call.well_formed(),
        call.accepts(event),
    ensures
        call.outcome(event) is Some <==> call.after(event).stage is Done,
        call.outcome(event) is Some ==> !call.after(event).holds_soft() && !call.after(
            event,
        ).holds_hard(),
{
}

/// A lookup comes by a permit only where the semaphore it waits for grants one.
pub proof fn permits_come_from_grants<T>(call: Call, event: Event<T>)
    requires
        call.well_formed(),
        call.accepts(event),
    ensures
        !call.holds_soft() && call.after(event).holds_soft() ==> call.stage is SoftPermit && event
            == Event::<T>::Permit(PermitOutcome::Acquired),
        !call.holds_hard() && call.after(event).holds_hard() ==> call.stage is HardPermit && event
            == Event::<T>::Permit(PermitOutcome::Acquired),
{
}

/// A lookup has no result of its own making but `Cancelled`, `TimedOut` and the
/// error that kept its worker from starting; and it times out only where its
/// deadline passes.
pub proof fn results_come_from_the_system_call<T>(call: Call, event: Event<T>)
    requires
        call.well_formed(),
        call.accepts(event),
    ensures
        match call.outcome(event) {
            None => true,
            Some(result) => {
                ||| event == Event::Returned(result)
                ||| event == Event::<T>::Worker(WorkerEvent::Finished(result))
                ||| result == Err::<T, ResolveError>(ResolveError::Cancelled) && (event == Event::<
                    T,
                >::Permit(PermitOutcome::Closed) || event == Event::<T>::Worker(WorkerEvent::Lost))
                ||| result == Err::<T, ResolveError>(ResolveError::TimedOut) && call.deadline is Some
                    && (event == Event::<T>::Permit(PermitOutcome::DeadlinePassed) || event
                    == Event::<T>::Worker(WorkerEvent::DeadlinePassed))
                ||| event matches Event::SpawnFailed(err) && result == Err::<T, ResolveError>(
                    ResolveError::Io(err),
                )
            },
        },
{
}

/// A stall ends nothing: the lookup still waits for its worker, and whatever the
/// worker then sends is the result.
pub proof fn stalled_lookups_still_complete<T>(call: Call, result: Result<T, ResolveError>)
    requires
        call.well_formed(),
        call.accepts(Event::<T>::Worker(WorkerEvent::StallElapsed)),
    ensures
        ({
            let stall = Event::<T>::Worker(WorkerEvent::StallElapsed);
            let stalled = call.after(stall);
            let finish = Event::Worker(WorkerEvent::Finished(result));
            &&& call.outcome(stall) is None
            &&& call.holds_soft() && !stalled.holds_soft()
            &&& !stalled.accepts(stall)
            &&& stalled.accepts(finish)
            &&& stalled.outcome(finish) == Some(result)
        }),
{
}

/// The number of events that a lookup can still see.
pub open spec fn events_left(call: Call) -> nat {
    match call.stage {
        Stage::SoftPermit => 5,
        Stage::HardPermit => 4,
        Stage::Spawn => 3,
        Stage::Worker(wait) => if wait.stalled {
            1
        } else {
            2
        },
        Stage::Inline => 1,
        Stage::Done => 0,
    }
}

/// Every event brings a lookup closer to its end, and a lookup that can see none
/// has ended: it takes five events at most.
pub proof fn lookups_end<T>(call: Call, event: Event<T>)
    requires
        call.accepts(event),
    ensures
        events_left(call.after(event)) < events_left(call) <= 5,
        events_left(call) == 0 <==> call.stage is Done,
{
}

/// The number of permits that a semaphore was made with.
pub uninterp spec fn semaphore_limit(sem: Semaphore) -> nat;

/// `tokio::sync::Semaphore`, whose permits lookups wait for.
#[verifier::external_type_specification]
#[verifier::external_body]
pub struct ExSemaphore(Semaphore);

/// `Semaphore::new` makes a semaphore with the given number of permits. It
/// panics above `Semaphore::MAX_PERMITS`, an eighth of the range of `usize`.
pub assume_specification[ Semaphore::new ](permits: usize) -> (r: Semaphore)
    requires
        permits <= usize::MAX / 8,
    ensures
        semaphore_limit(r) == permits,
;

/// `Semaphore::close` stops the semaphore from granting permits, for good.
/// Nothing is stated of what follows: the change lies in state that is shared.
pub assume_specification[ Semaphore::close ](sem: &Semaphore);

/// `Semaphore::is_closed` tells whether the semaphore was closed. Nothing is
/// stated: the answer depends on what happened to it on any thread.
pub assume_specification[ Semaphore::is_closed ](sem: &Semaphore) -> (r: bool);

/// A resolver over the system `getaddrinfo` and `getnameinfo` calls.
///
/// At most `soft_limit` workers run under normal conditions, and at most
/// `hard_limit` at any time; see [`ResolverConfig`]. Share it by wrapping it in
/// an [`Arc`].
pub struct SystemResolver {
    config: Arc<ResolverConfig>,
    soft_sem: Arc<Semaphore>,
    hard_sem: Arc<Semaphore>,
}

/// A forward lookup: the arguments of its `getaddrinfo` call, and its course.
#[derive(Debug)]
pub struct HostLookup {
    /// The host.
    pub host: Option<String>,
    /// The service.
    pub service: Option<String>,
    /// The hints.
    pub hints: Option<AddrInfoHints>,
    /// The course of the lookup.
    pub call: Call,
}

/// A reverse lookup: the arguments of its `getnameinfo` call, and its course.
#[derive(Debug)]
pub struct AddrLookup {
    /// The address.
    pub addr: SocketAddr,
    /// The flags.
    pub flags: NiFlags,
    /// The course of the lookup.
    pub call: Call,
}

fn opt_owned(s: Option<&str>) -> (r: Option<String>)
    ensures
        opt_text(r) == opt_str(s),
{
    match s {
        Some(text) => Some(text.to_owned()),
        None => None,
    }
}

impl SystemResolver {
    /// The configuration.
    pub closed spec fn config(&self) -> ResolverConfig {
        *self.config
    }

    /// The semaphore of the soft permits.
    pub closed spec fn soft_semaphore(&self) -> Semaphore {
        *self.soft_sem
    }

    /// The semaphore of the hard permits.
    pub closed spec fn hard_semaphore(&self) -> Semaphore {
        *self.hard_sem
    }

    /// Creates a resolver. A soft limit above the hard limit is clamped to it.
    #[must_use]
    pub fn new(config: ResolverConfig) -> (r: SystemResolver)
        requires
            config.hard_limit <= usize::MAX / 8,
        ensures
            r.config() == config,
            semaphore_limit(r.soft_semaphore()) == config.soft_permits(),
            semaphore_limit(r.hard_semaphore()) == config.hard_limit,
    {
        let soft_limit: usize = if config.soft_limit <= config.hard_limit {
            config.soft_limit
        } else {
            config.hard_limit
        };
        SystemResolver {
            soft_sem: Arc::new(Semaphore::new(soft_limit)),
            hard_sem: Arc::new(Semaphore::new(config.hard_limit)),
            config: Arc::new(config),
        }
    }

    /// Shuts the resolver down: any lookup that is waiting for a permit, or
    /// starts afterwards, ends with [`ResolveError::Cancelled`]. Workers that run
    /// already run to completion.
    ///
    /// Both semaphores are closed. What they answer from then on lies in state
    /// that the resolver shares with whoever waits for its permits.
    pub fn shutdown(&self)
        ensures
            call_ensures(Semaphore::close, (&self.soft_semaphore(),), ()),
            call_ensures(Semaphore::close, (&self.hard_semaphore(),), ()),
    {
        self.soft_sem.close();
        self.hard_sem.close();
    }

    /// Whether the resolver was shut down.
    ///
    /// The answer is one that `Semaphore::is_closed` gave for the semaphore of
    /// the hard permits. Which of the two it is depends on what other holders of
    /// the resolver did, so two calls may differ.
    #[must_use]
    pub fn is_closed(&self) -> (r: bool)
        ensures
            call_ensures(Semaphore::is_closed, (&self.hard_semaphore(),), r),
    {
        self.hard_sem.is_closed()
    }

    /// The semaphore to take soft permits from.
    #[must_use]
    pub fn soft_sem(&self) -> (r: &Arc<Semaphore>)
        ensures
            **r == self.soft_semaphore(),
    {
        &self.soft_sem
    }

    /// The semaphore to take hard permits from.
    #[must_use]
    pub fn hard_sem(&self) -> (r: &Arc<Semaphore>)
        ensures
            **r == self.hard_semaphore(),
    {
        &self.hard_sem
    }

    /// Whether the semaphore of the hard permits gives the answer `closed`, and
    /// no other, to the question whether it is closed: it is open throughout, or
    /// closed before it is first asked.
    pub open spec fn only_answers(self, closed: bool) -> bool {
        forall|b: bool| #[trigger]
            call_ensures(Semaphore::is_closed, (&self.hard_semaphore(),), b) ==> b == closed
    }

    /// Whether `r` is a forward lookup for these arguments that has just begun,
    /// or the refusal that a lookup that cannot block meets in a closed resolver.
    /// For a lookup that cannot block, the semaphore of the hard permits was asked
    /// and its answer decided.
    pub open spec fn host_lookup_begins(
        self,
        host: Option<Seq<char>>,
        service: Option<Seq<char>>,
        hints: Option<AddrInfoHints>,
        now: Duration,
        r: Result<HostLookup, ResolveError>,
    ) -> bool {
        let inline = forward_is_inline(host is Some, service is Some, hints);
        match r {
            Ok(lookup) => {
                &&& opt_text(lookup.host) == host
                &&& opt_text(lookup.service) == service
                &&& lookup.hints == hints
                &&& lookup.call == Call::begun(inline, self.config(), now)
                &&& lookup.call.well_formed()
                &&& inline ==> call_ensures(
                    Semaphore::is_closed,
                    (&self.hard_semaphore(),),
                    false,
                )
            },
            Err(err) => {
                &&& inline
                &&& err == ResolveError::Cancelled
                &&& call_ensures(Semaphore::is_closed, (&self.hard_semaphore(),), true)
            },
        }
    }

    /// Whether `r` is a reverse lookup for these arguments that has just begun, or
    /// the refusal that a lookup that cannot block meets in a closed resolver. For
    /// a lookup that cannot block, the semaphore of the hard permits was asked and
    /// its answer decided.
    pub open spec fn addr_lookup_begins(
        self,
        addr: SocketAddr,
        flags: NiFlags,
        now: Duration,
        r: Result<AddrLookup, ResolveError>,
    ) -> bool {
        let inline = reverse_is_inline(flags);
        match r {
            Ok(lookup) => {
                &&& lookup.addr == addr
                &&& lookup.flags == flags
                &&& lookup.call == Call::begun(inline, self.config(), now)
                &&& lookup.call.well_formed()
                &&& inline ==> call_ensures(
                    Semaphore::is_closed,
                    (&self.hard_semaphore(),),
                    false,
                )
            },
            Err(err) => {
                &&& inline
                &&& err == ResolveError::Cancelled
                &&& call_ensures(Semaphore::is_closed, (&self.hard_semaphore(),), true)
            },
        }
    }

    fn resolve_host_impl(
        &self,
        host: Option<&str>,
        service: Option<&str>,
        hints: Option<AddrInfoHints>,
        now: Duration,
    ) -> (r: Result<HostLookup, ResolveError>)
        requires
            forward_is_inline(host is Some, service is Some, hints) || deadline_fits(
                self.config().timeout,
                now,
            ),
        ensures
            self.host_lookup_begins(opt_str(host), opt_str(service), hints, now, r),
    {
        let inline = match &hints {
            Some(h) => getaddrinfo_is_inline(host, service, Some(h)),
            None => getaddrinfo_is_inline(host, service, None),
        };
        let closed = inline && self.is_closed();
        let call: Call = match Call::begin(inline, closed, &self.config, now) {
            Ok(call) => call,
            Err(err) => return Err(err),
        };
        Ok(HostLookup { host: opt_owned(host), service: opt_owned(service), hints, call })
    }

    /// Begins to resolve a hostname to a list of socket addresses, at `now`.
    ///
    /// `hints` narrows the query; `None` accepts all results. A lookup that
    /// cannot block is refused with [`ResolveError::Cancelled`] once the resolver
    /// is shut down.
    pub fn resolve_host(&self, host: &str, hints: Option<AddrInfoHints>, now: Duration) -> (r:
        Result<HostLookup, ResolveError>)
        requires
            forward_is_inline(true, false, hints) || deadline_fits(self.config().timeout, now),
        ensures
            self.host_lookup_begins(Some(host@), None, hints, now, r),
    {
        self.resolve_host_impl(Some(host), None, hints, now)
    }

    /// Begins to resolve a hostname and a service (a name, or a port number), at
    /// `now`. See [`resolve_host`](Self::resolve_host).
    pub fn resolve_host_service(
        &self,
        host: &str,
        service: &str,
        hints: Option<AddrInfoHints>,
        now: Duration,
    ) -> (r: Result<HostLookup, ResolveError>)
        requires
            forward_is_inline(true, true, hints) || deadline_fits(self.config().timeout, now),
        ensures
            self.host_lookup_begins(Some(host@), Some(service@), hints, now, r),
    {
        self.resolve_host_impl(Some(host), Some(service), hints, now)
    }

    /// Begins to resolve a service with no host, at `now`, for addresses of the
    /// local machine. See [`resolve_host`](Self::resolve_host).
    pub fn resolve_passive(&self, service: &str, hints: Option<AddrInfoHints>, now: Duration) -> (r:
        Result<HostLookup, ResolveError>)
        requires
            forward_is_inline(false, true, hints) || deadline_fits(self.config().timeout, now),
        ensures
            self.host_lookup_begins(None, Some(service@), hints, now, r),
    {
        self.resolve_host_impl(None, Some(service), hints, now)
    }

    /// Begins to resolve a socket address to a hostname and a service name, at
    /// `now`.
    ///
    /// A lookup that cannot block is refused with [`ResolveError::Cancelled`] once
    /// the resolver is shut down.
    pub fn resolve_addr(&self, addr: SocketAddr, flags: NiFlags, now: Duration) -> (r: Result<
        AddrLookup,
        ResolveError,
    >)
        requires
            reverse_is_inline(flags) || deadline_fits(self.config().timeout, now),
        ensures
            self.addr_lookup_begins(addr, flags, now, r),
    {
        let inline = getnameinfo_is_inline(flags);
        let closed = inline && self.is_closed();
        match Call::begin(inline, closed, &self.config, now) {
            Ok(call) => Ok(AddrLookup { addr, flags, call }),
            Err(err) => Err(err),
        }
    }
}

/// Where the semaphore of the hard permits answers alike throughout, a forward
/// lookup that cannot block is refused with `Cancelled` if and only if the answer
/// is that it is closed. Any other begins, whatever the answer.
pub proof fn forward_lookups_begin_unless_refused(
    resolver: SystemResolver,
    closed: bool,
    host: Option<Seq<char>>,
    service: Option<Seq<char>>,
    hints: Option<AddrInfoHints>,
    now: Duration,
    r: Result<HostLookup, ResolveError>,
)
    requires
        resolver.only_answers(closed),
        resolver.host_lookup_begins(host, service, hints, now, r),
    ensures
        ({
            let inline = forward_is_inline(host is Some, service is Some, hints);
            match Call::begin_result(inline, closed, resolver.config(), now) {
                Ok(call) => r matches Ok(lookup) && lookup.call == call,
                Err(err) => r == Err::<HostLookup, ResolveError>(err),
            }
        }),
{
}

/// Where the semaphore of the hard permits answers alike throughout, a reverse
/// lookup that cannot block is refused with `Cancelled` if and only if the answer
/// is that it is closed. Any other begins, whatever the answer.
pub proof fn reverse_lookups_begin_unless_refused(
    resolver: SystemResolver,
    closed: bool,
    addr: SocketAddr,
    flags: NiFlags,
    now: Duration,
    r: Result<AddrLookup, ResolveError>,
)
    requires
        resolver.only_answers(closed),
        resolver.addr_lookup_begins(addr, flags, now, r),
    ensures
        match Call::begin_result(reverse_is_inline(flags), closed, resolver.config(), now) {
            Ok(call) => r matches Ok(lookup) && lookup.call == call,
            Err(err) => r == Err::<AddrLookup, ResolveError>(err),
        },
{
}

} // verus!
