use std::future::Future;
use std::sync::Arc;
use std::time::Duration as Span;
use tokio::sync::oneshot::{channel, Receiver};
use tokio::sync::{OwnedSemaphorePermit, Semaphore};
use tokio::time::{sleep, timeout_at, Instant};
use tokio_system_resolver::error::IoError;
use tokio_system_resolver::ffi::{
    getaddrinfo_response, getnameinfo_response, AddrInfoNode, Sockaddr, SockaddrIn,
};
use tokio_system_resolver::resolver::{
    acquire_permit, getaddrinfo_is_inline, getnameinfo_is_inline, Action, Call, Event,
    PermitOutcome, Stage, WorkerEvent, WorkerWait, WORKER_STACK_SIZE,
};
use tokio_system_resolver::types::{SocketAddr, SocketAddrV4};
use tokio_system_resolver::{
    AddrInfoHints, AiFlags, Duration, NiFlags, ResolveError, ResolverConfig, SystemResolver,
};

const LOOPBACK: SocketAddr = SocketAddr::V4(SocketAddrV4 { ip: [127, 0, 0, 1], port: 80 });
const NOW: Duration = Duration { nanos: 0 };

/// Runs a future on a clock that jumps from timer to timer.
fn run<F: Future>(future: F) -> F::Output {
    tokio::runtime::Builder::new_current_thread()
        .enable_all()
        .start_paused(true)
        .build()
        .unwrap()
        .block_on(future)
}

fn config(soft: usize, hard: usize, stall_ms: u64, timeout_ms: Option<u64>) -> ResolverConfig {
    ResolverConfig {
        soft_limit: soft,
        hard_limit: hard,
        stall_threshold: Duration::from_millis(stall_ms),
        timeout: timeout_ms.map(Duration::from_millis),
    }
}

fn span(d: Duration) -> Span {
    Span::from_nanos(d.nanos as u64)
}

async fn acquire(
    sem: &Arc<Semaphore>,
    deadline: Option<Instant>,
) -> (PermitOutcome, Option<OwnedSemaphorePermit>) {
    let granted = Arc::clone(sem).acquire_owned();
    let permit = match deadline {
        Some(at) => match timeout_at(at, granted).await {
            Ok(permit) => permit,
            Err(_) => return (PermitOutcome::DeadlinePassed, None),
        },
        None => granted.await,
    };
    match permit {
        Ok(permit) => (PermitOutcome::Acquired, Some(permit)),
        Err(_) => (PermitOutcome::Closed, None),
    }
}

/// Waits for the first thing that a wait for a worker looks out for.
async fn worker_event<T>(
    stall_at: Option<Instant>,
    deadline: Option<Instant>,
    rx: &mut Receiver<Result<T, ResolveError>>,
) -> WorkerEvent<T> {
    let first = match (stall_at, deadline) {
        (Some(stall), Some(end)) => Some(stall.min(end)),
        (stall, end) => stall.or(end),
    };
    let received = match first {
        Some(at) => match timeout_at(at, rx).await {
            Ok(received) => received,
            Err(_) if deadline == first => return WorkerEvent::DeadlinePassed,
            Err(_) => return WorkerEvent::StallElapsed,
        },
        None => rx.await,
    };
    match received {
        Ok(result) => WorkerEvent::Finished(result),
        Err(_) => WorkerEvent::Lost,
    }
}

async fn await_worker_result<T>(
    mut soft_permit: Option<OwnedSemaphorePermit>,
    stall_threshold: Span,
    deadline: Option<Span>,
    rx: &mut Receiver<Result<T, ResolveError>>,
) -> Result<T, ResolveError> {
    let start = Instant::now();
    let mut wait = WorkerWait {
        soft_permit: true,
        stalled: false,
        deadline: deadline.map(|d| Duration { nanos: d.as_nanos() }),
    };
    loop {
        let stall_at = (!wait.stalled).then_some(start + stall_threshold);
        let event = worker_event(stall_at, deadline.map(|d| start + d), rx).await;
        let result = wait.await_worker_result(event);
        if !wait.soft_permit {
            drop(soft_permit.take());
        }
        if let Some(result) = result {
            return result;
        }
    }
}

/// Carries a lookup through. Its system call takes `delay` and gives `answer`.
async fn drive<T: Send + 'static>(
    resolver: &SystemResolver,
    mut call: Call,
    delay: Span,
    answer: Result<T, ResolveError>,
) -> Result<T, ResolveError> {
    let start = Instant::now();
    let mut answer = Some(answer);
    let mut soft = None;
    let mut hard = None;
    let mut rx = None;
    let mut spawned_at = start;
    loop {
        let event = match call.next_action() {
            Action::RunInline => Event::Returned(answer.take().unwrap()),
            Action::AcquireSoft { deadline } => {
                let deadline = deadline.map(|d| start + span(d));
                let (outcome, permit) = acquire(resolver.soft_sem(), deadline).await;
                soft = permit;
                Event::Permit(outcome)
            }
            Action::AcquireHard { deadline } => {
                let deadline = deadline.map(|d| start + span(d));
                let (outcome, permit) = acquire(resolver.hard_sem(), deadline).await;
                hard = permit;
                Event::Permit(outcome)
            }
            Action::SpawnWorker { .. } => {
                let (tx, receiver) = channel();
                let (permit, answer) = (hard.take(), answer.take().unwrap());
                tokio::spawn(async move {
                    sleep(delay).await;
                    let _ = tx.send(answer);
                    drop(permit);
                });
                rx = Some(receiver);
                spawned_at = Instant::now();
                Event::Spawned
            }
            Action::AwaitWorker { stall_after, deadline } => Event::Worker(
                worker_event(
                    stall_after.map(|d| spawned_at + span(d)),
                    deadline.map(|d| start + span(d)),
                    rx.as_mut().unwrap(),
                )
                .await,
            ),
            Action::Stop => panic!("the lookup has ended"),
        };
        let step = call.advance(event);
        if step.release_soft {
            drop(soft.take());
        }
        if let Some(result) = step.result {
            return result;
        }
    }
}

async fn resolve_host(resolver: &SystemResolver, delay_ms: u64) -> Result<u32, ResolveError> {
    let lookup = resolver.resolve_host("localhost", None, NOW)?;
    drive(resolver, lookup.call, Span::from_millis(delay_ms), Ok(7)).await
}

fn test_soft_permit() -> (Option<OwnedSemaphorePermit>, Arc<Semaphore>) {
    let sem = Arc::new(Semaphore::new(1));
    let permit = Arc::clone(&sem).try_acquire_owned().unwrap();
    (Some(permit), sem)
}

async fn wait_for_idle(resolver: &SystemResolver, soft: usize, hard: usize) {
    for _ in 0..50 {
        if resolver.soft_sem().available_permits() == soft
            && resolver.hard_sem().available_permits() == hard
        {
            return;
        }
        sleep(Span::from_millis(5)).await;
    }
    assert_eq!(resolver.soft_sem().available_permits(), soft);
    assert_eq!(resolver.hard_sem().available_permits(), hard);
}

#[test]
fn getnameinfo_inline_predicate() {
    assert!(getnameinfo_is_inline(NiFlags::NUMERICHOST() | NiFlags::NUMERICSERV()));
    // Either flag alone may still hit /etc/services or reverse DNS.
    assert!(!getnameinfo_is_inline(NiFlags::NUMERICHOST()));
    assert!(!getnameinfo_is_inline(NiFlags::NUMERICSERV()));
    assert!(!getnameinfo_is_inline(NiFlags::NONE()));
}

#[test]
fn getaddrinfo_inline_predicate() {
    let numeric = AddrInfoHints {
        flags: AiFlags::NUMERICHOST() | AiFlags::NUMERICSERV(),
        ..Default::default()
    };
    assert!(getaddrinfo_is_inline(Some("127.0.0.1"), Some("80"), Some(&numeric)));

    // Numeric host, no service: still inline.
    let host_only = AddrInfoHints { flags: AiFlags::NUMERICHOST(), ..Default::default() };
    assert!(getaddrinfo_is_inline(Some("127.0.0.1"), None, Some(&host_only)));

    // Absent host (passive) with numeric service: inline.
    let passive = AddrInfoHints {
        flags: AiFlags::PASSIVE() | AiFlags::NUMERICSERV(),
        ..Default::default()
    };
    assert!(getaddrinfo_is_inline(None, Some("80"), Some(&passive)));

    // A service name without NUMERICSERV may hit /etc/services.
    assert!(!getaddrinfo_is_inline(Some("127.0.0.1"), Some("http"), Some(&host_only)));

    // No hints: a host would be resolved via NSS/DNS.
    assert!(!getaddrinfo_is_inline(Some("127.0.0.1"), None, None));

    // ADDRCONFIG inspects system interfaces, so it disables the fast path.
    let with_addrcfg = AddrInfoHints {
        flags: AiFlags::NUMERICHOST() | AiFlags::NUMERICSERV() | AiFlags::ADDRCONFIG(),
        ..Default::default()
    };
    assert!(!getaddrinfo_is_inline(Some("127.0.0.1"), Some("80"), Some(&with_addrcfg)));
}

#[test]
fn test_soft_limit_clamped_to_hard_limit() {
    let resolver = SystemResolver::new(config(10, 2, 500, None));
    assert_eq!(resolver.soft_sem().available_permits(), 2);
    assert_eq!(resolver.hard_sem().available_permits(), 2);
}

#[test]
fn permits_are_the_configured_limits() {
    let resolver = SystemResolver::new(ResolverConfig::default());
    assert_eq!(resolver.soft_sem().available_permits(), 8);
    assert_eq!(resolver.hard_sem().available_permits(), 32);
    let most = usize::MAX / 8;
    assert_eq!(most, Semaphore::MAX_PERMITS);
    let resolver = SystemResolver::new(config(most, most, 500, None));
    assert_eq!(resolver.hard_sem().available_permits(), most);
}

#[test]
fn permit_outcomes() {
    assert!(acquire_permit(PermitOutcome::Acquired).is_ok());
    assert!(matches!(acquire_permit(PermitOutcome::Closed), Err(ResolveError::Cancelled)));
    assert!(matches!(acquire_permit(PermitOutcome::DeadlinePassed), Err(ResolveError::TimedOut)));
}

#[test]
fn lookups_keep_their_arguments() {
    let resolver = SystemResolver::new(config(1, 1, 500, Some(20)));
    let hints = AddrInfoHints { flags: AiFlags::PASSIVE(), ..Default::default() };
    let at = Duration::from_secs(5);

    let lookup = resolver.resolve_host("example.com", None, at).unwrap();
    assert_eq!(lookup.host.as_deref(), Some("example.com"));
    assert!(lookup.service.is_none());
    assert!(lookup.hints.is_none());
    assert_eq!(lookup.call.deadline, Some(Duration::from_millis(5020)));
    assert_eq!(lookup.call.stage, Stage::SoftPermit);

    let lookup = resolver.resolve_host_service("example.com", "http", Some(hints), at).unwrap();
    assert_eq!(lookup.host.as_deref(), Some("example.com"));
    assert_eq!(lookup.service.as_deref(), Some("http"));
    assert_eq!(lookup.hints.unwrap().flags, AiFlags::PASSIVE());

    let lookup = resolver.resolve_passive("8080", Some(hints), at).unwrap();
    assert!(lookup.host.is_none());
    assert_eq!(lookup.service.as_deref(), Some("8080"));

    let lookup = resolver.resolve_addr(LOOPBACK, NiFlags::NAMEREQD(), at).unwrap();
    assert_eq!(lookup.addr, LOOPBACK);
    assert_eq!(lookup.flags, NiFlags::NAMEREQD());
    assert_eq!(lookup.call.deadline, Some(Duration::from_millis(5020)));
}

#[test]
fn a_lookup_goes_through_its_actions() {
    let resolver = SystemResolver::new(config(1, 1, 500, Some(20)));
    let mut call = resolver.resolve_addr(LOOPBACK, NiFlags::NONE(), NOW).unwrap().call;
    let deadline = Some(Duration::from_millis(20));
    assert_eq!(call.next_action(), Action::AcquireSoft { deadline });
    let step = call.advance::<u32>(Event::Permit(PermitOutcome::Acquired));
    assert!(!step.release_soft && step.result.is_none());
    assert_eq!(call.next_action(), Action::AcquireHard { deadline });
    let step = call.advance::<u32>(Event::Permit(PermitOutcome::Acquired));
    assert!(!step.release_soft && step.result.is_none());
    assert_eq!(call.next_action(), Action::SpawnWorker { stack_size: 512 * 1024 });
    assert_eq!(WORKER_STACK_SIZE, 524_288);
    let step = call.advance::<u32>(Event::Spawned);
    assert!(!step.release_soft && step.result.is_none());
    let stall_after = Some(Duration::from_millis(500));
    assert_eq!(call.next_action(), Action::AwaitWorker { stall_after, deadline });
    let step = call.advance::<u32>(Event::Worker(WorkerEvent::StallElapsed));
    assert!(step.release_soft && step.result.is_none());
    assert_eq!(call.next_action(), Action::AwaitWorker { stall_after: None, deadline });
    let step = call.advance(Event::Worker(WorkerEvent::Finished(Ok(7u32))));
    assert!(!step.release_soft);
    assert_eq!(step.result.unwrap().unwrap(), 7);
    assert_eq!(call.next_action(), Action::Stop);
}

#[test]
fn a_worker_that_cannot_start_ends_the_lookup() {
    let resolver = SystemResolver::new(config(1, 1, 500, None));
    let mut call = resolver.resolve_host("localhost", None, NOW).unwrap().call;
    call.advance::<u32>(Event::Permit(PermitOutcome::Acquired));
    call.advance::<u32>(Event::Permit(PermitOutcome::Acquired));
    let err = IoError::Os { code: 11, message: "no threads".to_string() };
    let step = call.advance::<u32>(Event::SpawnFailed(err));
    assert!(step.release_soft);
    assert_eq!(step.result.unwrap().unwrap_err().message(None), "no threads");
}

#[test]
fn a_lost_worker_cancels_the_lookup() {
    let mut wait = WorkerWait { soft_permit: true, stalled: false, deadline: None };
    let result = wait.await_worker_result::<u32>(WorkerEvent::Lost);
    assert!(matches!(result, Some(Err(ResolveError::Cancelled))));
    assert!(!wait.soft_permit);
}

#[test]
fn test_concurrent_50() {
    run(async {
        let resolver = Arc::new(SystemResolver::new(ResolverConfig::default()));
        let mut handles = Vec::new();
        for _ in 0..50 {
            let r = Arc::clone(&resolver);
            handles.push(tokio::spawn(async move { resolve_host(&r, 20).await }));
        }
        for h in handles {
            h.await.unwrap().unwrap();
        }
        wait_for_idle(&resolver, 8, 32).await;
    });
}

#[test]
fn test_soft_limit_equal_to_hard_limit() {
    run(async {
        let resolver = Arc::new(SystemResolver::new(config(2, 2, 500, None)));
        let mut handles = Vec::new();
        for _ in 0..16 {
            let r = Arc::clone(&resolver);
            handles.push(tokio::spawn(async move { resolve_host(&r, 20).await }));
        }
        for handle in handles {
            handle.await.unwrap().unwrap();
        }
        wait_for_idle(&resolver, 2, 2).await;
    });
}

#[test]
fn test_cancellation_safety() {
    run(async {
        let resolver = Arc::new(SystemResolver::new(config(2, 4, 500, None)));

        // Drop unpolled futures: no permit ever acquired.
        for _ in 0..20 {
            let fut = resolve_host(&resolver, 20);
            drop(fut);
        }

        // Abort spawned tasks mid-flight
        let mut handles = Vec::new();
        for _ in 0..5 {
            let r = Arc::clone(&resolver);
            handles.push(tokio::spawn(async move { resolve_host(&r, 20).await }));
        }
        sleep(Span::from_millis(1)).await;
        // Two run, the others wait for a soft permit.
        assert_eq!(resolver.soft_sem().available_permits(), 0);
        assert_eq!(resolver.hard_sem().available_permits(), 2);
        for h in handles {
            h.abort();
        }
        sleep(Span::from_millis(1)).await;
        // The soft permits are back at once, the workers run on.
        assert_eq!(resolver.soft_sem().available_permits(), 2);
        assert_eq!(resolver.hard_sem().available_permits(), 2);

        resolve_host(&resolver, 20).await.unwrap();
        wait_for_idle(&resolver, 2, 4).await;
    });
}

#[test]
fn stalled_workers_let_others_in_up_to_the_hard_limit() {
    run(async {
        let resolver = Arc::new(SystemResolver::new(config(1, 3, 10, None)));
        let mut handles = Vec::new();
        for _ in 0..5 {
            let r = Arc::clone(&resolver);
            handles.push(tokio::spawn(async move { resolve_host(&r, 1000).await }));
        }
        sleep(Span::from_millis(15)).await;
        // One worker has stalled, and the next one runs.
        assert_eq!(resolver.hard_sem().available_permits(), 1);
        assert_eq!(resolver.soft_sem().available_permits(), 0);
        sleep(Span::from_millis(100)).await;
        // Three stalled workers are all there can be; a fourth lookup waits.
        assert_eq!(resolver.hard_sem().available_permits(), 0);
        assert_eq!(resolver.soft_sem().available_permits(), 0);
        for handle in handles {
            assert_eq!(handle.await.unwrap().unwrap(), 7);
        }
        wait_for_idle(&resolver, 1, 3).await;
    });
}

/// A waiter blocked on the hard permit is cancelled when the resolver is shut
/// down.
#[test]
fn test_shutdown_cancels_waiting_call() {
    run(async {
        let resolver = Arc::new(SystemResolver::new(config(1, 1, 5000, None)));
        let held_permit = Arc::clone(resolver.hard_sem()).acquire_owned().await.unwrap();
        let waiter = {
            let r = Arc::clone(&resolver);
            tokio::spawn(async move { resolve_host(&r, 20).await })
        };
        sleep(Span::from_millis(5)).await;
        assert_eq!(resolver.soft_sem().available_permits(), 0);
        assert!(!resolver.is_closed());

        resolver.shutdown();
        drop(held_permit);

        let result = waiter.await.unwrap();
        assert!(matches!(result, Err(ResolveError::Cancelled)));
        assert!(resolver.is_closed());

        // Lookups that start afterwards fare alike, and shutting down again
        // changes nothing.
        resolver.shutdown();
        assert!(resolver.is_closed());
        assert!(matches!(resolve_host(&resolver, 20).await, Err(ResolveError::Cancelled)));
    });
}

#[test]
fn test_aborting_while_waiting_on_hard_permit_releases_soft_permit() {
    run(async {
        let resolver = Arc::new(SystemResolver::new(config(1, 1, 5000, None)));
        let held_permit = Arc::clone(resolver.hard_sem()).acquire_owned().await.unwrap();
        let waiter = {
            let r = Arc::clone(&resolver);
            tokio::spawn(async move { resolve_host(&r, 20).await })
        };
        sleep(Span::from_millis(5)).await;
        assert_eq!(resolver.soft_sem().available_permits(), 0);

        waiter.abort();
        let _ = waiter.await;
        tokio::task::yield_now().await;
        assert_eq!(resolver.soft_sem().available_permits(), 1);

        drop(held_permit);
        assert_eq!(resolver.hard_sem().available_permits(), 1);
    });
}

#[test]
fn test_resolve_host_times_out_waiting_for_soft_slot() {
    run(async {
        let resolver = SystemResolver::new(config(1, 1, 1000, Some(20)));
        // Hold the only soft permit so the call blocks on soft-limit capacity.
        let held_soft = Arc::clone(resolver.soft_sem()).acquire_owned().await.unwrap();
        let result = resolve_host(&resolver, 5).await;
        assert!(matches!(result, Err(ResolveError::TimedOut)));
        assert_eq!(resolver.soft_sem().available_permits(), 0);
        drop(held_soft);
    });
}

#[test]
fn test_resolve_host_times_out_waiting_for_hard_permit() {
    run(async {
        let resolver = SystemResolver::new(config(1, 1, 1000, Some(20)));
        let held_permit = Arc::clone(resolver.hard_sem()).acquire_owned().await.unwrap();
        let result = resolve_host(&resolver, 5).await;
        assert!(matches!(result, Err(ResolveError::TimedOut)));
        // The soft permit is released on the timeout path.
        assert_eq!(resolver.soft_sem().available_permits(), 1);
        assert_eq!(resolver.hard_sem().available_permits(), 0);

        drop(held_permit);
        assert_eq!(resolver.hard_sem().available_permits(), 1);
    });
}

#[test]
fn test_resolve_addr_times_out_waiting_for_hard_permit() {
    run(async {
        let resolver = SystemResolver::new(config(1, 1, 1000, Some(20)));
        let held_permit = Arc::clone(resolver.hard_sem()).acquire_owned().await.unwrap();
        let lookup = resolver.resolve_addr(LOOPBACK, NiFlags::NUMERICHOST(), NOW).unwrap();
        let result = drive(&resolver, lookup.call, Span::from_millis(5), Ok(7)).await;
        assert!(matches!(result, Err(ResolveError::TimedOut)));
        assert_eq!(resolver.soft_sem().available_permits(), 1);
        assert_eq!(resolver.hard_sem().available_permits(), 0);

        drop(held_permit);
        assert_eq!(resolver.hard_sem().available_permits(), 1);
    });
}

#[test]
fn a_timeout_leaves_the_worker_running() {
    run(async {
        let resolver = SystemResolver::new(config(1, 2, 1000, Some(20)));
        let result = resolve_host(&resolver, 100).await;
        assert!(matches!(result, Err(ResolveError::TimedOut)));
        assert_eq!(resolver.soft_sem().available_permits(), 1);
        assert_eq!(resolver.hard_sem().available_permits(), 1);
        sleep(Span::from_millis(100)).await;
        assert_eq!(resolver.hard_sem().available_permits(), 2);
    });
}

#[test]
fn test_await_worker_result_times_out_before_stall() {
    run(async {
        let (_tx, mut rx) = channel::<Result<(), ResolveError>>();
        let (soft_permit, sem) = test_soft_permit();
        let result = await_worker_result(
            soft_permit,
            Span::from_secs(1),
            Some(Span::from_millis(20)),
            &mut rx,
        )
        .await;
        assert!(matches!(result, Err(ResolveError::TimedOut)));
        assert_eq!(sem.available_permits(), 1);
    });
}

#[test]
fn test_await_worker_result_completes_before_stall_with_deadline() {
    run(async {
        let (tx, mut rx) = channel::<Result<&'static str, ResolveError>>();
        let (soft_permit, sem) = test_soft_permit();
        let _ = tx.send(Ok("done"));
        let result = await_worker_result(
            soft_permit,
            Span::from_secs(1),
            Some(Span::from_millis(200)),
            &mut rx,
        )
        .await;
        assert_eq!(result.unwrap(), "done");
        assert_eq!(sem.available_permits(), 1);
    });
}

#[test]
fn test_await_worker_result_stalls_then_completes() {
    run(async {
        let (tx, mut rx) = channel::<Result<&'static str, ResolveError>>();
        let (soft_permit, sem) = test_soft_permit();
        tokio::spawn(async move {
            sleep(Span::from_millis(40)).await;
            let _ = tx.send(Ok("done"));
        });
        let result = await_worker_result(
            soft_permit,
            Span::from_millis(10),
            Some(Span::from_millis(200)),
            &mut rx,
        )
        .await;
        assert_eq!(result.unwrap(), "done");
        assert_eq!(sem.available_permits(), 1);
    });
}

#[test]
fn test_await_worker_result_stalls_without_deadline_then_completes() {
    run(async {
        let (tx, mut rx) = channel::<Result<&'static str, ResolveError>>();
        let (soft_permit, sem) = test_soft_permit();
        tokio::spawn(async move {
            sleep(Span::from_millis(40)).await;
            let _ = tx.send(Ok("done"));
        });
        let result =
            await_worker_result(soft_permit, Span::from_millis(10), None, &mut rx).await;
        assert_eq!(result.unwrap(), "done");
        assert_eq!(sem.available_permits(), 1);
    });
}

#[test]
fn test_await_worker_result_stalls_then_times_out() {
    run(async {
        let (_tx, mut rx) = channel::<Result<(), ResolveError>>();
        let (soft_permit, sem) = test_soft_permit();
        let result = await_worker_result(
            soft_permit,
            Span::from_millis(10),
            Some(Span::from_millis(40)),
            &mut rx,
        )
        .await;
        assert!(matches!(result, Err(ResolveError::TimedOut)));
        assert_eq!(sem.available_permits(), 1);
    });
}

/// A numeric reverse lookup runs inline, so it succeeds even when every soft and
/// hard permit is held and the timeout is tiny.
#[test]
fn test_numeric_addr_bypasses_limits() {
    run(async {
        let resolver = SystemResolver::new(config(1, 1, 1000, Some(1)));
        let _soft = Arc::clone(resolver.soft_sem()).acquire_owned().await.unwrap();
        let _hard = Arc::clone(resolver.hard_sem()).acquire_owned().await.unwrap();

        let flags = NiFlags::NUMERICHOST() | NiFlags::NUMERICSERV();
        let mut call = resolver.resolve_addr(LOOPBACK, flags, NOW).unwrap().call;
        assert_eq!(call.next_action(), Action::RunInline);
        assert_eq!(call.deadline, None);
        let answer = getnameinfo_response(0, b"127.0.0.1\0", b"80\0");
        let step = call.advance(Event::Returned(answer));
        let names = step.result.unwrap().unwrap();
        assert_eq!(names.hostname.as_deref(), Some("127.0.0.1"));

        // The permits were never touched.
        assert!(!step.release_soft);
        assert_eq!(resolver.soft_sem().available_permits(), 0);
        assert_eq!(resolver.hard_sem().available_permits(), 0);
    });
}

/// A numeric forward lookup likewise bypasses the limits.
#[test]
fn test_numeric_host_bypasses_limits() {
    run(async {
        let resolver = SystemResolver::new(config(1, 1, 1000, Some(1)));
        let _soft = Arc::clone(resolver.soft_sem()).acquire_owned().await.unwrap();
        let _hard = Arc::clone(resolver.hard_sem()).acquire_owned().await.unwrap();

        let hints = AddrInfoHints {
            flags: AiFlags::NUMERICHOST() | AiFlags::NUMERICSERV(),
            ..Default::default()
        };
        let lookup =
            resolver.resolve_host_service("127.0.0.1", "80", Some(hints), NOW).unwrap();
        let node = AddrInfoNode {
            ai_family: libc::AF_INET,
            ai_socktype: libc::SOCK_STREAM,
            ai_protocol: libc::IPPROTO_TCP,
            ai_addr: Some(Sockaddr::In(SockaddrIn {
                sin_family: libc::AF_INET,
                sin_port: [0, 80],
                sin_addr: [127, 0, 0, 1],
            })),
            ai_canonname: None,
        };
        let answer = getaddrinfo_response(0, &vec![node]);
        let result = drive(&resolver, lookup.call, Span::from_millis(5), answer).await;
        let results = result.unwrap();
        assert!(!results.is_empty());
        assert!(results.iter().all(|r| match r.addr {
            SocketAddr::V4(v4) => v4.port == 80,
            SocketAddr::V6(v6) => v6.port == 80,
        }));

        assert_eq!(resolver.soft_sem().available_permits(), 0);
        assert_eq!(resolver.hard_sem().available_permits(), 0);
    });
}

/// After shutdown, even inline calls are rejected.
#[test]
fn test_shutdown_rejects_inline_call() {
    let resolver = SystemResolver::new(ResolverConfig::default());
    resolver.shutdown();
    let flags = NiFlags::NUMERICHOST() | NiFlags::NUMERICSERV();
    let result = resolver.resolve_addr(LOOPBACK, flags, NOW);
    assert!(matches!(result, Err(ResolveError::Cancelled)));

    let hints = AddrInfoHints { flags: AiFlags::NUMERICSERV(), ..Default::default() };
    let result = resolver.resolve_passive("80", Some(hints), NOW);
    assert!(matches!(result, Err(ResolveError::Cancelled)));
}

/// Shutting down closes both semaphores, for good; until then none is closed, and
/// every lookup that cannot block begins.
#[test]
fn shutdown_closes_both_semaphores() {
    let resolver = SystemResolver::new(ResolverConfig::default());
    let hints = AddrInfoHints {
        flags: AiFlags::NUMERICHOST() | AiFlags::NUMERICSERV(),
        ..Default::default()
    };
    let flags = NiFlags::NUMERICHOST() | NiFlags::NUMERICSERV();
    assert!(!resolver.is_closed());
    assert!(!resolver.soft_sem().is_closed());
    assert!(!resolver.hard_sem().is_closed());
    assert!(resolver.resolve_host("127.0.0.1", Some(hints), NOW).is_ok());
    assert!(resolver.resolve_host_service("127.0.0.1", "80", Some(hints), NOW).is_ok());
    assert!(resolver.resolve_passive("80", Some(hints), NOW).is_ok());
    assert!(resolver.resolve_addr(LOOPBACK, flags, NOW).is_ok());
    assert!(!resolver.is_closed());

    for _ in 0..2 {
        resolver.shutdown();
        assert!(resolver.is_closed());
        assert!(resolver.soft_sem().is_closed());
        assert!(resolver.hard_sem().is_closed());
        let results = [
            resolver.resolve_host("127.0.0.1", Some(hints), NOW),
            resolver.resolve_host_service("127.0.0.1", "80", Some(hints), NOW),
            resolver.resolve_passive("80", Some(hints), NOW),
        ];
        for result in results {
            assert!(matches!(result, Err(ResolveError::Cancelled)));
        }
        let result = resolver.resolve_addr(LOOPBACK, flags, NOW);
        assert!(matches!(result, Err(ResolveError::Cancelled)));
    }

    // A lookup that may block begins, and is refused by the semaphores.
    assert!(resolver.resolve_host("localhost", None, NOW).is_ok());
}

#[test]
fn failures_of_the_system_call_are_passed_on() {
    run(async {
        let resolver = SystemResolver::new(ResolverConfig::default());
        let lookup = resolver.resolve_host("nowhere.invalid", None, NOW).unwrap();
        let answer = getaddrinfo_response(libc::EAI_NONAME, &vec![]).map(|infos| infos.len() as u32);
        let result = drive(&resolver, lookup.call, Span::from_millis(5), answer).await;
        assert!(matches!(result, Err(ResolveError::Gai(code)) if code == libc::EAI_NONAME));
    });
}
