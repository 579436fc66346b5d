use armature_distributed::lock::{
    AcquireStep, WatchdogAction, WatchdogEvent, MAX_RENEW_ERRORS,
};
use armature_distributed::{
    LockBuilder, LockError, LockGuard, LossWait, RedisLock, Scripts,
};
use redis::aio::{ConnectionManager, ConnectionManagerConfig};
use std::time::Duration;

/// A way to the server that nothing is ever sent on, with the runtime that it belongs to.
fn idle_connection() -> (tokio::runtime::Runtime, ConnectionManager) {
    let runtime = tokio::runtime::Builder::new_current_thread().build().unwrap();
    let conn = {
        let _entered = runtime.enter();
        redis::Client::open("redis://127.0.0.1/")
            .unwrap()
            .get_connection_manager_lazy(ConnectionManagerConfig::new())
            .unwrap()
    };
    (runtime, conn)
}

fn lock_with_ttl(key: &str, ttl: Duration) -> (tokio::runtime::Runtime, RedisLock) {
    let (runtime, conn) = idle_connection();
    (runtime, RedisLock::new(key, ttl, conn))
}

fn acquired(lock: &RedisLock, token: &str) -> LockGuard {
    match lock.try_acquire_reply(token.to_string(), Ok(Some("OK".to_string()))) {
        Ok(Some(guard)) => guard,
        _ => panic!("a confirmed attempt must give a guard"),
    }
}

fn failure() -> redis::RedisError {
    redis::RedisError::from((redis::ErrorKind::Client, "boom"))
}

fn packed(args: &[&str]) -> Vec<u8> {
    let args: Vec<Vec<u8>> = args.iter().map(|arg| arg.as_bytes().to_vec()).collect();
    redis::pack_command(&args)
}

fn renew_round(guard: &mut LockGuard, reply: Result<i32, redis::RedisError>) -> WatchdogAction {
    let action = guard.watchdog_step(WatchdogEvent::IntervalElapsed);
    assert!(matches!(action, WatchdogAction::Renew));
    guard.watchdog_step(WatchdogEvent::RenewalReply(reply))
}

#[test]
fn test_lock_builder() {
    let builder = LockBuilder::new("test-lock").with_ttl(Duration::from_secs(60));

    assert_eq!(builder.key, "test-lock");
    assert_eq!(builder.ttl, Duration::from_secs(60));
}

#[test]
fn lock_builder_starts_with_half_a_minute() {
    let builder = LockBuilder::new(String::from("owned"));

    assert_eq!(builder.key, "owned");
    assert_eq!(builder.ttl, Duration::from_secs(30));
}

#[test]
fn built_lock_keeps_key_and_ttl() {
    let (_runtime, conn) = idle_connection();
    let lock = LockBuilder::new("built").with_ttl(Duration::from_millis(250)).build(conn);

    assert_eq!(lock.key(), "built");
    assert_eq!(
        lock.acquire_request("t").get_packed_command(),
        packed(&["SET", "built", "t", "NX", "PX", "250"])
    );
}

#[test]
fn attempt_carries_a_fresh_random_token() {
    let (_runtime, lock) = lock_with_ttl("my-resource", Duration::from_secs(30));

    let first = lock.try_acquire();
    let second = lock.try_acquire();

    assert_ne!(first.token, second.token);
    let parsed = uuid::Uuid::parse_str(&first.token).unwrap();
    assert_eq!(parsed.get_version_num(), 4);
    assert_eq!(parsed.to_string(), first.token);
    let bytes = first.token.as_bytes();
    assert_eq!(bytes.len(), 36);
    assert_eq!(bytes[14], b'4');
    assert!(matches!(bytes[19], b'8' | b'9' | b'a' | b'b'));
    for i in 0..36 {
        if matches!(i, 8 | 13 | 18 | 23) {
            assert_eq!(bytes[i], b'-');
        } else {
            assert!(matches!(bytes[i], b'0'..=b'9' | b'a'..=b'f'));
        }
    }
    assert_eq!(
        first.request.get_packed_command(),
        packed(&["SET", "my-resource", &first.token, "NX", "PX", "30000"])
    );
}

#[test]
fn acquire_request_counts_whole_milliseconds() {
    for (ttl, millis) in [
        (Duration::from_micros(999), "0"),
        (Duration::from_micros(1999), "1"),
        (Duration::from_millis(u64::MAX), "18446744073709551615"),
        (Duration::new(18446744073709551, 616_000_000), "18446744073709551615"),
        (Duration::MAX, "18446744073709551615"),
    ] {
        let (_runtime, lock) = lock_with_ttl("k", ttl);
        assert_eq!(
            lock.acquire_request("tok").get_packed_command(),
            packed(&["SET", "k", "tok", "NX", "PX", millis])
        );
    }
}

#[test]
fn requests_carry_text_beyond_ascii() {
    let (_runtime, lock) = lock_with_ttl("schl\u{fc}ssel", Duration::from_millis(7));

    assert_eq!(
        lock.acquire_request("\u{1f512}").get_packed_command(),
        packed(&["SET", "schl\u{fc}ssel", "\u{1f512}", "NX", "PX", "7"])
    );
}

#[test]
fn attempt_replies() {
    let (_runtime, lock) = lock_with_ttl("k", Duration::from_secs(1));

    assert!(acquired(&lock, "t").is_held());
    assert!(matches!(lock.try_acquire_reply("t".to_string(), Ok(None)), Ok(None)));
    assert!(matches!(
        lock.try_acquire_reply("t".to_string(), Err(failure())),
        Err(LockError::RedisError(_))
    ));
}

#[test]
fn acquire_goes_on_until_an_attempt_settles() {
    let (_runtime, lock) = lock_with_ttl("k", Duration::from_secs(1));

    match RedisLock::acquire(Ok(None)) {
        AcquireStep::RetryAfter(pause) => assert_eq!(pause, Duration::from_millis(100)),
        AcquireStep::Done(_) => panic!("a taken lock is tried again"),
    }
    assert!(matches!(
        RedisLock::acquire(Ok(Some(acquired(&lock, "t")))),
        AcquireStep::Done(Ok(_))
    ));
    assert!(matches!(
        RedisLock::acquire(Err(LockError::NotHeld)),
        AcquireStep::Done(Err(LockError::NotHeld))
    ));
}

#[test]
fn acquire_timeout_ends_once_the_timeout_has_passed() {
    let (_runtime, lock) = lock_with_ttl("k", Duration::from_secs(1));
    let timeout = Duration::from_millis(250);

    match RedisLock::acquire_timeout(Ok(None), Duration::from_millis(249), timeout) {
        AcquireStep::RetryAfter(pause) => assert_eq!(pause, Duration::from_millis(100)),
        AcquireStep::Done(_) => panic!("the timeout has not passed"),
    }
    assert!(matches!(
        RedisLock::acquire_timeout(Ok(None), timeout, timeout),
        AcquireStep::Done(Err(LockError::Timeout))
    ));
    assert!(matches!(
        RedisLock::acquire_timeout(Ok(None), Duration::from_nanos(0), Duration::from_nanos(0)),
        AcquireStep::Done(Err(LockError::Timeout))
    ));
    assert!(matches!(
        RedisLock::acquire_timeout(Ok(Some(acquired(&lock, "t"))), timeout * 2, timeout),
        AcquireStep::Done(Ok(_))
    ));
    assert!(matches!(
        RedisLock::acquire_timeout(Err(LockError::from(failure())), timeout * 2, timeout),
        AcquireStep::Done(Err(LockError::RedisError(_)))
    ));
}

#[test]
fn watchdog_pauses_for_a_third_of_the_ttl() {
    let (_runtime, lock) = lock_with_ttl("k", Duration::from_millis(300));
    let mut guard = acquired(&lock, "t");

    match guard.watchdog_action() {
        WatchdogAction::Wait(pause) => assert_eq!(pause, Duration::from_millis(100)),
        _ => panic!("the watchdog begins with a pause"),
    }
    match renew_round(&mut guard, Ok(1)) {
        WatchdogAction::Wait(pause) => assert_eq!(pause, Duration::from_millis(100)),
        _ => panic!("a renewed lease is followed by a pause"),
    }
    assert!(guard.is_held());
    assert!(!guard.take_wake());
}

#[test]
fn foreign_token_loses_the_lease_at_once() {
    let (_runtime, lock) = lock_with_ttl("k", Duration::from_millis(300));
    for answer in [0, 2, -1] {
        let mut guard = acquired(&lock, "t");
        assert_eq!(guard.lost(), LossWait::Pending);

        assert!(matches!(renew_round(&mut guard, Ok(answer)), WatchdogAction::Exit));

        assert!(!guard.is_held());
        assert_eq!(guard.lost(), LossWait::Resolved);
        assert!(guard.take_wake());
        assert!(!guard.take_wake());
    }
}

#[test]
fn only_too_many_errors_in_a_row_lose_the_lease() {
    let (_runtime, lock) = lock_with_ttl("k", Duration::from_millis(300));
    let mut guard = acquired(&lock, "t");
    assert_eq!(MAX_RENEW_ERRORS, 3);

    for _ in 0..2 {
        assert!(matches!(renew_round(&mut guard, Err(failure())), WatchdogAction::Wait(_)));
        assert!(matches!(renew_round(&mut guard, Err(failure())), WatchdogAction::Wait(_)));
        assert!(guard.is_held());
        assert!(matches!(renew_round(&mut guard, Ok(1)), WatchdogAction::Wait(_)));
    }
    assert!(matches!(renew_round(&mut guard, Err(failure())), WatchdogAction::Wait(_)));
    assert!(matches!(renew_round(&mut guard, Err(failure())), WatchdogAction::Wait(_)));
    assert!(guard.is_held());
    assert_eq!(guard.renewal_errors(), 2);
    assert!(matches!(renew_round(&mut guard, Err(failure())), WatchdogAction::Exit));
    assert_eq!(guard.renewal_errors(), 3);
    assert!(!guard.is_held());
    assert!(guard.take_wake());
}

#[test]
fn lost_guard_stays_lost() {
    let (_runtime, lock) = lock_with_ttl("k", Duration::from_millis(300));
    let mut guard = acquired(&lock, "t");
    renew_round(&mut guard, Ok(0));

    for event in [
        WatchdogEvent::IntervalElapsed,
        WatchdogEvent::RenewalReply(Ok(1)),
        WatchdogEvent::StopSignalled,
    ] {
        assert!(matches!(guard.watchdog_step(event), WatchdogAction::Exit));
        assert!(!guard.is_held());
    }
}

#[test]
fn ended_watchdog_stays_ended() {
    let (_runtime, lock) = lock_with_ttl("k", Duration::from_millis(300));
    let mut guard = acquired(&lock, "t");
    guard.watchdog_step(WatchdogEvent::StopSignalled);

    for event in [
        WatchdogEvent::IntervalElapsed,
        WatchdogEvent::RenewalReply(Ok(0)),
        WatchdogEvent::RenewalReply(Err(failure())),
        WatchdogEvent::StopSignalled,
    ] {
        assert!(matches!(guard.watchdog_step(event), WatchdogAction::Exit));
        assert!(guard.is_held());
        assert!(!guard.take_wake());
    }
}

#[test]
fn watchdog_stops_in_its_pause_only() {
    let (_runtime, lock) = lock_with_ttl("k", Duration::from_millis(300));
    let mut guard = acquired(&lock, "t");

    assert!(matches!(
        guard.watchdog_step(WatchdogEvent::IntervalElapsed),
        WatchdogAction::Renew
    ));
    assert!(matches!(
        guard.watchdog_step(WatchdogEvent::StopSignalled),
        WatchdogAction::Renew
    ));
    assert!(matches!(
        guard.watchdog_step(WatchdogEvent::RenewalReply(Ok(1))),
        WatchdogAction::Wait(_)
    ));
    assert!(matches!(
        guard.watchdog_step(WatchdogEvent::StopSignalled),
        WatchdogAction::Exit
    ));
    assert!(guard.is_held());
}

#[test]
fn watchdog_is_told_to_stop_once() {
    let (_runtime, lock) = lock_with_ttl("k", Duration::from_millis(300));
    let scripts = Scripts::new();
    let mut guard = acquired(&lock, "t");

    assert!(guard.release(&scripts).stop_watchdog);
    assert!(!guard.release(&scripts).stop_watchdog);
    assert!(!guard.stop_watchdog());
    assert!(!guard.farewell(true, &scripts).stop_watchdog);
    assert!(acquired(&lock, "u").stop_watchdog());
}

#[test]
fn farewell_releases_on_a_runtime_only() {
    let (_runtime, lock) = lock_with_ttl("k", Duration::from_millis(300));
    let scripts = Scripts::new();

    let mut guard = acquired(&lock, "t");
    let farewell = guard.farewell(true, &scripts);
    assert!(farewell.stop_watchdog);
    assert!(farewell.release.is_some());

    let mut guard = acquired(&lock, "t");
    let farewell = guard.farewell(false, &scripts);
    assert!(farewell.stop_watchdog);
    assert!(farewell.release.is_none());
}

#[test]
fn release_replies() {
    assert!(matches!(LockGuard::release_reply(Ok(1)), Ok(())));
    assert!(matches!(LockGuard::release_reply(Ok(0)), Err(LockError::NotHeld)));
    assert!(matches!(LockGuard::release_reply(Ok(7)), Err(LockError::NotHeld)));
    assert!(matches!(
        LockGuard::release_reply(Err(failure())),
        Err(LockError::RedisError(_))
    ));
}

#[test]
fn lock_errors_in_words() {
    assert_eq!(
        LockError::AcquireFailed("why".to_string()).message(),
        "Failed to acquire lock: why"
    );
    assert_eq!(
        LockError::ReleaseFailed("why".to_string()).message(),
        "Failed to release lock: why"
    );
    assert_eq!(LockError::Timeout.message(), "Lock timeout");
    assert_eq!(LockError::NotHeld.message(), "Lock not held");
    assert_eq!(
        LockError::from(failure()).message(),
        format!("Redis error: {}", failure())
    );
}
