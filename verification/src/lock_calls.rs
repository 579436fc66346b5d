//! What each call on a lock or its guard comes to, for every lock, every guard and every
//! reply: what the caller gets, what changes, and what stays.
//!
//! Each law is about calls: it takes what went in and what came out of them, and relates the
//! two by what a caller can tell.
use crate::duration::{duration_millis, duration_nanos};
use crate::fence::LossWait;
use crate::lock::{
    AcquireStep, Attempt, Farewell, LockBuilder, LockError, LockGuard, LockGuardView, RedisLock,
    RedisLockView, Release, WatchdogAction, WatchdogEvent, WatchdogPhase,
};
use crate::lock_laws::asked_millis;
use crate::requests::{
    cmd_args, invocation_args, invocation_keys, invocation_text, Scripts, RELEASE_SCRIPT,
    RENEW_SCRIPT,
};
use crate::server::{
    accepts_ttl, at_intervals, law_regular_refreshes_outlive_the_ttl, lease, lemma_run, replay,
    run_command, run_invocation, stored, Answer, Request, Store,
};
use crate::text::{decimal, decimal_value, is_random_uuid, lemma_decimal_value, utf8};
use std::time::Duration;
use vstd::prelude::*;
use vstd::string::to_string_from_display_ensures;

verus! {

/// A lock is made of what it is given: the text that its key converts into, its time to live
/// and its way to the server; and it shows them as they are.
pub proof fn law_lock_is_what_it_is_given<K: Into<String>>(
    key: K,
    ttl: Duration,
    conn: redis::aio::ConnectionManager,
    lock: RedisLock,
    shown_key: &str,
    shown_conn: &redis::aio::ConnectionManager,
)
    requires
        call_ensures(RedisLock::new::<K>, (key, ttl, conn), lock),
        call_ensures(RedisLock::key, (&lock,), shown_key),
        call_ensures(RedisLock::conn, (&lock,), shown_conn),
    ensures
        exists|text: String|
            call_ensures(K::into, (key,), text) && #[trigger] text@ == shown_key@,
        shown_key@ == lock@.key,
        lock@.ttl == ttl,
        lock@.conn == conn,
        *shown_conn == conn,
{
}

/// A lock whose key is given as text has that text as its key.
pub proof fn law_lock_has_its_key(
    key: &str,
    owned: String,
    ttl: Duration,
    conn: redis::aio::ConnectionManager,
    lock: RedisLock,
    other: RedisLock,
)
    requires
        call_ensures(RedisLock::new::<&str>, (key, ttl, conn), lock),
        call_ensures(RedisLock::new::<String>, (owned, ttl, conn), other),
    ensures
        lock@.key == key@,
        other@.key == owned@,
{
}

/// A builder begins with the key and half a minute, takes the time to live that it is told, and
/// builds the lock of both.
pub proof fn law_builder_builds_what_it_is_told<K: Into<String>>(
    key: K,
    fresh: LockBuilder,
    ttl: Duration,
    timed: LockBuilder,
    conn: redis::aio::ConnectionManager,
    lock: RedisLock,
)
    requires
        call_ensures(LockBuilder::new::<K>, (key,), fresh),
        call_ensures(LockBuilder::with_ttl, (fresh, ttl), timed),
        call_ensures(LockBuilder::build, (timed, conn), lock),
    ensures
        exists|text: String|
            call_ensures(K::into, (key,), text) && #[trigger] text@ == fresh.key@,
        duration_nanos(fresh.ttl) == 30_000_000_000,
        timed.key@ == fresh.key@,
        timed.ttl == ttl,
        lock@.key == fresh.key@,
        lock@.ttl == ttl,
        lock@.conn == conn,
{
}

/// The request that acquires a lock asks for the lock's own key, for the given token, only if
/// the key is free, and for the lock's own time to live in milliseconds, wherever a request can
/// carry that.
pub proof fn law_acquire_asks_for_the_locks_ttl(lock: RedisLock, token: &str, request: redis::Cmd)
    requires
        call_ensures(RedisLock::acquire_request, (&lock, token), request),
    ensures
        cmd_args(request).len() == 6,
        cmd_args(request)[0] == utf8("SET"@),
        cmd_args(request)[1] == utf8(lock@.key),
        cmd_args(request)[2] == utf8(token@),
        cmd_args(request)[3] == utf8("NX"@),
        cmd_args(request)[4] == utf8("PX"@),
        duration_millis(lock@.ttl) <= usize::MAX ==> cmd_args(request)[5] == decimal(
            duration_millis(lock@.ttl),
        ) && decimal_value(cmd_args(request)[5]) == duration_millis(lock@.ttl),
        duration_millis(lock@.ttl) > usize::MAX ==> cmd_args(request)[5] == decimal(
            usize::MAX as nat,
        ),
{
    lemma_decimal_value(duration_millis(lock@.ttl));
}

/// An attempt draws a token, and its request is the one that acquires the lock for that token.
pub proof fn law_attempt_is_for_its_token(
    lock: RedisLock,
    attempt: Attempt,
    token: &str,
    request: redis::Cmd,
)
    requires
        call_ensures(RedisLock::try_acquire, (&lock,), attempt),
        token@ == attempt.token@,
        call_ensures(RedisLock::acquire_request, (&lock, token), request),
    ensures
        cmd_args(attempt.request) == cmd_args(request),
        is_random_uuid(attempt.token@),
{
}

/// A lock that is granted is stored for its time to live, to the millisecond, under its token:
/// no shorter and no longer, unless it is renewed or released.
pub proof fn law_granted_lock_lasts_its_ttl(
    lock: RedisLock,
    token: &str,
    request: redis::Cmd,
    store: Store,
    now: int,
    later: int,
)
    requires
        call_ensures(RedisLock::acquire_request, (&lock, token), request),
        duration_millis(lock@.ttl) <= usize::MAX,
        accepts_ttl(now, duration_millis(lock@.ttl)),
        stored(store, utf8(lock@.key), now) is None,
    ensures
        run_command(store, now, cmd_args(request)).1 is Okay,
        stored(run_command(store, now, cmd_args(request)).0, utf8(lock@.key), later) == (if later
            <= now + duration_millis(lock@.ttl) {
            Some(utf8(token@))
        } else {
            None
        }),
{
    lemma_decimal_value(duration_millis(lock@.ttl));
}

/// Only a confirmed attempt gives a guard, and it gives the guard of this lock under the token
/// of the attempt: held, with a watchdog that begins with a pause and has counted no failure.
pub proof fn law_only_a_confirmed_attempt_gives_a_guard(
    lock: RedisLock,
    token: String,
    reply: Result<Option<String>, redis::RedisError>,
    outcome: Result<Option<LockGuard>, LockError>,
)
    requires
        call_ensures(RedisLock::try_acquire_reply, (&lock, token, reply), outcome),
    ensures
        outcome matches Ok(Some(_)) <==> reply matches Ok(Some(_)),
        outcome matches Ok(None) <==> reply matches Ok(None),
        outcome is Err <==> reply is Err,
        outcome matches Ok(Some(guard)) ==> {
            &&& guard@.key == lock@.key
            &&& guard@.token == token@
            &&& guard@.ttl == lock@.ttl
            &&& guard@.held
            &&& !guard@.wake_due
            &&& guard@.errors == 0
            &&& guard@.phase is Sleeping
            &&& guard@.attached
        },
        reply matches Err(error) ==> outcome == Err::<Option<LockGuard>, LockError>(
            LockError::RedisError(error),
        ),
{
}

/// Acquiring goes on, after a tenth of a second, exactly as long as the lock is taken; a guard
/// or an error ends it, and is handed on as it is.
pub proof fn law_acquire_waits_for_the_lock(
    outcome: Result<Option<LockGuard>, LockError>,
    step: AcquireStep,
)
    requires
        call_ensures(RedisLock::acquire, (outcome,), step),
    ensures
        step is RetryAfter <==> outcome matches Ok(None),
        step matches AcquireStep::RetryAfter(pause) ==> duration_nanos(pause) == 100_000_000,
        outcome matches Ok(Some(guard)) ==> step == AcquireStep::Done(Ok(guard)),
        outcome matches Err(error) ==> step == AcquireStep::Done(Err(error)),
{
}

/// With a timeout, acquiring goes on exactly as long as the lock is taken and the timeout has
/// not passed; it fails with a timeout exactly where the lock is taken and the timeout has
/// passed; and where the lock is not taken, it does as without one.
pub proof fn law_acquire_gives_up_at_the_timeout(
    outcome: Result<Option<LockGuard>, LockError>,
    elapsed: Duration,
    timeout: Duration,
    step: AcquireStep,
)
    requires
        call_ensures(RedisLock::acquire_timeout, (outcome, elapsed, timeout), step),
    ensures
        step is RetryAfter <==> (outcome matches Ok(None)) && duration_nanos(elapsed)
            < duration_nanos(timeout),
        step matches AcquireStep::RetryAfter(pause) ==> duration_nanos(pause) == 100_000_000,
        (outcome matches Ok(None)) && duration_nanos(elapsed) >= duration_nanos(timeout) ==> step
            == AcquireStep::Done(Err(LockError::Timeout)),
        outcome matches Ok(Some(guard)) ==> step == AcquireStep::Done(Ok(guard)),
        outcome matches Err(error) ==> step == AcquireStep::Done(Err(error)),
{
}

/// The pause that a watchdog is told to take is the third of the time to live, in whole
/// milliseconds, and a millisecond where that would be nothing; so three pauses fit into any
/// time to live of three milliseconds or more.
pub proof fn law_pause_is_a_third_of_the_ttl(guard: LockGuardView, action: WatchdogAction)
    requires
        guard.phase is Sleeping,
        guard.next_action(action),
    ensures
        action matches WatchdogAction::Wait(pause) && {
            &&& duration_nanos(pause) % 1_000_000 == 0
            &&& duration_nanos(guard.ttl) >= 3_000_000 ==> 3 * duration_nanos(pause)
                <= duration_nanos(guard.ttl) < 3 * duration_nanos(pause) + 3_000_000
            &&& duration_nanos(guard.ttl) < 3_000_000 ==> duration_nanos(pause) == 1_000_000
        },
{
}

/// A watchdog in its pause is told to wait for a third of the time to live, one whose renewal is
/// due to send it, and one that has ended to end; and what a step says to do next is what the
/// guard says after it.
pub proof fn law_watchdog_is_told_what_to_do(
    guard: LockGuard,
    action: WatchdogAction,
    stepped: &mut LockGuard,
    event: WatchdogEvent,
    next: WatchdogAction,
)
    requires
        call_ensures(LockGuard::watchdog_action, (&guard,), action),
        call_ensures(LockGuard::watchdog_step, (stepped, event), next),
    ensures
        guard@.phase is Sleeping <==> action is Wait,
        guard@.phase is Renewing <==> action is Renew,
        guard@.phase is Exited <==> action is Exit,
        action matches WatchdogAction::Wait(pause) ==> {
            &&& duration_nanos(pause) % 1_000_000 == 0
            &&& duration_nanos(guard@.ttl) >= 3_000_000 ==> 3 * duration_nanos(pause)
                <= duration_nanos(guard@.ttl) < 3 * duration_nanos(pause) + 3_000_000
            &&& duration_nanos(guard@.ttl) < 3_000_000 ==> duration_nanos(pause) == 1_000_000
        },
        final(stepped)@.phase is Sleeping <==> next is Wait,
        final(stepped)@.phase is Renewing <==> next is Renew,
        final(stepped)@.phase is Exited <==> next is Exit,
        next matches WatchdogAction::Wait(pause) ==> {
            &&& duration_nanos(pause) % 1_000_000 == 0
            &&& duration_nanos(old(stepped)@.ttl) >= 3_000_000 ==> 3 * duration_nanos(pause)
                <= duration_nanos(old(stepped)@.ttl) < 3 * duration_nanos(pause) + 3_000_000
            &&& duration_nanos(old(stepped)@.ttl) < 3_000_000 ==> duration_nanos(pause)
                == 1_000_000
        },
{
}

/// A guard is lost to an answer exactly if the answer refutes the lease, or is the third error
/// in a row. What a watchdog does not wait for changes nothing, and no step changes whose lease
/// it is.
pub proof fn law_watchdog_steps(
    guard: &mut LockGuard,
    event: WatchdogEvent,
    action: WatchdogAction,
)
    requires
        call_ensures(LockGuard::watchdog_step, (guard, event), action),
    ensures
        final(guard)@.key == old(guard)@.key,
        final(guard)@.token == old(guard)@.token,
        final(guard)@.ttl == old(guard)@.ttl,
        final(guard)@.attached == old(guard)@.attached,
        // The pause ends by a stop or by itself.
        old(guard)@.phase is Sleeping && event is StopSignalled ==> {
            &&& action is Exit
            &&& final(guard)@ == (LockGuardView { phase: WatchdogPhase::Exited, ..old(guard)@ })
        },
        old(guard)@.phase is Sleeping && event is IntervalElapsed ==> {
            &&& action is Renew
            &&& final(guard)@ == (LockGuardView { phase: WatchdogPhase::Renewing, ..old(guard)@ })
        },
        // A renewal is confirmed, refuted or fails.
        old(guard)@.phase is Renewing && (event matches WatchdogEvent::RenewalReply(Ok(n)) && n
            == 1) ==> {
            &&& action is Wait
            &&& final(guard)@.held == old(guard)@.held
            &&& final(guard)@.wake_due == old(guard)@.wake_due
            &&& final(guard)@.errors == 0
        },
        old(guard)@.phase is Renewing && (event matches WatchdogEvent::RenewalReply(Ok(n)) && n
            != 1) ==> {
            &&& action is Exit
            &&& !final(guard)@.held
            &&& final(guard)@.wake_due
            &&& final(guard)@.errors == old(guard)@.errors
        },
        old(guard)@.phase is Renewing && (event matches WatchdogEvent::RenewalReply(Err(_)))
            && old(guard)@.errors < 2 ==> {
            &&& action is Wait
            &&& final(guard)@.held == old(guard)@.held
            &&& final(guard)@.wake_due == old(guard)@.wake_due
            &&& final(guard)@.errors == old(guard)@.errors + 1
        },
        old(guard)@.phase is Renewing && (event matches WatchdogEvent::RenewalReply(Err(_)))
            && old(guard)@.errors >= 2 ==> {
            &&& action is Exit
            &&& !final(guard)@.held
            &&& final(guard)@.wake_due
            &&& final(guard)@.errors == old(guard)@.errors + 1
        },
        // Everything else comes at the wrong moment.
        old(guard)@.phase is Sleeping && event is RenewalReply ==> final(guard)@ == old(guard)@,
        old(guard)@.phase is Renewing && event !is RenewalReply ==> final(guard)@ == old(guard)@,
        old(guard)@.phase is Exited ==> final(guard)@ == old(guard)@,
{
}

/// A watchdog that is told to stop in its pause ends, whatever was done to the guard before;
/// and one that is told while a renewal is under way ends in the pause after it.
pub proof fn law_stop_signal_ends_the_watchdog(
    guard: LockGuardView,
    reply: Result<i32, redis::RedisError>,
)
    ensures
        guard.phase is Sleeping ==> guard.step(WatchdogEvent::StopSignalled).phase is Exited,
        guard.phase is Sleeping ==> guard.detached().step(
            WatchdogEvent::StopSignalled,
        ).phase is Exited,
        guard.phase is Renewing ==> guard.step(WatchdogEvent::RenewalReply(reply)).step(
            WatchdogEvent::StopSignalled,
        ).phase is Exited,
        guard.step(WatchdogEvent::StopSignalled).held == guard.held,
        guard.detached().phase == guard.phase,
{
}

/// A guard that is released, or goes away, or whose watchdog is stopped by hand, sends no further
/// renewal: its watchdog, told to stop in its pause, ends.
pub proof fn law_released_guard_renews_no_more<'a>(
    released: &mut LockGuard,
    left: &mut LockGuard,
    stopped: &mut LockGuard,
    on_runtime: bool,
    scripts: &'a Scripts,
    release: Release<'a>,
    farewell: Farewell<'a>,
    signal: bool,
    after: &mut LockGuard,
    action: WatchdogAction,
)
    requires
        call_ensures(LockGuard::release, (released, scripts), release),
        call_ensures(LockGuard::farewell, (left, on_runtime, scripts), farewell),
        call_ensures(LockGuard::stop_watchdog, (stopped,), signal),
        old(released)@.phase is Sleeping,
        old(left)@.phase is Sleeping,
        old(stopped)@.phase is Sleeping,
        old(after)@ == final(released)@ || old(after)@ == final(left)@
            || old(after)@ == final(stopped)@,
        call_ensures(LockGuard::watchdog_step, (after, WatchdogEvent::StopSignalled), action),
    ensures
        action is Exit,
        final(after)@.phase is Exited,
{
}

/// The watchdog is told to stop once: by whichever of a release, a farewell and a stop by hand
/// comes first. None of them changes anything else.
pub proof fn law_watchdog_is_stopped_once<'a>(
    released: &mut LockGuard,
    left: &mut LockGuard,
    stopped: &mut LockGuard,
    on_runtime: bool,
    scripts: &'a Scripts,
    release: Release<'a>,
    farewell: Farewell<'a>,
    signal: bool,
)
    requires
        call_ensures(LockGuard::release, (released, scripts), release),
        call_ensures(LockGuard::farewell, (left, on_runtime, scripts), farewell),
        call_ensures(LockGuard::stop_watchdog, (stopped,), signal),
    ensures
        release.stop_watchdog == old(released)@.attached,
        final(released)@ == (LockGuardView { attached: false, ..old(released)@ }),
        farewell.stop_watchdog == old(left)@.attached,
        final(left)@ == (LockGuardView { attached: false, ..old(left)@ }),
        signal == old(stopped)@.attached,
        final(stopped)@ == (LockGuardView { attached: false, ..old(stopped)@ }),
{
}

/// A guard that is released asks for the guarded deletion of its own key under its own token;
/// and one that goes away asks for the same exactly if there is a runtime to ask from.
pub proof fn law_release_asks_for_the_guards_own<'a>(
    released: &mut LockGuard,
    left: &mut LockGuard,
    on_runtime: bool,
    scripts: &'a Scripts,
    release: Release<'a>,
    farewell: Farewell<'a>,
)
    requires
        call_ensures(LockGuard::release, (released, scripts), release),
        call_ensures(LockGuard::farewell, (left, on_runtime, scripts), farewell),
    ensures
        invocation_text(release.call) == RELEASE_SCRIPT@,
        invocation_keys(release.call) == seq![utf8(old(released)@.key)],
        invocation_args(release.call) == seq![utf8(old(released)@.token)],
        farewell.release is Some <==> on_runtime,
        farewell.release matches Some(call) ==> {
            &&& invocation_text(call) == RELEASE_SCRIPT@
            &&& invocation_keys(call) == seq![utf8(old(left)@.key)]
            &&& invocation_args(call) == seq![utf8(old(left)@.token)]
        },
{
}

/// A release succeeds exactly if the server says that it deleted the key; any other number says
/// that the lock was not held; and an error is handed on.
pub proof fn law_release_succeeds_by_a_deletion(
    reply: Result<i32, redis::RedisError>,
    result: Result<(), LockError>,
)
    requires
        call_ensures(LockGuard::release_reply, (reply,), result),
    ensures
        result is Ok <==> (reply matches Ok(n) && n == 1),
        result == Err::<(), LockError>(LockError::NotHeld) <==> (reply matches Ok(n) && n != 1),
        reply matches Err(error) ==> result == Err::<(), LockError>(LockError::RedisError(error)),
{
}

/// A renewal asks for the guarded restart of the guard's own key under its own token, with the
/// lock's own time to live in milliseconds, wherever a request can carry that; and with a
/// millisecond where it is less.
pub proof fn law_renewal_asks_for_the_locks_ttl<'a>(
    guard: LockGuard,
    scripts: &'a Scripts,
    call: redis::ScriptInvocation<'a>,
)
    requires
        call_ensures(LockGuard::renewal, (&guard, scripts), call),
    ensures
        invocation_text(call) == RENEW_SCRIPT@,
        invocation_keys(call) == seq![utf8(guard@.key)],
        invocation_args(call).len() == 2,
        invocation_args(call)[0] == utf8(guard@.token),
        1 <= duration_millis(guard@.ttl) <= usize::MAX ==> invocation_args(call)[1] == decimal(
            duration_millis(guard@.ttl),
        ) && decimal_value(invocation_args(call)[1]) == duration_millis(guard@.ttl),
        duration_millis(guard@.ttl) == 0 ==> invocation_args(call)[1] == decimal(1),
        duration_millis(guard@.ttl) > usize::MAX ==> invocation_args(call)[1] == decimal(
            usize::MAX as nat,
        ),
{
    lemma_decimal_value(duration_millis(guard@.ttl));
}

/// A renewal that finds the guard's token stored keeps the key for a whole time to live from
/// then on, and is answered that it did.
pub proof fn law_renewal_restarts_the_ttl<'a>(
    guard: LockGuard,
    scripts: &'a Scripts,
    call: redis::ScriptInvocation<'a>,
    store: Store,
    now: int,
    later: int,
)
    requires
        call_ensures(LockGuard::renewal, (&guard, scripts), call),
        duration_millis(guard@.ttl) <= usize::MAX,
        accepts_ttl(now, duration_millis(guard@.ttl)),
        stored(store, utf8(guard@.key), now) == Some(utf8(guard@.token)),
    ensures
        run_invocation(store, now, call).1 == Answer::Number(1),
        stored(run_invocation(store, now, call).0, utf8(guard@.key), later) == (if later <= now
            + duration_millis(guard@.ttl) {
            Some(utf8(guard@.token))
        } else {
            None
        }),
{
    reveal(Request::run);
    let renewing = Request::Renew {
        key: guard@.key,
        token: guard@.token,
        millis: duration_millis(guard@.ttl),
    };
    lemma_run(renewing, store, now);
}

/// Renewals sent after the pauses that the watchdog is told to take keep the lock past its time
/// to live: after any number of them the server still stores the guard's token, for the time to
/// live of the lock from the last one on.
pub proof fn law_pauses_told_keep_the_lock(
    guard: LockGuard,
    action: WatchdogAction,
    pause: Duration,
    store: Store,
    acquired: int,
    count: nat,
    later: int,
)
    requires
        guard@.phase is Sleeping,
        call_ensures(LockGuard::watchdog_action, (&guard,), action),
        action == WatchdogAction::Wait(pause),
        1 <= duration_millis(guard@.ttl) <= usize::MAX,
        store.contains_key(utf8(guard@.key)),
        store[utf8(guard@.key)] == lease(
            utf8(guard@.token),
            acquired,
            duration_millis(guard@.ttl),
        ),
        acquired + count * duration_millis(pause) + duration_millis(guard@.ttl) <= i64::MAX,
        later <= acquired + count * duration_millis(pause) + duration_millis(guard@.ttl),
    ensures
        stored(
            replay(
                store,
                at_intervals(
                    Request::Renew {
                        key: guard@.key,
                        token: guard@.token,
                        millis: duration_millis(guard@.ttl),
                    },
                    acquired,
                    duration_millis(pause),
                    count,
                ),
            ),
            utf8(guard@.key),
            later,
        ) == Some(utf8(guard@.token)),
{
    law_regular_refreshes_outlive_the_ttl(
        store,
        Request::Renew {
            key: guard@.key,
            token: guard@.token,
            millis: duration_millis(guard@.ttl),
        },
        guard@.key,
        guard@.token,
        acquired,
        duration_millis(pause),
        count,
    );
}

/// A guard shows whether its lease counts as held, to those who ask and to those who wait, and
/// how many renewals in a row have failed; and a wake-up is handed out once.
pub proof fn law_guard_shows_the_belief(
    guard: LockGuard,
    held: bool,
    wait: LossWait,
    errors: u32,
    woken: &mut LockGuard,
    due: bool,
)
    requires
        call_ensures(LockGuard::is_held, (&guard,), held),
        call_ensures(LockGuard::lost, (&guard,), wait),
        call_ensures(LockGuard::renewal_errors, (&guard,), errors),
        call_ensures(LockGuard::take_wake, (woken,), due),
    ensures
        held == guard@.held,
        wait == LossWait::Pending <==> held,
        wait == LossWait::Resolved <==> !held,
        errors == guard@.errors,
        due == old(woken)@.wake_due,
        final(woken)@ == (LockGuardView { wake_due: false, ..old(woken)@ }),
{
}

/// The times to live that a lock asks for, and that its guard renews, are the lock's own,
/// wherever a request can carry them; a guard asks for a millisecond at least.
pub proof fn law_lock_asks_for_its_ttl(lock: RedisLockView, guard: LockGuardView)
    ensures
        duration_millis(lock.ttl) <= usize::MAX ==> asked_millis(lock) == duration_millis(lock.ttl),
        1 <= duration_millis(guard.ttl) <= usize::MAX ==> guard.renewal_millis()
            == duration_millis(guard.ttl),
        guard.renewal_millis() >= 1,
{
}

/// An error of the server becomes the lock's error about it, and keeps it.
pub proof fn law_lock_error_keeps_its_cause(cause: redis::RedisError, error: LockError)
    requires
        call_ensures(<LockError as From<redis::RedisError>>::from, (cause,), error),
    ensures
        error == LockError::RedisError(cause),
{
}

/// An error says which one it is, and why where there is a reason.
pub proof fn law_lock_errors_say_what_happened(error: LockError, message: String)
    requires
        call_ensures(LockError::message, (&error,), message),
    ensures
        error matches LockError::AcquireFailed(reason) ==> message@ == "Failed to acquire lock: "@
            + reason@,
        error matches LockError::ReleaseFailed(reason) ==> message@ == "Failed to release lock: "@
            + reason@,
        error is Timeout ==> message@ == "Lock timeout"@,
        error is NotHeld ==> message@ == "Lock not held"@,
        error matches LockError::RedisError(cause) ==> exists|text: String|
            to_string_from_display_ensures::<redis::RedisError>(&cause, text) && message@
                == "Redis error: "@ + #[trigger] text@,
{
}

} // verus!
