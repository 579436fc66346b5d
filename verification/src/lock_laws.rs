//! What holds of locks as a whole: across several calls, over whole runs of a watchdog, and
//! against the model of the server.
use crate::duration::{
    duration_millis, duration_nanos, interval_millis, law_interval_fits_in_ttl, wire_millis,
};
use crate::lock::{
    acquire_ends, release_result, LockError, LockGuard, LockGuardView, RedisLockView,
    WatchdogEvent, MAX_RENEW_ERRORS, RETRY_MILLIS,
};
use crate::requests::{
    acquire_args, cmd_args, invokes, release_argv, timed_argv, RELEASE_SCRIPT, RENEW_SCRIPT,
};
use crate::server::{
    accepts_ttl, at_intervals, deadline_after, delivers_number, delivers_text,
    law_regular_refreshes_outlive_the_ttl, law_tended_lease_lasts, lease, lease_is_tended,
    lemma_run, replay, run_command, run_invocation, stored, Request, Store, Timed,
};
use crate::text::utf8;
use std::time::Duration;
use vstd::prelude::*;

verus! {

/// The time to live that a lock asks for.
pub open spec fn asked_millis(lock: RedisLockView) -> nat {
    wire_millis(duration_millis(lock.ttl))
}

/// The request of an attempt to acquire a lock with a token.
pub open spec fn acquisition(lock: RedisLockView, token: Seq<char>) -> Request {
    Request::Acquire { key: lock.key, token, millis: asked_millis(lock) }
}

/// The request that renews a guard's lease.
pub open spec fn renewal(guard: LockGuardView) -> Request {
    Request::Renew { key: guard.key, token: guard.token, millis: guard.renewal_millis() }
}

/// The request that gives a guard's lock back.
pub open spec fn release(guard: LockGuardView) -> Request {
    Request::Release { key: guard.key, token: guard.token }
}

/// These are the requests that a lock and its guard hand out: what the server makes of them is
/// what the laws say of them.
pub proof fn law_lock_hands_these_requests_out(
    lock: RedisLockView,
    token: Seq<char>,
    acquiring: redis::Cmd,
    guard: LockGuardView,
    renewing: redis::ScriptInvocation<'_>,
    releasing: redis::ScriptInvocation<'_>,
    store: Store,
    now: int,
)
    requires
        cmd_args(acquiring) == acquire_args(lock.key, token, asked_millis(lock)),
        invokes(
            renewing,
            RENEW_SCRIPT@,
            guard.key,
            timed_argv(guard.token, guard.renewal_millis()),
        ),
        invokes(releasing, RELEASE_SCRIPT@, guard.key, release_argv(guard.token)),
    ensures
        run_command(store, now, cmd_args(acquiring)) == acquisition(lock, token).run(store, now),
        run_invocation(store, now, renewing) == renewal(guard).run(store, now),
        run_invocation(store, now, releasing) == release(guard).run(store, now),
{
    reveal(Request::run);
}

/// An attempt gets the lock exactly where the key is free. Then the server stores the
/// attempt's token for the lock's time to live; where the key is taken, nothing changes; and
/// a time to live that the server does not accept is an error, and changes nothing either.
pub proof fn law_acquire_needs_a_free_key(
    lock: RedisLockView,
    token: Seq<char>,
    store: Store,
    now: int,
    reply: Result<Option<String>, redis::RedisError>,
)
    requires
        delivers_text(acquisition(lock, token).run(store, now).1, reply),
    ensures
        reply matches Ok(Some(_)) ==> stored(store, utf8(lock.key), now) is None,
        reply matches Ok(None) ==> stored(store, utf8(lock.key), now) is Some,
        !accepts_ttl(now, asked_millis(lock)) ==> reply is Err,
        acquisition(lock, token).run(store, now).0 == (if accepts_ttl(now, asked_millis(lock))
            && stored(store, utf8(lock.key), now) is None {
            store.insert(utf8(lock.key), lease(utf8(token), now, asked_millis(lock)))
        } else {
            store
        }),
{
    lemma_run(acquisition(lock, token), store, now);
}

/// Mutual exclusion. From the moment an attempt has got the lock, and as long as its lease
/// is tended, no other attempt gets it, whatever its token is and whatever others have sent
/// meanwhile.
pub proof fn law_mutual_exclusion(
    lock: RedisLockView,
    token: Seq<char>,
    store: Store,
    now: int,
    reply: Result<Option<String>, redis::RedisError>,
    history: Seq<Timed>,
    other: RedisLockView,
    other_token: Seq<char>,
    later: int,
    other_reply: Result<Option<String>, redis::RedisError>,
)
    requires
        delivers_text(acquisition(lock, token).run(store, now).1, reply),
        reply matches Ok(Some(_)),
        lease_is_tended(now + asked_millis(lock), history, lock.key, token),
        later <= deadline_after(now + asked_millis(lock), history, lock.key, token),
        other.key == lock.key,
        delivers_text(
            acquisition(other, other_token).run(
                replay(acquisition(lock, token).run(store, now).0, history),
                later,
            ).1,
            other_reply,
        ),
    ensures
        !(other_reply matches Ok(Some(_))),
        stored(
            replay(acquisition(lock, token).run(store, now).0, history),
            utf8(lock.key),
            later,
        ) == Some(utf8(token)),
{
    law_acquire_needs_a_free_key(lock, token, store, now, reply);
    let granted = acquisition(lock, token).run(store, now).0;
    law_tended_lease_lasts(granted, now + asked_millis(lock), history, lock.key, token);
    let held = replay(granted, history);
    law_acquire_needs_a_free_key(other, other_token, held, later, other_reply);
}

/// A release never takes a lock from another holder. It deletes the key exactly while it
/// stores the guard's token; else it leaves everything as it is, and a reply that gets
/// through says that the lock is not held.
pub proof fn law_release_spares_other_holders(
    guard: LockGuardView,
    store: Store,
    now: int,
    reply: Result<i32, redis::RedisError>,
)
    requires
        delivers_number(release(guard).run(store, now).1, reply),
    ensures
        stored(store, utf8(guard.key), now) == Some(utf8(guard.token)) ==> release(guard).run(
            store,
            now,
        ).0 == store.remove(utf8(guard.key)) && (reply is Ok ==> release_result(reply) is Ok),
        stored(store, utf8(guard.key), now) != Some(utf8(guard.token)) ==> release(guard).run(
            store,
            now,
        ).0 == store && (reply is Ok ==> release_result(reply) == Err::<(), LockError>(
            LockError::NotHeld,
        )),
{
    lemma_run(release(guard), store, now);
}

/// Releasing undoes acquiring: while the lease lasts, the release of a lock that was free
/// before leaves its key free again, for whoever comes next; and releasing once more changes
/// nothing.
pub proof fn law_release_undoes_acquire(
    lock: RedisLockView,
    token: Seq<char>,
    store: Store,
    now: int,
    later: int,
    much_later: int,
)
    requires
        accepts_ttl(now, asked_millis(lock)),
        stored(store, utf8(lock.key), now) is None,
        later <= now + asked_millis(lock),
    ensures
        ({
            let guard = LockGuardView::fresh(lock, token);
            let acquired = acquisition(lock, token).run(store, now).0;
            let released = release(guard).run(acquired, later).0;
            &&& released == store.remove(utf8(lock.key))
            &&& stored(released, utf8(lock.key), much_later) is None
            &&& release(guard).run(released, much_later).0 == released
        }),
{
    let guard = LockGuardView::fresh(lock, token);
    lemma_run(acquisition(lock, token), store, now);
    let acquired = acquisition(lock, token).run(store, now).0;
    lemma_run(release(guard), acquired, later);
    let released = release(guard).run(acquired, later).0;
    assert(released =~= store.remove(utf8(lock.key)));
    lemma_run(release(guard), released, much_later);
}

/// A renewal tells the truth. After a reply that got through, a guard that was held counts as
/// held exactly if the server stored its token, and then the lease has a full time to live
/// again; a renewal never touches another holder's lease.
pub proof fn law_renewal_tells_the_truth(
    guard: LockGuardView,
    store: Store,
    now: int,
    reply: Result<i32, redis::RedisError>,
)
    requires
        guard.held,
        delivers_number(renewal(guard).run(store, now).1, reply),
    ensures
        reply is Ok ==> (guard.after_renewal(reply).held <==> stored(store, utf8(guard.key), now)
            == Some(utf8(guard.token))),
        reply is Ok && guard.after_renewal(reply).held ==> renewal(guard).run(store, now).0
            == store.insert(
            utf8(guard.key),
            lease(utf8(guard.token), now, guard.renewal_millis()),
        ),
        stored(store, utf8(guard.key), now) != Some(utf8(guard.token)) ==> renewal(guard).run(
            store,
            now,
        ).0 == store,
{
    lemma_run(renewal(guard), store, now);
}

/// The renewals of a guard whose lock was acquired at a moment, sent after each pause.
pub open spec fn renewals(guard: LockGuardView, acquired: int, count: nat) -> Seq<Timed> {
    at_intervals(renewal(guard), acquired, interval_millis(duration_millis(guard.ttl)), count)
}

/// Renewals keep a lock held past its time to live: after any number of them, each sent when
/// the pause after the one before is over, the server still stores the guard's token for a
/// whole time to live.
///
/// Left out are a time to live so long that its third exceeds what a request can carry, and
/// deadlines that the server's clock cannot reach.
pub proof fn law_renewals_outlive_the_ttl(
    guard: LockGuardView,
    store: Store,
    acquired: int,
    count: nat,
    later: int,
)
    requires
        interval_millis(duration_millis(guard.ttl)) <= guard.renewal_millis(),
        store.contains_key(utf8(guard.key)),
        store[utf8(guard.key)] == lease(utf8(guard.token), acquired, guard.renewal_millis()),
        acquired + count * interval_millis(duration_millis(guard.ttl)) + guard.renewal_millis()
            <= i64::MAX,
        later <= acquired + count * interval_millis(duration_millis(guard.ttl))
            + guard.renewal_millis(),
    ensures
        stored(replay(store, renewals(guard, acquired, count)), utf8(guard.key), later) == Some(
            utf8(guard.token),
        ),
{
    law_regular_refreshes_outlive_the_ttl(
        store,
        renewal(guard),
        guard.key,
        guard.token,
        acquired,
        interval_millis(duration_millis(guard.ttl)),
        count,
    );
}

/// A guard after a run of what its watchdog has met.
pub open spec fn watched(guard: LockGuardView, events: Seq<WatchdogEvent>) -> LockGuardView
    decreases events.len(),
{
    if events.len() == 0 {
        guard
    } else {
        watched(guard, events.drop_last()).step(events.last())
    }
}

/// A guard that is lost stays lost, and a watchdog that has ended stays ended and changes
/// nothing any more, whatever it meets.
pub proof fn law_lost_guard_stays_lost(guard: LockGuardView, events: Seq<WatchdogEvent>)
    ensures
        !guard.held ==> !watched(guard, events).held,
        guard.phase is Exited ==> watched(guard, events) == guard,
    decreases events.len(),
{
    if events.len() > 0 {
        law_lost_guard_stays_lost(guard, events.drop_last());
    }
}

/// No loss goes by without a wake-up: a step that loses the lease leaves the waiters one, and
/// ends the watchdog.
pub proof fn law_loss_wakes_and_ends(guard: LockGuardView, event: WatchdogEvent)
    requires
        guard.held,
        !guard.step(event).held,
    ensures
        guard.step(event).wake_due,
        guard.step(event).phase is Exited,
{
}

/// A guard after rounds of its watchdog: each is a pause that runs out and a renewal that is
/// answered.
pub open spec fn renewed(
    guard: LockGuardView,
    replies: Seq<Result<i32, redis::RedisError>>,
) -> LockGuardView
    decreases replies.len(),
{
    if replies.len() == 0 {
        guard
    } else {
        renewed(guard, replies.drop_last()).step(WatchdogEvent::IntervalElapsed).step(
            WatchdogEvent::RenewalReply(replies.last()),
        )
    }
}

/// One of the replies says that the lease is not ours.
pub open spec fn refuted(replies: Seq<Result<i32, redis::RedisError>>) -> bool {
    exists|i: int|
        0 <= i < replies.len() && ((#[trigger] replies[i]) matches Ok(n) && n != 1)
}

/// The replies of the run of the tolerated length that begins at `i` are all errors.
pub open spec fn errors_from(replies: Seq<Result<i32, redis::RedisError>>, i: int) -> bool {
    forall|j: int| i <= j < i + MAX_RENEW_ERRORS ==> (#[trigger] replies[j]) is Err
}

/// Too many of the replies in a row are errors.
pub open spec fn unproven(replies: Seq<Result<i32, redis::RedisError>>) -> bool {
    exists|i: int|
        0 <= i && i + MAX_RENEW_ERRORS <= replies.len() && #[trigger] errors_from(replies, i)
}

/// How many replies at the end are errors.
pub open spec fn trailing_errors(replies: Seq<Result<i32, redis::RedisError>>) -> nat
    decreases replies.len(),
{
    if replies.len() == 0 || replies.last() is Ok {
        0
    } else {
        trailing_errors(replies.drop_last()) + 1
    }
}

/// The errors at the end are the errors at the end.
proof fn lemma_trailing_errors(replies: Seq<Result<i32, redis::RedisError>>)
    ensures
        trailing_errors(replies) <= replies.len(),
        forall|j: int|
            replies.len() - trailing_errors(replies) <= j < replies.len()
                ==> (#[trigger] replies[j]) is Err,
        trailing_errors(replies) < replies.len() ==> replies[replies.len() - trailing_errors(
            replies,
        ) - 1] is Ok,
    decreases replies.len(),
{
    if replies.len() > 0 && replies.last() is Err {
        let earlier = replies.drop_last();
        lemma_trailing_errors(earlier);
        assert forall|j: int|
            replies.len() - trailing_errors(replies) <= j < replies.len() implies (
        #[trigger] replies[j]) is Err by {
            if j < earlier.len() {
                assert(earlier[j] == replies[j]);
            }
        }
    }
}

/// What a fresh guard is after rounds of its watchdog.
proof fn lemma_renewed(
    lock: RedisLockView,
    token: Seq<char>,
    replies: Seq<Result<i32, redis::RedisError>>,
)
    ensures
        ({
            let guard = renewed(LockGuardView::fresh(lock, token), replies);
            if refuted(replies) || unproven(replies) {
                !guard.held && guard.phase is Exited
            } else {
                &&& guard.held
                &&& guard.phase is Sleeping
                &&& guard.errors == trailing_errors(replies)
                &&& guard.errors < MAX_RENEW_ERRORS
            }
        }),
    decreases replies.len(),
{
    if replies.len() > 0 {
        let earlier = replies.drop_last();
        let last = replies.last();
        lemma_renewed(lock, token, earlier);
        lemma_trailing_errors(replies);
        lemma_trailing_errors(earlier);
        assert(replies[replies.len() - 1] == last);
        if refuted(earlier) {
            let i = choose|i: int|
                0 <= i < earlier.len() && ((#[trigger] earlier[i]) matches Ok(n) && n != 1);
            assert(replies[i] == earlier[i]);
        } else if unproven(earlier) {
            let i = choose|i: int|
                0 <= i && i + MAX_RENEW_ERRORS <= earlier.len() && #[trigger] errors_from(
                    earlier,
                    i,
                );
            assert forall|j: int| i <= j < i + MAX_RENEW_ERRORS implies (
            #[trigger] replies[j]) is Err by {
                assert(earlier[j] == replies[j]);
            }
            assert(errors_from(replies, i));
        } else {
            if last is Err && trailing_errors(replies) >= MAX_RENEW_ERRORS {
                assert(errors_from(replies, replies.len() - MAX_RENEW_ERRORS));
            }
            if refuted(replies) {
                let i = choose|i: int|
                    0 <= i < replies.len() && ((#[trigger] replies[i]) matches Ok(n) && n != 1);
                assert(i < earlier.len() ==> earlier[i] == replies[i]);
            }
            if unproven(replies) {
                let i = choose|i: int|
                    0 <= i && i + MAX_RENEW_ERRORS <= replies.len() && #[trigger] errors_from(
                        replies,
                        i,
                    );
                if i + MAX_RENEW_ERRORS <= earlier.len() {
                    assert forall|j: int| i <= j < i + MAX_RENEW_ERRORS implies (
                    #[trigger] earlier[j]) is Err by {
                        assert(earlier[j] == replies[j]);
                    }
                    assert(errors_from(earlier, i));
                } else {
                    assert(replies[i] is Err && replies[i + 1] is Err && replies[i + 2] is Err);
                    assert(trailing_errors(replies) >= MAX_RENEW_ERRORS);
                }
            }
        }
    }
}

/// When a lease counts as lost. After any number of renewals, a guard counts as held exactly
/// if none was answered that the lease is not ours, and no [`MAX_RENEW_ERRORS`] in a row have
/// failed; fewer failures in a row never fence the holder.
pub proof fn law_lease_is_lost_for_a_cause(
    lock: RedisLockView,
    token: Seq<char>,
    replies: Seq<Result<i32, redis::RedisError>>,
)
    ensures
        renewed(LockGuardView::fresh(lock, token), replies).held <==> !refuted(replies)
            && !unproven(replies),
{
    lemma_renewed(lock, token, replies);
}

/// Sustained failure fences the holder: after [`MAX_RENEW_ERRORS`] failed renewals in a row the
/// guard does not count as held, and the pauses before them take together no longer than the
/// time to live, if that is at least three milliseconds.
pub proof fn law_failures_fence_the_holder(
    lock: RedisLockView,
    token: Seq<char>,
    earlier: Seq<Result<i32, redis::RedisError>>,
    failures: Seq<Result<i32, redis::RedisError>>,
)
    requires
        failures.len() == MAX_RENEW_ERRORS,
        forall|i: int| 0 <= i < failures.len() ==> (#[trigger] failures[i]) is Err,
    ensures
        duration_millis(lock.ttl) >= 3 ==> failures.len() * interval_millis(
            duration_millis(lock.ttl),
        ) <= duration_millis(lock.ttl),
        !renewed(LockGuardView::fresh(lock, token), earlier + failures).held,
{
    law_interval_fits_in_ttl(duration_millis(lock.ttl));
    let replies = earlier + failures;
    assert forall|j: int| earlier.len() <= j < earlier.len() + MAX_RENEW_ERRORS implies (
    #[trigger] replies[j]) is Err by {
        assert(replies[j] == failures[j - earlier.len()]);
    }
    assert(errors_from(replies, earlier.len() as int));
    law_lease_is_lost_for_a_cause(lock, token, replies);
}

/// A timeout bounds the attempts. If each pause between two attempts has really passed, an
/// attempt that is to be followed by another one begins before the timeout is over, so that
/// there are no more attempts than pauses that fit into the timeout, and one.
pub proof fn law_timeout_bounds_the_attempts(
    outcomes: Seq<Result<Option<LockGuard>, LockError>>,
    elapsed: Seq<Duration>,
    timeout: Duration,
)
    requires
        outcomes.len() == elapsed.len(),
        forall|i: int|
            #![trigger outcomes[i]]
            #![trigger elapsed[i]]
            0 <= i < outcomes.len() ==> !acquire_ends(outcomes[i], elapsed[i], timeout)
                && duration_nanos(elapsed[i]) >= i * RETRY_MILLIS * 1_000_000,
    ensures
        outcomes.len() > 0 ==> (outcomes.len() - 1) * RETRY_MILLIS * 1_000_000 < duration_nanos(
            timeout,
        ),
        duration_nanos(timeout) == 0 ==> outcomes.len() == 0,
{
    if outcomes.len() > 0 {
        let last = outcomes.len() - 1;
        assert(!acquire_ends(outcomes[last], elapsed[last], timeout));
    }
}

} // verus!
