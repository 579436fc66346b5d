//! Distributed locks: when a lock is acquired, how its lease is kept alive, when the lease
//! counts as lost, and how it is given back.
//!
//! Nothing here talks to the server. A lock hands out the request to send, and takes the
//! reply; a guard says what its watchdog is to do next, and takes what happened.
use crate::duration::{
    duration_millis, duration_nanos, interval_millis, renewal_interval, to_wire_millis,
    wire_millis, DEFAULT_TTL_SECS,
};
use crate::fence::{held_after, wakes, Fence, FenceChange, LossWait};
use crate::requests::{
    acquire_args, acquire_command, cmd_args, invokes, release_argv, timed_argv, Scripts,
    RELEASE_SCRIPT, RENEW_SCRIPT,
};
use crate::text::{converts_to, is_random_uuid, random_token};
use std::time::Duration;
use vstd::prelude::*;
use vstd::string::to_string_from_display_ensures;
use vstd::string::StringExecFns;

verus! {

/// Number of consecutive renewal errors the watchdog tolerates before it treats the lease
/// as lost. A passing hiccup of the server should not fence the holder, but sustained
/// failure means that the lease can no longer be shown to be held.
pub const MAX_RENEW_ERRORS: u32 = 3;

/// The pause between two attempts to acquire a lock that is taken, in milliseconds.
pub const RETRY_MILLIS: u64 = 100;

/// What an operation on a lock can fail with.
#[derive(Debug)]
pub enum LockError {
    /// The lock could not be acquired.
    AcquireFailed(String),
    /// The lock could not be released.
    ReleaseFailed(String),
    /// The lock stayed taken until the timeout had passed.
    Timeout,
    /// The request to the server failed.
    RedisError(redis::RedisError),
    /// The lock is not held: its lease has expired, or another holder has it.
    NotHeld,
}

impl vstd::std_specs::convert::FromSpecImpl<redis::RedisError> for LockError {
    open spec fn obeys_from_spec() -> bool {
        true
    }

    open spec fn from_spec(error: redis::RedisError) -> LockError {
        LockError::RedisError(error)
    }
}

impl From<redis::RedisError> for LockError {
    fn from(error: redis::RedisError) -> LockError {
        LockError::RedisError(error)
    }
}

impl LockError {
    /// The error in words.
    pub fn message(&self) -> (message: String)
        ensures
            match *self {
                LockError::AcquireFailed(reason) => message@ == "Failed to acquire lock: "@
                    + reason@,
                LockError::ReleaseFailed(reason) => message@ == "Failed to release lock: "@
                    + reason@,
                LockError::Timeout => message@ == "Lock timeout"@,
                LockError::RedisError(error) => exists|text: String|
                    to_string_from_display_ensures::<redis::RedisError>(&error, text) && message@
                        == "Redis error: "@ + #[trigger] text@,
                LockError::NotHeld => message@ == "Lock not held"@,
            },
    {
        match self {
            LockError::AcquireFailed(reason) => {
                "Failed to acquire lock: ".to_string().concat(reason.as_str())
            },
            LockError::ReleaseFailed(reason) => {
                "Failed to release lock: ".to_string().concat(reason.as_str())
            },
            LockError::Timeout => "Lock timeout".to_string(),
            LockError::RedisError(error) => {
                let text = error.to_string();
                "Redis error: ".to_string().concat(text.as_str())
            },
            LockError::NotHeld => "Lock not held".to_string(),
        }
    }
}

/// Where the watchdog of a guard stands.
#[derive(Debug, Clone, Copy, PartialEq, Eq, Structural)]
pub enum WatchdogPhase {
    /// It sleeps until the next renewal is due, or until it is told to stop.
    Sleeping,
    /// It has sent a renewal and waits for the reply.
    Renewing,
    /// It has ended.
    Exited,
}

/// What a watchdog meets.
#[derive(Debug)]
pub enum WatchdogEvent {
    /// It was told to stop.
    StopSignalled,
    /// The pause between two renewals is over.
    IntervalElapsed,
    /// The renewal was answered.
    RenewalReply(Result<i32, redis::RedisError>),
}

/// What a watchdog does next.
#[derive(Debug, Clone, Copy)]
pub enum WatchdogAction {
    /// Sleep for this long, unless told to stop before.
    Wait(Duration),
    /// Send the renewal request.
    Renew,
    /// End.
    Exit,
}

/// What a guard is.
pub struct LockGuardView {
    /// The key of the lock.
    pub key: Seq<char>,
    /// The token that the server stores under the key while the lease is ours.
    pub token: Seq<char>,
    /// The time to live that each renewal restarts.
    pub ttl: Duration,
    /// Whether no loss of the lease has been detected.
    pub held: bool,
    /// Whether those who wait for the loss are owed a wake-up.
    pub wake_due: bool,
    /// How many renewals in a row have failed.
    pub errors: nat,
    /// Where the watchdog stands.
    pub phase: WatchdogPhase,
    /// Whether the watchdog has not been told to stop yet.
    pub attached: bool,
}

impl LockGuardView {
    /// The guard of a lock that has just been acquired with this token.
    pub open spec fn fresh(lock: RedisLockView, token: Seq<char>) -> LockGuardView {
        LockGuardView {
            key: lock.key,
            token,
            ttl: lock.ttl,
            held: true,
            wake_due: false,
            errors: 0,
            phase: WatchdogPhase::Sleeping,
            attached: true,
        }
    }

    /// The guard after the loss of the lease was detected: fenced, its waiters woken, its
    /// watchdog ended.
    pub open spec fn fenced(self) -> LockGuardView {
        LockGuardView {
            held: held_after(FenceChange::Lost),
            wake_due: self.wake_due || wakes(self.held, FenceChange::Lost),
            phase: WatchdogPhase::Exited,
            ..self
        }
    }

    /// The guard after the answer to a renewal. Only the answer 1 says that the lease is
    /// still ours; any other number says that it is not; and the last of too many errors in
    /// a row counts as a loss too.
    pub open spec fn after_renewal(self, reply: Result<i32, redis::RedisError>) -> LockGuardView {
        match reply {
            Ok(n) => if n == 1 {
                LockGuardView { errors: 0, phase: WatchdogPhase::Sleeping, ..self }
            } else {
                self.fenced()
            },
            Err(_) => if self.errors + 1 >= MAX_RENEW_ERRORS {
                (LockGuardView { errors: self.errors + 1, ..self }).fenced()
            } else {
                LockGuardView {
                    errors: self.errors + 1,
                    phase: WatchdogPhase::Sleeping,
                    ..self
                }
            },
        }
    }

    /// The guard after what its watchdog has met. What the watchdog does not wait for
    /// changes nothing.
    pub open spec fn step(self, event: WatchdogEvent) -> LockGuardView {
        match (self.phase, event) {
            (WatchdogPhase::Sleeping, WatchdogEvent::StopSignalled) => LockGuardView {
                phase: WatchdogPhase::Exited,
                ..self
            },
            (WatchdogPhase::Sleeping, WatchdogEvent::IntervalElapsed) => LockGuardView {
                phase: WatchdogPhase::Renewing,
                ..self
            },
            (WatchdogPhase::Renewing, WatchdogEvent::RenewalReply(reply)) => self.after_renewal(
                reply,
            ),
            _ => self,
        }
    }

    /// The guard once its watchdog has been told to stop.
    pub open spec fn detached(self) -> LockGuardView {
        LockGuardView { attached: false, ..self }
    }

    /// The time to live that a renewal carries: the lease's, but at least a millisecond.
    pub open spec fn renewal_millis(self) -> nat {
        wire_millis(
            if duration_millis(self.ttl) == 0 {
                1
            } else {
                duration_millis(self.ttl)
            },
        )
    }

    /// This is what the watchdog does next: between renewals it pauses for a third of the
    /// time to live.
    pub open spec fn next_action(self, action: WatchdogAction) -> bool {
        match self.phase {
            WatchdogPhase::Sleeping => action matches WatchdogAction::Wait(pause)
                && duration_nanos(pause) == interval_millis(duration_millis(self.ttl))
                * 1_000_000,
            WatchdogPhase::Renewing => action is Renew,
            WatchdogPhase::Exited => action is Exit,
        }
    }
}

/// What the answer to a release means: only the answer 1 says that the lock was ours to give
/// back.
pub open spec fn release_result(reply: Result<i32, redis::RedisError>) -> Result<(), LockError> {
    match reply {
        Ok(n) => if n == 1 {
            Ok(())
        } else {
            Err(LockError::NotHeld)
        },
        Err(error) => Err(LockError::RedisError(error)),
    }
}

/// A request to give a lock back, and whether the watchdog is to be told to stop.
pub struct Release<'a> {
    /// Tell the watchdog to stop, before the request is sent.
    pub stop_watchdog: bool,
    /// The request.
    pub call: redis::ScriptInvocation<'a>,
}

/// What is to be done when a guard goes away.
pub struct Farewell<'a> {
    /// Tell the watchdog to stop.
    pub stop_watchdog: bool,
    /// Send this request, and do not wait for the reply.
    pub release: Option<redis::ScriptInvocation<'a>>,
}

/// The guard of an acquired lock.
///
/// While the lock is held, a watchdog renews the lease on the server, so that it does not
/// expire while the critical section is still running. The watchdog cannot keep another
/// node from taking over an expired lease, but it detects it: when a renewal finds another
/// token, or when [`MAX_RENEW_ERRORS`] renewals in a row fail, the guard counts as lost.
/// Look at [`LockGuard::is_held`], or wait on [`LockGuard::lost`], right before any effect
/// that others can see; the guard alone does not prove that the lease is still ours.
pub struct LockGuard {
    key: String,
    token: String,
    ttl: Duration,
    fence: Fence,
    consecutive_errors: u32,
    phase: WatchdogPhase,
    attached: bool,
}

impl View for LockGuard {
    type V = LockGuardView;

    closed spec fn view(&self) -> LockGuardView {
        LockGuardView {
            key: self.key@,
            token: self.token@,
            ttl: self.ttl,
            held: self.fence.held(),
            wake_due: self.fence.wake_due(),
            errors: self.consecutive_errors as nat,
            phase: self.phase,
            attached: self.attached,
        }
    }
}

impl LockGuard {
    /// A watchdog that is still running has not yet counted too many errors.
    #[verifier::type_invariant]
    closed spec fn inv(self) -> bool {
        self.consecutive_errors < MAX_RENEW_ERRORS || self.phase is Exited
    }

    /// The guard of a lock that has just been acquired; its watchdog starts with a pause.
    pub(crate) fn new(key: String, token: String, ttl: Duration) -> (guard: LockGuard)
        ensures
            guard@.key == key@,
            guard@.token == token@,
            guard@.ttl == ttl,
            guard@.held,
            !guard@.wake_due,
            guard@.errors == 0,
            guard@.phase is Sleeping,
            guard@.attached,
    {
        LockGuard {
            key,
            token,
            ttl,
            fence: Fence::new(true),
            consecutive_errors: 0,
            phase: WatchdogPhase::Sleeping,
            attached: true,
        }
    }

    /// What the watchdog does next.
    pub fn watchdog_action(&self) -> (action: WatchdogAction)
        ensures
            self@.next_action(action),
    {
        match self.phase {
            WatchdogPhase::Sleeping => WatchdogAction::Wait(renewal_interval(self.ttl)),
            WatchdogPhase::Renewing => WatchdogAction::Renew,
            WatchdogPhase::Exited => WatchdogAction::Exit,
        }
    }

    /// Takes what the watchdog has met, and says what it does next.
    pub fn watchdog_step(&mut self, event: WatchdogEvent) -> (action: WatchdogAction)
        ensures
            final(self)@ == old(self)@.step(event),
            final(self)@.next_action(action),
    {
        proof {
            use_type_invariant(&*self);
        }
        match (self.phase, event) {
            (WatchdogPhase::Sleeping, WatchdogEvent::StopSignalled) => {
                self.phase = WatchdogPhase::Exited;
            },
            (WatchdogPhase::Sleeping, WatchdogEvent::IntervalElapsed) => {
                self.phase = WatchdogPhase::Renewing;
            },
            (WatchdogPhase::Renewing, WatchdogEvent::RenewalReply(reply)) => {
                match reply {
                    Ok(n) => {
                        if n == 1 {
                            self.consecutive_errors = 0;
                            self.phase = WatchdogPhase::Sleeping;
                        } else {
                            self.phase = WatchdogPhase::Exited;
                            self.fence.mark_lost();
                        }
                    },
                    Err(_) => {
                        let errors: u32 = self.consecutive_errors + 1;
                        if errors >= MAX_RENEW_ERRORS {
                            self.phase = WatchdogPhase::Exited;
                            self.consecutive_errors = errors;
                            self.fence.mark_lost();
                        } else {
                            self.consecutive_errors = errors;
                            self.phase = WatchdogPhase::Sleeping;
                        }
                    },
                }
            },
            _ => {},
        }
        self.watchdog_action()
    }

    /// The request that renews the lease.
    pub fn renewal<'a>(&self, scripts: &'a Scripts) -> (call: redis::ScriptInvocation<'a>)
        ensures
            invokes(
                call,
                RENEW_SCRIPT@,
                self@.key,
                timed_argv(self@.token, self@.renewal_millis()),
            ),
    {
        let millis: u128 = self.ttl.as_millis();
        let at_least_one: u128 = if millis == 0 { 1 } else { millis };
        scripts.renew(self.key.as_str(), self.token.as_str(), to_wire_millis(at_least_one))
    }

    /// Detaches the watchdog, and says whether it is to be told to stop: only the first
    /// time.
    pub fn stop_watchdog(&mut self) -> (signal: bool)
        ensures
            signal == old(self)@.attached,
            final(self)@ == old(self)@.detached(),
    {
        proof {
            use_type_invariant(&*self);
        }
        let signal = self.attached;
        self.attached = false;
        signal
    }

    /// How many renewals in a row have failed.
    pub fn renewal_errors(&self) -> (errors: u32)
        ensures
            errors == self@.errors,
    {
        self.consecutive_errors
    }

    /// Whether no loss of the lease has been detected so far. That is no promise for the
    /// time after the call.
    pub fn is_held(&self) -> (held: bool)
        ensures
            held == self@.held,
    {
        self.fence.is_held()
    }

    /// What a registered waiter finds: the wait for the loss of the lease resolves at once
    /// if the loss has been detected already, and else at the next wake-up.
    pub fn lost(&self) -> (wait: LossWait)
        ensures
            wait == (if self@.held {
                LossWait::Pending
            } else {
                LossWait::Resolved
            }),
    {
        self.fence.lost()
    }

    /// Takes the wake-up that those who wait for the loss are owed, if there is one.
    pub fn take_wake(&mut self) -> (due: bool)
        ensures
            due == old(self)@.wake_due,
            final(self)@ == (LockGuardView { wake_due: false, ..old(self)@ }),
    {
        proof {
            use_type_invariant(&*self);
        }
        self.fence.take_wake()
    }

    /// Begins to give the lock back: the watchdog is detached first, and the request deletes
    /// the key only while it stores this guard's token.
    pub fn release<'a>(&mut self, scripts: &'a Scripts) -> (release: Release<'a>)
        ensures
            release.stop_watchdog == old(self)@.attached,
            invokes(release.call, RELEASE_SCRIPT@, old(self)@.key, release_argv(old(self)@.token)),
            final(self)@ == old(self)@.detached(),
    {
        let stop_watchdog = self.stop_watchdog();
        let call = scripts.release(self.key.as_str(), self.token.as_str());
        Release { stop_watchdog, call }
    }

    /// What the answer to a release means: only the answer 1 says that the lock was ours to
    /// give back.
    pub fn release_reply(reply: Result<i32, redis::RedisError>) -> (result: Result<(), LockError>)
        ensures
            result == release_result(reply),
    {
        match reply {
            Ok(n) => {
                if n == 1 {
                    Ok(())
                } else {
                    Err(LockError::NotHeld)
                }
            },
            Err(error) => Err(LockError::from(error)),
        }
    }

    /// What is to be done when the guard goes away: the watchdog is detached, and the lock
    /// is given back as well as possible, that is, if there is a runtime to send the request
    /// from.
    pub fn farewell<'a>(&mut self, on_runtime: bool, scripts: &'a Scripts) -> (farewell: Farewell<
        'a,
    >)
        ensures
            farewell.stop_watchdog == old(self)@.attached,
            match farewell.release {
                Some(call) => on_runtime && invokes(
                    call,
                    RELEASE_SCRIPT@,
                    old(self)@.key,
                    release_argv(old(self)@.token),
                ),
                None => !on_runtime,
            },
            final(self)@ == old(self)@.detached(),
    {
        let stop_watchdog = self.stop_watchdog();
        let release = if on_runtime {
            Some(scripts.release(self.key.as_str(), self.token.as_str()))
        } else {
            None
        };
        Farewell { stop_watchdog, release }
    }
}

/// An attempt to acquire a lock.
pub struct Attempt {
    /// The token that the attempt stores if it succeeds.
    pub token: String,
    /// The request to send.
    pub request: redis::Cmd,
}

/// How acquiring a lock goes on.
pub enum AcquireStep {
    /// It is over.
    Done(Result<LockGuard, LockError>),
    /// Try again after this pause.
    RetryAfter(Duration),
}

impl AcquireStep {
    /// Another attempt follows after a tenth of a second.
    pub open spec fn retries(self) -> bool {
        self matches AcquireStep::RetryAfter(pause) && duration_nanos(pause) == RETRY_MILLIS
            * 1_000_000
    }
}

/// Whether acquiring with a timeout is over after an attempt: it is, unless the lock is taken
/// and the timeout has not passed.
pub open spec fn acquire_ends(
    outcome: Result<Option<LockGuard>, LockError>,
    elapsed: Duration,
    timeout: Duration,
) -> bool {
    !(outcome matches Ok(None)) || duration_nanos(elapsed) >= duration_nanos(timeout)
}

/// What a lock is: the key it stands for, its time to live and its way to the server.
pub struct RedisLockView {
    pub key: Seq<char>,
    pub ttl: Duration,
    pub conn: redis::aio::ConnectionManager,
}

/// A lock on a key of a Redis server.
pub struct RedisLock {
    key: String,
    ttl: Duration,
    conn: redis::aio::ConnectionManager,
}

impl View for RedisLock {
    type V = RedisLockView;

    closed spec fn view(&self) -> RedisLockView {
        RedisLockView { key: self.key@, ttl: self.ttl, conn: self.conn }
    }
}

impl RedisLock {
    /// A lock on the key, whose lease expires after `ttl` unless it is renewed.
    pub fn new<K: Into<String>>(
        key: K,
        ttl: Duration,
        conn: redis::aio::ConnectionManager,
    ) -> (lock: RedisLock)
        ensures
            converts_to(key, lock@.key),
            lock@.ttl == ttl,
            lock@.conn == conn,
    {
        RedisLock { key: key.into(), ttl, conn }
    }

    /// The key that the lock stands for.
    pub fn key(&self) -> (key: &str)
        ensures
            key@ == self@.key,
    {
        self.key.as_str()
    }

    /// The way to the server.
    pub fn conn(&self) -> (conn: &redis::aio::ConnectionManager)
        ensures
            *conn == self@.conn,
    {
        &self.conn
    }

    /// An attempt to acquire the lock: the request, and the fresh random token that it
    /// carries.
    pub fn try_acquire(&self) -> (attempt: Attempt)
        ensures
            is_random_uuid(attempt.token@),
            cmd_args(attempt.request) == acquire_args(
                self@.key,
                attempt.token@,
                wire_millis(duration_millis(self@.ttl)),
            ),
    {
        let token = random_token();
        let request = self.acquire_request(token.as_str());
        Attempt { token, request }
    }

    /// The request that acquires the lock for a token.
    pub fn acquire_request(&self, token: &str) -> (request: redis::Cmd)
        ensures
            cmd_args(request) == acquire_args(
                self@.key,
                token@,
                wire_millis(duration_millis(self@.ttl)),
            ),
    {
        let millis: usize = to_wire_millis(self.ttl.as_millis());
        acquire_command(self.key.as_str(), token, millis)
    }

    /// What the answer to an attempt means: any text says that the token is stored, and the
    /// lock comes with a guard; no text says that the lock is taken.
    pub fn try_acquire_reply(
        &self,
        token: String,
        reply: Result<Option<String>, redis::RedisError>,
    ) -> (outcome: Result<Option<LockGuard>, LockError>)
        ensures
            match reply {
                Ok(Some(_)) => outcome matches Ok(Some(guard)) && guard@ == LockGuardView::fresh(
                    self@,
                    token@,
                ),
                Ok(None) => outcome == Ok::<Option<LockGuard>, LockError>(None),
                Err(error) => outcome == Err::<Option<LockGuard>, LockError>(
                    LockError::RedisError(error),
                ),
            },
    {
        match reply {
            Ok(Some(_)) => Ok(Some(LockGuard::new(self.key.clone(), token, self.ttl))),
            Ok(None) => Ok(None),
            Err(error) => Err(LockError::from(error)),
        }
    }

    /// How acquiring goes on after an attempt: a guard or an error ends it, and a lock that
    /// is taken is tried again after a pause.
    pub fn acquire(outcome: Result<Option<LockGuard>, LockError>) -> (step: AcquireStep)
        ensures
            match outcome {
                Ok(Some(guard)) => step == AcquireStep::Done(Ok(guard)),
                Ok(None) => step.retries(),
                Err(error) => step == AcquireStep::Done(Err(error)),
            },
    {
        match outcome {
            Ok(Some(guard)) => AcquireStep::Done(Ok(guard)),
            Ok(None) => AcquireStep::RetryAfter(Duration::from_millis(RETRY_MILLIS)),
            Err(error) => AcquireStep::Done(Err(error)),
        }
    }

    /// How acquiring with a timeout goes on after an attempt, `elapsed` after its beginning:
    /// as without one, but a lock that is taken is not tried again once the timeout has
    /// passed.
    pub fn acquire_timeout(
        outcome: Result<Option<LockGuard>, LockError>,
        elapsed: Duration,
        timeout: Duration,
    ) -> (step: AcquireStep)
        ensures
            step is Done <==> acquire_ends(outcome, elapsed, timeout),
            match outcome {
                Ok(Some(guard)) => step == AcquireStep::Done(Ok(guard)),
                Ok(None) => if duration_nanos(elapsed) >= duration_nanos(timeout) {
                    step == AcquireStep::Done(Err(LockError::Timeout))
                } else {
                    step.retries()
                },
                Err(error) => step == AcquireStep::Done(Err(error)),
            },
    {
        match outcome {
            Ok(None) => {
                if elapsed.as_nanos() >= timeout.as_nanos() {
                    AcquireStep::Done(Err(LockError::Timeout))
                } else {
                    RedisLock::acquire(Ok(None))
                }
            },
            settled => RedisLock::acquire(settled),
        }
    }
}

/// A lock in the making: its key and its time to live.
pub struct LockBuilder {
    pub key: String,
    pub ttl: Duration,
}

impl LockBuilder {
    /// A lock on the key, with a time to live of half a minute.
    pub fn new<K: Into<String>>(key: K) -> (builder: LockBuilder)
        ensures
            converts_to(key, builder.key@),
            duration_nanos(builder.ttl) == 30_000_000_000,
    {
        LockBuilder { key: key.into(), ttl: Duration::from_secs(DEFAULT_TTL_SECS) }
    }

    /// The same lock with another time to live.
    pub fn with_ttl(self, ttl: Duration) -> (builder: LockBuilder)
        ensures
            builder.key == self.key,
            builder.ttl == ttl,
    {
        LockBuilder { key: self.key, ttl }
    }

    /// The lock, with its way to the server.
    pub fn build(self, conn: redis::aio::ConnectionManager) -> (lock: RedisLock)
        ensures
            lock@.key == self.key@,
            lock@.ttl == self.ttl,
            lock@.conn == conn,
    {
        RedisLock::new(self.key, self.ttl, conn)
    }
}

} // verus!
