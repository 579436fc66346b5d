//! Leader election: how a node comes to lead, how it keeps leading, and when it must stand
//! down.
//!
//! Nothing here talks to the server or runs a callback. An election hands out the request
//! to send and takes the reply; its renewal loop says what it does next and takes what
//! happened; and it says which callback a change of leadership calls for.
use crate::duration::{
    duration_millis, duration_nanos, interval_millis, renewal_interval, to_wire_millis,
    wire_millis, DEFAULT_TTL_SECS,
};
use crate::fence::{held_after, wakes, Fence, FenceChange, LossWait};
use crate::requests::{
    cmd_args, invokes, read_args, read_command, release_argv, timed_argv, Scripts,
    CAMPAIGN_SCRIPT, RELEASE_SCRIPT,
};
use crate::text::{converts_to, is_random_uuid, random_token};
use std::time::Duration;
use vstd::prelude::*;
use vstd::string::to_string_from_display_ensures;
use vstd::string::StringExecFns;

verus! {

/// What an election can fail with.
#[derive(Debug)]
pub enum LeaderError {
    /// The election failed.
    ElectionFailed(String),
    /// The request to the server failed.
    RedisError(redis::RedisError),
    /// The node does not lead.
    NotLeader,
    /// The renewal task panicked. The node no longer counts as leader when this is returned.
    RenewalTaskPanicked(String),
}

impl vstd::std_specs::convert::FromSpecImpl<redis::RedisError> for LeaderError {
    open spec fn obeys_from_spec() -> bool {
        true
    }

    open spec fn from_spec(error: redis::RedisError) -> LeaderError {
        LeaderError::RedisError(error)
    }
}

impl From<redis::RedisError> for LeaderError {
    fn from(error: redis::RedisError) -> LeaderError {
        LeaderError::RedisError(error)
    }
}

impl LeaderError {
    /// The error in words.
    pub fn message(&self) -> (message: String)
        ensures
            match *self {
                LeaderError::ElectionFailed(reason) => message@ == "Election failed: "@ + reason@,
                LeaderError::RedisError(error) => exists|text: String|
                    to_string_from_display_ensures::<redis::RedisError>(&error, text) && message@
                        == "Redis error: "@ + #[trigger] text@,
                LeaderError::NotLeader => message@ == "Not the leader"@,
                LeaderError::RenewalTaskPanicked(reason) => message@
                    == "Renewal task panicked: "@ + reason@,
            },
    {
        match self {
            LeaderError::ElectionFailed(reason) => {
                "Election failed: ".to_string().concat(reason.as_str())
            },
            LeaderError::RedisError(error) => {
                let text = error.to_string();
                "Redis error: ".to_string().concat(text.as_str())
            },
            LeaderError::NotLeader => "Not the leader".to_string(),
            LeaderError::RenewalTaskPanicked(reason) => {
                "Renewal task panicked: ".to_string().concat(reason.as_str())
            },
        }
    }
}

/// Where a renewal loop stands.
#[derive(Debug, Clone, Copy, PartialEq, Eq, Structural)]
pub enum RenewalPhase {
    /// It is to be started.
    Starting,
    /// It has sent a campaign request and waits for the reply.
    Campaigning,
    /// It pauses before the next round, unless it is told to stop.
    Waiting,
    /// It is over.
    Finished,
}

/// What a renewal loop meets.
#[derive(Debug)]
pub enum RenewalEvent {
    /// It has been started.
    Started,
    /// The pause between two rounds is over.
    IntervalElapsed,
    /// It was told to stop.
    StopSignalled,
    /// The campaign request was answered.
    CampaignReply(Result<i32, redis::RedisError>),
}

/// What a renewal loop does next.
#[derive(Debug, Clone, Copy)]
pub enum RenewalAction {
    /// Start, on a task of its own.
    Spawn,
    /// Send the campaign request.
    Campaign,
    /// Pause for this long, unless told to stop before.
    Wait(Duration),
    /// End.
    Finish,
}

/// A change of leadership, for which there may be a callback.
#[derive(Debug, Clone, Copy, PartialEq, Eq, Structural)]
pub enum Transition {
    /// The node has become leader.
    Elected,
    /// The node has lost leadership.
    Revoked,
}

/// What a step of the renewal loop leads to.
#[derive(Debug, Clone, Copy)]
pub struct RenewalStep {
    /// The change of leadership whose callback is to be run. The loop does not wait for it.
    pub dispatch: Option<Transition>,
    /// What the loop does next.
    pub action: RenewalAction,
}

/// How an election begins.
pub struct Launch {
    /// Tell the renewal task of an earlier start to stop: it ends at its next pause.
    pub stop_earlier: bool,
    /// The renewal loop to be started.
    pub renewal: RenewalLoop,
}

/// How an election ends once its renewal task is gone.
pub struct Shutdown {
    /// Tell the renewal task that was started last to stop, in case it is not the one that is
    /// gone: it ends at its next pause.
    pub stop_renewal: bool,
    /// Resign before returning the result, as well as possible.
    pub resign: bool,
    /// The result of the election.
    pub result: Result<(), LeaderError>,
}

/// What an election is.
pub struct LeaderElectionView<C> {
    /// The key that stores the leader's node id.
    pub key: Seq<char>,
    /// The id of this node.
    pub node_id: Seq<char>,
    /// The time to live of leadership.
    pub ttl: Duration,
    /// The pause between two rounds of the renewal loop.
    pub refresh_interval: Duration,
    /// The way to the server.
    pub conn: redis::aio::ConnectionManager,
    /// Whether the node believes that it leads.
    pub leading: bool,
    /// Whether those who wait for the loss of leadership are owed a wake-up.
    pub wake_due: bool,
    /// The callback for when the node becomes leader.
    pub on_elected: Option<C>,
    /// The callback for when the node loses leadership.
    pub on_revoked: Option<C>,
    /// Whether the node takes part in the election.
    pub running: bool,
    /// Whether there is a renewal task that nobody has joined or stopped.
    pub attached: bool,
}

impl<C> LeaderElectionView<C> {
    /// An election in which the node does not take part yet.
    pub open spec fn fresh(
        key: Seq<char>,
        node_id: Seq<char>,
        ttl: Duration,
        refresh_interval: Duration,
        conn: redis::aio::ConnectionManager,
        on_elected: Option<C>,
        on_revoked: Option<C>,
    ) -> LeaderElectionView<C> {
        LeaderElectionView {
            key,
            node_id,
            ttl,
            refresh_interval,
            conn,
            leading: false,
            wake_due: false,
            on_elected,
            on_revoked,
            running: false,
            attached: false,
        }
    }

    /// The pause between two rounds is a third of the time to live, and at least a
    /// millisecond.
    pub open spec fn refreshes_in_time(self) -> bool {
        duration_nanos(self.refresh_interval) == interval_millis(duration_millis(self.ttl))
            * 1_000_000
    }

    /// The election after a change of leadership.
    pub open spec fn fence_changed(self, change: FenceChange) -> LeaderElectionView<C> {
        LeaderElectionView {
            leading: held_after(change),
            wake_due: self.wake_due || wakes(self.leading, change),
            ..self
        }
    }

    /// The election after the answer to a campaign request: won leadership is held, lost
    /// leadership is marked lost, and an error counts as a loss for a leader.
    pub open spec fn after_campaign(self, reply: Result<i32, redis::RedisError>)
        -> LeaderElectionView<C> {
        match try_result(reply) {
            Ok(became_leader) => if became_leader && !self.leading {
                self.fence_changed(FenceChange::Held)
            } else if !became_leader && self.leading {
                self.fence_changed(FenceChange::Lost)
            } else {
                self
            },
            Err(_) => self.fence_changed(FenceChange::LostIfHeld),
        }
    }

    /// The election when its renewal task has been joined. A panic costs leadership.
    pub open spec fn after_join(self, panicked: bool) -> LeaderElectionView<C> {
        let joined = LeaderElectionView { attached: false, ..self };
        if panicked {
            joined.fence_changed(FenceChange::Lost)
        } else {
            joined
        }
    }

    /// Whether the node resigns once its renewal task has been joined: after a panic, and where
    /// it still leads.
    pub open spec fn must_resign(self, panicked: bool) -> bool {
        panicked || self.leading
    }

    /// The election after the answer to a resignation: any number ends leadership here, and an
    /// error changes nothing.
    pub open spec fn after_resignation(self, reply: Result<i32, redis::RedisError>)
        -> LeaderElectionView<C> {
        match reply {
            Ok(_) => self.fence_changed(FenceChange::Lost),
            Err(_) => self,
        }
    }

    /// The callback for a change of leadership.
    pub open spec fn callback(self, transition: Transition) -> Option<C> {
        match transition {
            Transition::Elected => self.on_elected,
            Transition::Revoked => self.on_revoked,
        }
    }
}

/// A renewal loop at work for its election.
pub struct RenewalView<C> {
    /// The election, which the loop shares with any other loop of the same election.
    pub election: LeaderElectionView<C>,
    /// Where the loop stands.
    pub phase: RenewalPhase,
}

impl<C> RenewalView<C> {
    /// The loop at the head of a round: as long as the node takes part, it campaigns.
    pub open spec fn at_round_head(self) -> RenewalView<C> {
        RenewalView {
            phase: if self.election.running {
                RenewalPhase::Campaigning
            } else {
                RenewalPhase::Finished
            },
            ..self
        }
    }

    /// The loop and its election after what the loop has met. What it does not wait for
    /// changes nothing.
    pub open spec fn step(self, event: RenewalEvent) -> RenewalView<C> {
        match (self.phase, event) {
            (RenewalPhase::Starting, RenewalEvent::Started) => self.at_round_head(),
            (RenewalPhase::Waiting, RenewalEvent::IntervalElapsed) => self.at_round_head(),
            (RenewalPhase::Waiting, RenewalEvent::StopSignalled) => RenewalView {
                phase: RenewalPhase::Finished,
                ..self
            },
            (RenewalPhase::Campaigning, RenewalEvent::CampaignReply(reply)) => RenewalView {
                election: self.election.after_campaign(reply),
                phase: RenewalPhase::Waiting,
            },
            _ => self,
        }
    }

    /// The change of leadership that a step makes.
    pub open spec fn transition(self, event: RenewalEvent) -> Option<Transition> {
        change_of_leadership(self.election.leading, self.step(event).election.leading)
    }

    /// This is what the loop does next.
    pub open spec fn next_action(self, action: RenewalAction) -> bool {
        match self.phase {
            RenewalPhase::Starting => action is Spawn,
            RenewalPhase::Campaigning => action is Campaign,
            RenewalPhase::Waiting => action == RenewalAction::Wait(self.election.refresh_interval),
            RenewalPhase::Finished => action is Finish,
        }
    }
}

/// What a renewal loop returns, once it is over: it never fails. What goes wrong in a round
/// costs leadership at most, and the next round follows.
pub open spec fn loop_result(phase: RenewalPhase) -> Option<Result<(), LeaderError>> {
    match phase {
        RenewalPhase::Finished => Some(Ok(())),
        _ => None,
    }
}

/// The result of an election whose renewal task has ended: what its loop returned, or the words
/// of its panic.
pub open spec fn election_result(outcome: Result<Result<(), LeaderError>, String>) -> Result<
    (),
    LeaderError,
> {
    match outcome {
        Ok(result) => result,
        Err(words) => Err(LeaderError::RenewalTaskPanicked(words)),
    }
}

/// The change from one belief to another.
pub open spec fn change_of_leadership(before: bool, after: bool) -> Option<Transition> {
    if after && !before {
        Some(Transition::Elected)
    } else if before && !after {
        Some(Transition::Revoked)
    } else {
        None
    }
}

/// What the answer to a campaign request means: only the answer 1 says that the node leads.
pub open spec fn try_result(reply: Result<i32, redis::RedisError>) -> Result<bool, LeaderError> {
    match reply {
        Ok(n) => Ok(n == 1),
        Err(error) => Err(LeaderError::RedisError(error)),
    }
}

/// A look at an election's leadership.
///
/// A callback runs beside the renewal loop, and leadership can be lost while it runs. Look
/// at [`LeaderFence::is_held`], or wait on [`LeaderFence::lost`], right before any effect
/// that others can see; that the callback was started does not prove that the node still
/// leads.
#[derive(Clone, Copy)]
pub struct LeaderFence<'a> {
    fence: &'a Fence,
}

impl<'a> LeaderFence<'a> {
    /// Whether the node believes that it leads.
    pub closed spec fn held(&self) -> bool {
        self.fence.held()
    }

    /// Whether those who wait for the loss of leadership are owed a wake-up.
    pub closed spec fn wake_due(&self) -> bool {
        self.fence.wake_due()
    }

    /// Whether no loss of leadership has been detected so far. That is no promise for the
    /// time after the call.
    pub fn is_held(&self) -> (held: bool)
        ensures
            held == self.held(),
    {
        self.fence.is_held()
    }

    /// What a registered waiter finds: the wait for the loss of leadership resolves at once
    /// if the node does not lead, and else at the next wake-up.
    pub fn lost(&self) -> (wait: LossWait)
        ensures
            wait == (if self.held() {
                LossWait::Pending
            } else {
                LossWait::Resolved
            }),
    {
        self.fence.lost()
    }
}

/// A renewal loop of an election. Each start of the election has its own.
#[derive(Debug)]
pub struct RenewalLoop {
    phase: RenewalPhase,
}

impl View for RenewalLoop {
    type V = RenewalPhase;

    closed spec fn view(&self) -> RenewalPhase {
        self.phase
    }
}

impl RenewalLoop {
    /// What the loop returns, once it is over.
    pub fn result(&self) -> (result: Option<Result<(), LeaderError>>)
        ensures
            result == loop_result(self@),
            self@ is Finished <==> result is Some,
            result matches Some(returned) ==> returned is Ok,
    {
        match self.phase {
            RenewalPhase::Finished => Some(Ok(())),
            _ => None,
        }
    }
}

/// A node's part in the election of a leader.
///
/// The renewal loop keeps a time of its own: callbacks run beside it, and none can delay
/// the next round and let the lease run out under a node that still believes to lead. `C`
/// is the type of the callbacks, which are kept and handed out, and never run here.
pub struct LeaderElection<C> {
    key: String,
    node_id: String,
    ttl: Duration,
    refresh_interval: Duration,
    conn: redis::aio::ConnectionManager,
    leadership: Fence,
    on_elected: Option<C>,
    on_revoked: Option<C>,
    running: bool,
    attached: bool,
}

impl<C> View for LeaderElection<C> {
    type V = LeaderElectionView<C>;

    closed spec fn view(&self) -> LeaderElectionView<C> {
        LeaderElectionView {
            key: self.key@,
            node_id: self.node_id@,
            ttl: self.ttl,
            refresh_interval: self.refresh_interval,
            conn: self.conn,
            leading: self.leadership.held(),
            wake_due: self.leadership.wake_due(),
            on_elected: self.on_elected,
            on_revoked: self.on_revoked,
            running: self.running,
            attached: self.attached,
        }
    }
}

impl<C> LeaderElection<C> {
    /// A node's part in the election on the key, under a random node id.
    pub fn new<K: Into<String>>(
        key: K,
        ttl: Duration,
        conn: redis::aio::ConnectionManager,
    ) -> (election: LeaderElection<C>)
        ensures
            converts_to(key, election@.key),
            is_random_uuid(election@.node_id),
            election@ == LeaderElectionView::<C>::fresh(
                election@.key,
                election@.node_id,
                ttl,
                election@.refresh_interval,
                conn,
                None,
                None,
            ),
            election@.refreshes_in_time(),
    {
        LeaderElection::for_node(key, random_token(), ttl, conn)
    }

    /// The part of the node with the given id in the election on the key.
    pub fn for_node<K: Into<String>>(
        key: K,
        node_id: String,
        ttl: Duration,
        conn: redis::aio::ConnectionManager,
    ) -> (election: LeaderElection<C>)
        ensures
            converts_to(key, election@.key),
            election@ == LeaderElectionView::<C>::fresh(
                election@.key,
                node_id@,
                ttl,
                election@.refresh_interval,
                conn,
                None,
                None,
            ),
            election@.refreshes_in_time(),
    {
        LeaderElection {
            key: key.into(),
            node_id,
            ttl,
            refresh_interval: LeaderElection::<C>::refresh_interval_for(ttl),
            conn,
            leadership: Fence::new(false),
            on_elected: None,
            on_revoked: None,
            running: false,
            attached: false,
        }
    }

    /// The pause between two rounds for a time to live: a third of it, and at least a
    /// millisecond.
    pub fn refresh_interval_for(ttl: Duration) -> (interval: Duration)
        ensures
            duration_nanos(interval) == interval_millis(duration_millis(ttl)) * 1_000_000,
    {
        renewal_interval(ttl)
    }

    /// The same election with a callback for when the node becomes leader.
    pub fn on_elected(self, callback: C) -> (election: LeaderElection<C>)
        ensures
            election@ == (LeaderElectionView { on_elected: Some(callback), ..self@ }),
    {
        LeaderElection { on_elected: Some(callback), ..self }
    }

    /// The same election with a callback for when the node loses leadership.
    pub fn on_revoked(self, callback: C) -> (election: LeaderElection<C>)
        ensures
            election@ == (LeaderElectionView { on_revoked: Some(callback), ..self@ }),
    {
        LeaderElection { on_revoked: Some(callback), ..self }
    }

    /// Whether the node believes that it leads.
    pub fn is_leader(&self) -> (leading: bool)
        ensures
            leading == self@.leading,
    {
        self.leadership.is_held()
    }

    /// A look at the node's leadership.
    pub fn fence(&self) -> (fence: LeaderFence<'_>)
        ensures
            fence.held() == self@.leading,
            fence.wake_due() == self@.wake_due,
    {
        LeaderFence { fence: &self.leadership }
    }

    /// The id of this node.
    pub fn node_id(&self) -> (node_id: &str)
        ensures
            node_id@ == self@.node_id,
    {
        self.node_id.as_str()
    }

    /// The key that stores the leader's node id.
    pub fn key(&self) -> (key: &str)
        ensures
            key@ == self@.key,
    {
        self.key.as_str()
    }

    /// The way to the server.
    pub fn conn(&self) -> (conn: &redis::aio::ConnectionManager)
        ensures
            *conn == self@.conn,
    {
        &self.conn
    }

    /// The callback for a change of leadership, if there is one. It is to be run on a task
    /// of its own.
    pub fn dispatch(&self, transition: Transition) -> (callback: Option<&C>)
        ensures
            match callback {
                Some(callback) => self@.callback(transition) == Some(*callback),
                None => self@.callback(transition) is None,
            },
    {
        match transition {
            Transition::Elected => self.on_elected.as_ref(),
            Transition::Revoked => self.on_revoked.as_ref(),
        }
    }

    /// Takes the wake-up that those who wait for the loss of leadership are owed, if there
    /// is one.
    pub fn take_wake(&mut self) -> (due: bool)
        ensures
            due == old(self)@.wake_due,
            final(self)@ == (LeaderElectionView { wake_due: false, ..old(self)@ }),
    {
        self.leadership.take_wake()
    }

    /// Begins to take part in the election: the renewal loop is to be started. It takes the
    /// place of an earlier one that nobody has joined or stopped, which is told to stop.
    pub fn start(&mut self) -> (launch: Launch)
        ensures
            final(self)@ == (LeaderElectionView { running: true, attached: true, ..old(self)@ }),
            launch.stop_earlier == old(self)@.attached,
            launch.renewal@ is Starting,
    {
        let stop_earlier = self.attached;
        self.running = true;
        self.attached = true;
        Launch { stop_earlier, renewal: RenewalLoop { phase: RenewalPhase::Starting } }
    }

    /// Ceases to take part in the election: the renewal loop ends at the head of its next
    /// round.
    pub fn stop(&mut self)
        ensures
            final(self)@ == (LeaderElectionView { running: false, ..old(self)@ }),
    {
        self.running = false;
    }

    /// What a renewal loop does next.
    pub fn renewal_action(&self, renewal: &RenewalLoop) -> (action: RenewalAction)
        ensures
            (RenewalView { election: self@, phase: renewal@ }).next_action(action),
    {
        match renewal.phase {
            RenewalPhase::Starting => RenewalAction::Spawn,
            RenewalPhase::Campaigning => RenewalAction::Campaign,
            RenewalPhase::Waiting => RenewalAction::Wait(self.refresh_interval),
            RenewalPhase::Finished => RenewalAction::Finish,
        }
    }

    /// Where a loop stands at the head of a round.
    fn round_head(&self) -> (phase: RenewalPhase)
        ensures
            phase == (if self@.running {
                RenewalPhase::Campaigning
            } else {
                RenewalPhase::Finished
            }),
    {
        if self.running {
            RenewalPhase::Campaigning
        } else {
            RenewalPhase::Finished
        }
    }

    /// Takes the answer to a campaign request, and says which change of leadership it makes.
    fn end_campaign(&mut self, reply: Result<i32, redis::RedisError>) -> (dispatch: Option<
        Transition,
    >)
        ensures
            final(self)@ == old(self)@.after_campaign(reply),
            dispatch == change_of_leadership(old(self)@.leading, final(self)@.leading),
    {
        match LeaderElection::<C>::try_become_leader(reply) {
            Ok(became_leader) => {
                let was_leader = self.leadership.is_held();
                if became_leader && !was_leader {
                    self.leadership.mark_held();
                    Some(Transition::Elected)
                } else if !became_leader && was_leader {
                    self.leadership.mark_lost();
                    Some(Transition::Revoked)
                } else {
                    None
                }
            },
            Err(_) => {
                if self.leadership.mark_lost_if_held() {
                    Some(Transition::Revoked)
                } else {
                    None
                }
            },
        }
    }

    /// Takes what a renewal loop has met, and says what it does next and which callback is to
    /// be run.
    pub fn renewal_step(&mut self, renewal: &mut RenewalLoop, event: RenewalEvent) -> (step:
        RenewalStep)
        ensures
            ({
                let before = RenewalView { election: old(self)@, phase: old(renewal)@ };
                let after = RenewalView { election: final(self)@, phase: final(renewal)@ };
                &&& after == before.step(event)
                &&& step.dispatch == before.transition(event)
                &&& after.next_action(step.action)
            }),
    {
        let dispatch = match (renewal.phase, event) {
            (RenewalPhase::Starting, RenewalEvent::Started) => {
                renewal.phase = self.round_head();
                None
            },
            (RenewalPhase::Waiting, RenewalEvent::IntervalElapsed) => {
                renewal.phase = self.round_head();
                None
            },
            (RenewalPhase::Waiting, RenewalEvent::StopSignalled) => {
                renewal.phase = RenewalPhase::Finished;
                None
            },
            (RenewalPhase::Campaigning, RenewalEvent::CampaignReply(reply)) => {
                renewal.phase = RenewalPhase::Waiting;
                self.end_campaign(reply)
            },
            _ => None,
        };
        RenewalStep { dispatch, action: self.renewal_action(renewal) }
    }

    /// The request that wins or keeps leadership.
    pub fn campaign<'a>(&self, scripts: &'a Scripts) -> (call: redis::ScriptInvocation<'a>)
        ensures
            invokes(
                call,
                CAMPAIGN_SCRIPT@,
                self@.key,
                timed_argv(self@.node_id, wire_millis(duration_millis(self@.ttl))),
            ),
    {
        let millis: usize = to_wire_millis(self.ttl.as_millis());
        scripts.campaign(self.key.as_str(), self.node_id.as_str(), millis)
    }

    /// What the answer to a campaign request means: only the answer 1 says that the node
    /// leads.
    pub fn try_become_leader(reply: Result<i32, redis::RedisError>) -> (result: Result<
        bool,
        LeaderError,
    >)
        ensures
            result == try_result(reply),
    {
        match reply {
            Ok(n) => Ok(n == 1),
            Err(error) => Err(LeaderError::from(error)),
        }
    }

    /// Takes the end of the renewal task: what its loop returned, or the words of its panic.
    /// After a panic the node does not count as leader any more, whatever comes of the
    /// resignation; and it resigns after a panic, or where it still leads.
    pub fn renewal_joined(&mut self, outcome: Result<Result<(), LeaderError>, String>) -> (shutdown:
        Shutdown)
        ensures
            final(self)@ == old(self)@.after_join(outcome is Err),
            shutdown.stop_renewal == old(self)@.attached,
            shutdown.resign == old(self)@.must_resign(outcome is Err),
            shutdown.result == election_result(outcome),
    {
        let stop_renewal = self.attached;
        self.attached = false;
        match outcome {
            Ok(result) => {
                Shutdown { stop_renewal, resign: self.leadership.is_held(), result }
            },
            Err(words) => {
                self.leadership.mark_lost();
                Shutdown {
                    stop_renewal,
                    resign: true,
                    result: Err(LeaderError::RenewalTaskPanicked(words)),
                }
            },
        }
    }

    /// The request that gives leadership up: it deletes the key only while it stores this
    /// node's id.
    pub fn resignation<'a>(&self, scripts: &'a Scripts) -> (call: redis::ScriptInvocation<'a>)
        ensures
            invokes(call, RELEASE_SCRIPT@, self@.key, release_argv(self@.node_id)),
    {
        scripts.release(self.key.as_str(), self.node_id.as_str())
    }

    /// Takes the answer to a resignation: any number ends leadership here, and an error
    /// changes nothing.
    pub fn resign(&mut self, reply: Result<i32, redis::RedisError>) -> (result: Result<
        (),
        LeaderError,
    >)
        ensures
            final(self)@ == old(self)@.after_resignation(reply),
            result == (match reply {
                Ok(_) => Ok(()),
                Err(error) => Err(LeaderError::RedisError(error)),
            }),
    {
        match reply {
            Ok(_) => {
                self.leadership.mark_lost();
                Ok(())
            },
            Err(error) => Err(LeaderError::from(error)),
        }
    }

    /// The request that reads the leader's node id.
    pub fn get_leader(&self) -> (request: redis::Cmd)
        ensures
            cmd_args(request) == read_args(self@.key),
    {
        read_command(self.key.as_str())
    }

    /// What the answer to that request means: the leader's node id, if there is a leader.
    pub fn get_leader_reply(reply: Result<Option<String>, redis::RedisError>) -> (result: Result<
        Option<String>,
        LeaderError,
    >)
        ensures
            result == (match reply {
                Ok(leader) => Ok(leader),
                Err(error) => Err(LeaderError::RedisError(error)),
            }),
    {
        match reply {
            Ok(leader) => Ok(leader),
            Err(error) => Err(LeaderError::from(error)),
        }
    }

    /// What is to be done when the election goes away: says whether there is a renewal task
    /// that is to be told to stop and then aborted, and forgets it.
    pub fn farewell(&mut self) -> (stop_renewal: bool)
        ensures
            stop_renewal == old(self)@.attached,
            final(self)@ == (LeaderElectionView { attached: false, ..old(self)@ }),
    {
        let stop_renewal = self.attached;
        self.attached = false;
        stop_renewal
    }
}

/// An election in the making: its key, its time to live and its callbacks.
pub struct LeaderElectionBuilder<C> {
    pub key: String,
    pub ttl: Duration,
    pub on_elected: Option<C>,
    pub on_revoked: Option<C>,
}

impl<C> LeaderElectionBuilder<C> {
    /// An election on the key, with a time to live of half a minute and no callbacks.
    pub fn new<K: Into<String>>(key: K) -> (builder: LeaderElectionBuilder<C>)
        ensures
            converts_to(key, builder.key@),
            duration_nanos(builder.ttl) == 30_000_000_000,
            builder.on_elected is None,
            builder.on_revoked is None,
    {
        LeaderElectionBuilder {
            key: key.into(),
            ttl: Duration::from_secs(DEFAULT_TTL_SECS),
            on_elected: None,
            on_revoked: None,
        }
    }

    /// The same election with another time to live.
    pub fn with_ttl(self, ttl: Duration) -> (builder: LeaderElectionBuilder<C>)
        ensures
            builder == (LeaderElectionBuilder { ttl, ..self }),
    {
        LeaderElectionBuilder { ttl, ..self }
    }

    /// The same election with a callback for when the node becomes leader.
    pub fn on_elected(self, callback: C) -> (builder: LeaderElectionBuilder<C>)
        ensures
            builder == (LeaderElectionBuilder { on_elected: Some(callback), ..self }),
    {
        LeaderElectionBuilder { on_elected: Some(callback), ..self }
    }

    /// The same election with a callback for when the node loses leadership.
    pub fn on_revoked(self, callback: C) -> (builder: LeaderElectionBuilder<C>)
        ensures
            builder == (LeaderElectionBuilder { on_revoked: Some(callback), ..self }),
    {
        LeaderElectionBuilder { on_revoked: Some(callback), ..self }
    }

    /// The election, with its way to the server and a random node id.
    pub fn build(self, conn: redis::aio::ConnectionManager) -> (election: LeaderElection<C>)
        ensures
            is_random_uuid(election@.node_id),
            election@ == LeaderElectionView::fresh(
                self.key@,
                election@.node_id,
                self.ttl,
                election@.refresh_interval,
                conn,
                self.on_elected,
                self.on_revoked,
            ),
            election@.refreshes_in_time(),
    {
        let mut election = LeaderElection::new(self.key, self.ttl, conn);
        election.on_elected = self.on_elected;
        election.on_revoked = self.on_revoked;
        election
    }
}

} // verus!
