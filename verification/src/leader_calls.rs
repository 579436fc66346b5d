//! What each call on an election comes to, for every election, every loop and every reply:
//! what the caller gets, what changes, and what stays.
//!
//! Each law is about calls: it takes what went in and what came out of them, and relates the
//! two by what a caller can tell.
use crate::duration::{duration_millis, duration_nanos};
use crate::fence::LossWait;
use crate::leader::{
    LeaderElection, LeaderElectionBuilder, LeaderElectionView, LeaderError, LeaderFence, Launch,
    RenewalAction, RenewalEvent, RenewalLoop, RenewalStep, RenewalView, Shutdown,
    Transition,
};
use crate::leader_laws::{asked_millis, campaign, law_single_leader};
use crate::requests::{
    cmd_args, invocation_args, invocation_keys, invocation_text, Scripts, CAMPAIGN_SCRIPT,
    RELEASE_SCRIPT,
};
use crate::server::{
    accepts_ttl, at_intervals, deadline_after, delivers_number,
    law_regular_refreshes_outlive_the_ttl, lease, lease_is_tended, lemma_run, replay,
    run_invocation, stored, Answer, Request, Store, Timed,
};
use crate::text::{decimal, decimal_value, is_random_uuid, lemma_decimal_value, utf8};
use std::time::Duration;
use vstd::prelude::*;
use vstd::string::to_string_from_display_ensures;

verus! {

/// An election begins with what it is given, a pause of a third of the time to live between two
/// rounds, and no callback; the node neither takes part nor leads yet.
pub proof fn law_election_is_what_it_is_given<C, K: Into<String>>(
    key: K,
    node_id: String,
    ttl: Duration,
    conn: redis::aio::ConnectionManager,
    election: LeaderElection<C>,
)
    requires
        call_ensures(LeaderElection::<C>::for_node::<K>, (key, node_id, ttl, conn), election),
    ensures
        exists|text: String|
            call_ensures(K::into, (key,), text) && #[trigger] text@ == election@.key,
        election@.node_id == node_id@,
        election@.ttl == ttl,
        election@.conn == conn,
        duration_nanos(election@.refresh_interval) % 1_000_000 == 0,
        duration_nanos(ttl) >= 3_000_000 ==> 3 * duration_nanos(election@.refresh_interval)
            <= duration_nanos(ttl) < 3 * duration_nanos(election@.refresh_interval) + 3_000_000,
        duration_nanos(ttl) < 3_000_000 ==> duration_nanos(election@.refresh_interval)
            == 1_000_000,
        !election@.leading,
        !election@.wake_due,
        election@.on_elected is None,
        election@.on_revoked is None,
        !election@.running,
        !election@.attached,
{
}

/// The same holds under a node id that is drawn at random.
pub proof fn law_new_election_is_what_it_is_given<C, K: Into<String>>(
    key: K,
    ttl: Duration,
    conn: redis::aio::ConnectionManager,
    election: LeaderElection<C>,
)
    requires
        call_ensures(LeaderElection::<C>::new::<K>, (key, ttl, conn), election),
    ensures
        exists|text: String|
            call_ensures(K::into, (key,), text) && #[trigger] text@ == election@.key,
        is_random_uuid(election@.node_id),
        election@.ttl == ttl,
        election@.conn == conn,
        duration_nanos(election@.refresh_interval) % 1_000_000 == 0,
        duration_nanos(ttl) >= 3_000_000 ==> 3 * duration_nanos(election@.refresh_interval)
            <= duration_nanos(ttl) < 3 * duration_nanos(election@.refresh_interval) + 3_000_000,
        duration_nanos(ttl) < 3_000_000 ==> duration_nanos(election@.refresh_interval)
            == 1_000_000,
        !election@.leading,
        !election@.wake_due,
        election@.on_elected is None,
        election@.on_revoked is None,
        !election@.running,
        !election@.attached,
{
}

/// An election whose key is given as text has that text as its key.
pub proof fn law_election_has_its_key<C>(
    key: &str,
    owned: String,
    node_id: String,
    ttl: Duration,
    conn: redis::aio::ConnectionManager,
    election: LeaderElection<C>,
    other: LeaderElection<C>,
)
    requires
        call_ensures(LeaderElection::<C>::new::<&str>, (key, ttl, conn), election),
        call_ensures(LeaderElection::<C>::for_node::<String>, (owned, node_id, ttl, conn), other),
    ensures
        election@.key == key@,
        other@.key == owned@,
{
}

/// The pause between two rounds is the third of the time to live, in whole milliseconds, and a
/// millisecond where that would be nothing.
pub proof fn law_refresh_interval_is_a_third<C>(ttl: Duration, interval: Duration)
    requires
        call_ensures(LeaderElection::<C>::refresh_interval_for, (ttl,), interval),
    ensures
        duration_nanos(interval) % 1_000_000 == 0,
        duration_nanos(ttl) >= 3_000_000 ==> 3 * duration_nanos(interval) <= duration_nanos(ttl)
            < 3 * duration_nanos(interval) + 3_000_000,
        duration_nanos(ttl) < 3_000_000 ==> duration_nanos(interval) == 1_000_000,
{
}

/// A builder begins with the key, half a minute and no callbacks, takes what it is told, and
/// builds the election of that, in which the node neither takes part nor leads yet.
pub proof fn law_builder_builds_what_it_is_told<C, K: Into<String>>(
    key: K,
    fresh: LeaderElectionBuilder<C>,
    ttl: Duration,
    timed: LeaderElectionBuilder<C>,
    elected: C,
    with_elected: LeaderElectionBuilder<C>,
    revoked: C,
    with_revoked: LeaderElectionBuilder<C>,
    builder: LeaderElectionBuilder<C>,
    conn: redis::aio::ConnectionManager,
    election: LeaderElection<C>,
)
    requires
        call_ensures(LeaderElectionBuilder::<C>::new::<K>, (key,), fresh),
        call_ensures(LeaderElectionBuilder::<C>::with_ttl, (builder, ttl), timed),
        call_ensures(LeaderElectionBuilder::<C>::on_elected, (builder, elected), with_elected),
        call_ensures(LeaderElectionBuilder::<C>::on_revoked, (builder, revoked), with_revoked),
        call_ensures(LeaderElectionBuilder::<C>::build, (builder, conn), election),
    ensures
        exists|text: String|
            call_ensures(K::into, (key,), text) && #[trigger] text@ == fresh.key@,
        duration_nanos(fresh.ttl) == 30_000_000_000,
        fresh.on_elected is None,
        fresh.on_revoked is None,
        timed == (LeaderElectionBuilder { ttl, ..builder }),
        with_elected == (LeaderElectionBuilder { on_elected: Some(elected), ..builder }),
        with_revoked == (LeaderElectionBuilder { on_revoked: Some(revoked), ..builder }),
        is_random_uuid(election@.node_id),
        election@.key == builder.key@,
        election@.ttl == builder.ttl,
        election@.conn == conn,
        duration_nanos(election@.refresh_interval) % 1_000_000 == 0,
        duration_nanos(builder.ttl) >= 3_000_000 ==> 3 * duration_nanos(
            election@.refresh_interval,
        ) <= duration_nanos(builder.ttl) < 3 * duration_nanos(election@.refresh_interval)
            + 3_000_000,
        duration_nanos(builder.ttl) < 3_000_000 ==> duration_nanos(election@.refresh_interval)
            == 1_000_000,
        election@.on_elected == builder.on_elected,
        election@.on_revoked == builder.on_revoked,
        !election@.leading,
        !election@.wake_due,
        !election@.running,
        !election@.attached,
{
}

/// The callback that is handed out for a change of leadership is the one that was registered for
/// that change, and no other.
pub proof fn law_callback_is_the_registered_one<C>(election: LeaderElectionView<C>)
    ensures
        election.callback(Transition::Elected) == election.on_elected,
        election.callback(Transition::Revoked) == election.on_revoked,
{
}

/// Registering a callback sets it for its own change and leaves everything else; and a dispatch
/// hands out the callback of the change, and none where none is registered for it, whatever is
/// registered for the other.
pub proof fn law_dispatch_hands_out_the_registered_callback<C>(
    election: LeaderElection<C>,
    elected: C,
    with_elected: LeaderElection<C>,
    revoked: C,
    with_revoked: LeaderElection<C>,
    when_elected: Option<&C>,
    when_revoked: Option<&C>,
)
    requires
        call_ensures(LeaderElection::<C>::on_elected, (election, elected), with_elected),
        call_ensures(LeaderElection::<C>::on_revoked, (election, revoked), with_revoked),
        call_ensures(
            LeaderElection::<C>::dispatch,
            (&election, Transition::Elected),
            when_elected,
        ),
        call_ensures(
            LeaderElection::<C>::dispatch,
            (&election, Transition::Revoked),
            when_revoked,
        ),
    ensures
        with_elected@ == (LeaderElectionView { on_elected: Some(elected), ..election@ }),
        with_revoked@ == (LeaderElectionView { on_revoked: Some(revoked), ..election@ }),
        when_elected is None <==> election@.on_elected is None,
        when_elected matches Some(callback) ==> election@.on_elected == Some(*callback),
        when_revoked is None <==> election@.on_revoked is None,
        when_revoked matches Some(callback) ==> election@.on_revoked == Some(*callback),
{
}

/// An election shows what it is: whether the node leads, by itself and through its fence, to
/// those who ask and to those who wait; its node id, its key and its way to the server; and a
/// wake-up is handed out once.
pub proof fn law_election_shows_what_it_is<'a, C>(
    election: &'a LeaderElection<C>,
    leading: bool,
    fence: LeaderFence<'a>,
    held: bool,
    wait: LossWait,
    node_id: &str,
    key: &str,
    conn: &redis::aio::ConnectionManager,
    woken: &mut LeaderElection<C>,
    due: bool,
)
    requires
        call_ensures(LeaderElection::<C>::is_leader, (election,), leading),
        call_ensures(LeaderElection::<C>::fence, (election,), fence),
        call_ensures(LeaderFence::is_held, (&fence,), held),
        call_ensures(LeaderFence::lost, (&fence,), wait),
        call_ensures(LeaderElection::<C>::node_id, (election,), node_id),
        call_ensures(LeaderElection::<C>::key, (election,), key),
        call_ensures(LeaderElection::<C>::conn, (election,), conn),
        call_ensures(LeaderElection::<C>::take_wake, (woken,), due),
    ensures
        leading == election@.leading,
        held == leading,
        wait == LossWait::Pending <==> leading,
        wait == LossWait::Resolved <==> !leading,
        fence.wake_due() == election@.wake_due,
        node_id@ == election@.node_id,
        key@ == election@.key,
        *conn == election@.conn,
        due == old(woken)@.wake_due,
        final(woken)@ == (LeaderElectionView { wake_due: false, ..old(woken)@ }),
{
}

/// A start makes the node take part, with a loop of its own, and has an earlier task told to stop
/// if there is one; a stop makes it cease; and a farewell has the task told to stop if there is
/// one. None of them changes anything else, the belief least of all.
pub proof fn law_start_stop_and_farewell<C>(
    started: &mut LeaderElection<C>,
    launch: Launch,
    stopped: &mut LeaderElection<C>,
    left: &mut LeaderElection<C>,
    stop_renewal: bool,
)
    requires
        call_ensures(LeaderElection::<C>::start, (started,), launch),
        call_ensures(LeaderElection::<C>::stop, (stopped,), ()),
        call_ensures(LeaderElection::<C>::farewell, (left,), stop_renewal),
    ensures
        final(started)@ == (LeaderElectionView {
            running: true,
            attached: true,
            ..old(started)@
        }),
        launch.stop_earlier == old(started)@.attached,
        launch.renewal@ is Starting,
        final(stopped)@ == (LeaderElectionView { running: false, ..old(stopped)@ }),
        stop_renewal == old(left)@.attached,
        final(left)@ == (LeaderElectionView { attached: false, ..old(left)@ }),
{
}

/// A loop is told to start, to campaign, to pause for the election's own pause or to end,
/// exactly as it stands; and it gives a result, which is no error, exactly when it is over.
pub proof fn law_loop_is_told_what_to_do<C>(
    election: LeaderElection<C>,
    renewal: RenewalLoop,
    action: RenewalAction,
    result: Option<Result<(), LeaderError>>,
)
    requires
        call_ensures(LeaderElection::<C>::renewal_action, (&election, &renewal), action),
        call_ensures(RenewalLoop::result, (&renewal,), result),
    ensures
        renewal@ is Starting <==> action is Spawn,
        renewal@ is Campaigning <==> action is Campaign,
        renewal@ is Waiting <==> action is Wait,
        renewal@ is Finished <==> action is Finish,
        action matches RenewalAction::Wait(pause) ==> pause == election@.refresh_interval,
        result is Some <==> action is Finish,
        result matches Some(returned) ==> returned == Ok::<(), LeaderError>(()),
{
}

/// A loop believes the answer: whatever the election, its time to live and its callbacks, and
/// whatever the node believed before, after the answer to a campaign it believes that it leads
/// exactly if the answer is 1. It is not so after any other number, nor after an error.
pub proof fn law_loop_believes_the_answer<C>(
    renewal: RenewalView<C>,
    reply: Result<i32, redis::RedisError>,
)
    requires
        renewal.phase is Campaigning,
    ensures
        renewal.step(RenewalEvent::CampaignReply(reply)).election.leading <==> (reply matches Ok(
            n,
        ) && n == 1),
        renewal.step(RenewalEvent::CampaignReply(reply)).phase is Waiting,
{
}

/// Only the answer to a campaign changes what a node believes: it leads afterwards exactly if
/// the answer is 1. A change to leading is dispatched as an election, a change from leading as a
/// revocation that also wakes the waiters, and no change as nothing.
pub proof fn law_step_believes_the_answer<C>(
    election: &mut LeaderElection<C>,
    renewal: &mut RenewalLoop,
    event: RenewalEvent,
    step: RenewalStep,
)
    requires
        call_ensures(LeaderElection::<C>::renewal_step, (election, renewal, event), step),
    ensures
        old(renewal)@ is Campaigning && event is CampaignReply ==> (final(election)@.leading <==> (
        event matches RenewalEvent::CampaignReply(Ok(n)) && n == 1)),
        !(old(renewal)@ is Campaigning && event is CampaignReply) ==> final(election)@
            == old(election)@,
        step.dispatch == Some(Transition::Elected) <==> !old(election)@.leading && final(
            election)@.leading,
        step.dispatch == Some(Transition::Revoked) <==> old(election)@.leading && !final(
            election)@.leading,
        final(election)@.wake_due <==> old(election)@.wake_due || (old(election)@.leading
            && !final(election)@.leading),
        final(election)@ == (LeaderElectionView {
            leading: final(election)@.leading,
            wake_due: final(election)@.wake_due,
            ..old(election)@
        }),
{
}

/// A loop begins a round when it is started and when its pause is over, as long as the node takes
/// part, and ends there where it does not; the stop signal ends its pause and with it the loop;
/// the answer to a campaign is followed by the election's pause; and what it does not wait for
/// changes nothing.
pub proof fn law_step_goes_round<C>(
    election: &mut LeaderElection<C>,
    renewal: &mut RenewalLoop,
    event: RenewalEvent,
    step: RenewalStep,
)
    requires
        call_ensures(LeaderElection::<C>::renewal_step, (election, renewal, event), step),
    ensures
        (old(renewal)@ is Starting && event is Started) || (old(renewal)@ is Waiting
            && event is IntervalElapsed) ==> if old(election)@.running {
            final(renewal)@ is Campaigning && step.action is Campaign
        } else {
            final(renewal)@ is Finished && step.action is Finish
        },
        old(renewal)@ is Waiting && event is StopSignalled ==> final(renewal)@ is Finished
            && step.action is Finish,
        old(renewal)@ is Campaigning && event is CampaignReply ==> final(renewal)@ is Waiting
            && step.action == RenewalAction::Wait(old(election)@.refresh_interval),
        old(renewal)@ is Starting && event !is Started ==> final(renewal)@ is Starting
            && step.action is Spawn,
        old(renewal)@ is Waiting && event !is IntervalElapsed && event !is StopSignalled
            ==> final(renewal)@ is Waiting && step.action == RenewalAction::Wait(
            old(election)@.refresh_interval,
        ),
        old(renewal)@ is Campaigning && event !is CampaignReply ==> final(renewal)@ is Campaigning
            && step.action is Campaign,
        old(renewal)@ is Finished ==> final(renewal)@ is Finished && step.action is Finish,
{
}

/// What an answer to a campaign means: 1 that the node leads, any other number that it does not;
/// and an error is handed on.
pub proof fn law_only_one_means_leading<C>(
    reply: Result<i32, redis::RedisError>,
    result: Result<bool, LeaderError>,
)
    requires
        call_ensures(LeaderElection::<C>::try_become_leader, (reply,), result),
    ensures
        result == Ok::<bool, LeaderError>(true) <==> (reply matches Ok(n) && n == 1),
        result == Ok::<bool, LeaderError>(false) <==> (reply matches Ok(n) && n != 1),
        reply matches Err(error) ==> result == Err::<bool, LeaderError>(
            LeaderError::RedisError(error),
        ),
{
}

/// A campaign asks for the guarded store of the node's own id under the election's own key, with
/// the election's own time to live in milliseconds, wherever a request can carry that; and a
/// resignation asks for the guarded deletion of the same.
pub proof fn law_campaign_asks_for_the_elections_ttl<'a, C>(
    election: LeaderElection<C>,
    scripts: &'a Scripts,
    campaigning: redis::ScriptInvocation<'a>,
    resigning: redis::ScriptInvocation<'a>,
)
    requires
        call_ensures(LeaderElection::<C>::campaign, (&election, scripts), campaigning),
        call_ensures(LeaderElection::<C>::resignation, (&election, scripts), resigning),
    ensures
        invocation_text(campaigning) == CAMPAIGN_SCRIPT@,
        invocation_keys(campaigning) == seq![utf8(election@.key)],
        invocation_args(campaigning).len() == 2,
        invocation_args(campaigning)[0] == utf8(election@.node_id),
        duration_millis(election@.ttl) <= usize::MAX ==> invocation_args(campaigning)[1]
            == decimal(duration_millis(election@.ttl)) && decimal_value(
            invocation_args(campaigning)[1],
        ) == duration_millis(election@.ttl),
        duration_millis(election@.ttl) > usize::MAX ==> invocation_args(campaigning)[1]
            == decimal(usize::MAX as nat),
        invocation_text(resigning) == RELEASE_SCRIPT@,
        invocation_keys(resigning) == seq![utf8(election@.key)],
        invocation_args(resigning) == seq![utf8(election@.node_id)],
{
    lemma_decimal_value(duration_millis(election@.ttl));
}

/// A campaign that finds the key free, or the node's own id under it, makes the node the leader
/// for the election's time to live from then on, to the millisecond, and is answered that it did;
/// one that finds another id changes nothing, and is answered that it did not.
pub proof fn law_campaign_wins_the_ttl<'a, C>(
    election: LeaderElection<C>,
    scripts: &'a Scripts,
    call: redis::ScriptInvocation<'a>,
    store: Store,
    now: int,
    later: int,
)
    requires
        call_ensures(LeaderElection::<C>::campaign, (&election, scripts), call),
        duration_millis(election@.ttl) <= usize::MAX,
        accepts_ttl(now, duration_millis(election@.ttl)),
    ensures
        stored(store, utf8(election@.key), now) is None || stored(store, utf8(election@.key), now)
            == Some(utf8(election@.node_id)) ==> {
            &&& run_invocation(store, now, call).1 == Answer::Number(1)
            &&& stored(run_invocation(store, now, call).0, utf8(election@.key), later) == (if later
                <= now + duration_millis(election@.ttl) {
                Some(utf8(election@.node_id))
            } else {
                None
            })
        },
        stored(store, utf8(election@.key), now) is Some && stored(store, utf8(election@.key), now)
            != Some(utf8(election@.node_id)) ==> run_invocation(store, now, call) == (
            store,
            Answer::Number(0),
        ),
{
    reveal(Request::run);
    let campaigning = Request::Campaign {
        key: election@.key,
        token: election@.node_id,
        millis: duration_millis(election@.ttl),
    };
    lemma_run(campaigning, store, now);
}

/// The belief of a loop follows the server: after a campaign whose answer got through, the node
/// believes that it leads exactly if the server stores its id; and after an error it does not.
pub proof fn law_loop_follows_the_server<C>(
    renewal: RenewalView<C>,
    store: Store,
    now: int,
    reply: Result<i32, redis::RedisError>,
)
    requires
        renewal.phase is Campaigning,
        delivers_number(campaign(renewal.election).run(store, now).1, reply),
    ensures
        reply is Ok ==> (renewal.step(
            RenewalEvent::CampaignReply(reply),
        ).election.leading <==> stored(
            campaign(renewal.election).run(store, now).0,
            utf8(renewal.election.key),
            now,
        ) == Some(utf8(renewal.election.node_id))),
        reply is Err ==> !renewal.step(RenewalEvent::CampaignReply(reply)).election.leading,
{
    lemma_run(campaign(renewal.election), store, now);
}

/// There is one leader among the loops. From the moment a loop has won leadership, and as long as
/// its lease is tended, no loop of another node comes to believe that its node leads, and one that
/// believed so stands down with its answer.
pub proof fn law_single_leader_among_loops<C, D>(
    leader: RenewalView<C>,
    store: Store,
    now: int,
    reply: Result<i32, redis::RedisError>,
    history: Seq<Timed>,
    other: RenewalView<D>,
    later: int,
    other_reply: Result<i32, redis::RedisError>,
)
    requires
        leader.phase is Campaigning,
        delivers_number(campaign(leader.election).run(store, now).1, reply),
        leader.step(RenewalEvent::CampaignReply(reply)).election.leading,
        lease_is_tended(
            now + asked_millis(leader.election),
            history,
            leader.election.key,
            leader.election.node_id,
        ),
        later <= deadline_after(
            now + asked_millis(leader.election),
            history,
            leader.election.key,
            leader.election.node_id,
        ),
        other.phase is Campaigning,
        other.election.key == leader.election.key,
        other.election.node_id != leader.election.node_id,
        delivers_number(
            campaign(other.election).run(
                replay(campaign(leader.election).run(store, now).0, history),
                later,
            ).1,
            other_reply,
        ),
    ensures
        !other.step(RenewalEvent::CampaignReply(other_reply)).election.leading,
        other.election.leading ==> other.step(
            RenewalEvent::CampaignReply(other_reply),
        ).election.wake_due && other.transition(RenewalEvent::CampaignReply(other_reply)) == Some(
            Transition::Revoked,
        ),
        stored(
            replay(campaign(leader.election).run(store, now).0, history),
            utf8(leader.election.key),
            later,
        ) == Some(utf8(leader.election.node_id)),
{
    law_single_leader(
        leader.election,
        store,
        now,
        reply,
        history,
        other.election,
        later,
        other_reply,
    );
}

/// The time to live that a node asks for is the election's own, wherever a request can carry it.
pub proof fn law_node_asks_for_the_elections_ttl<C>(election: LeaderElectionView<C>)
    ensures
        duration_millis(election.ttl) <= usize::MAX ==> asked_millis(election) == duration_millis(
            election.ttl,
        ),
{
}

/// Campaigns sent after the pauses that the loop is told to take keep leadership past its time to
/// live: after any number of them the server still stores the node's id, for the time to live of
/// the election from the last one on.
pub proof fn law_pauses_told_keep_leadership<C, K: Into<String>>(
    key: K,
    node_id: String,
    ttl: Duration,
    conn: redis::aio::ConnectionManager,
    election: LeaderElection<C>,
    renewal: RenewalLoop,
    pause: Duration,
    store: Store,
    won: int,
    count: nat,
    later: int,
)
    requires
        call_ensures(LeaderElection::<C>::for_node::<K>, (key, node_id, ttl, conn), election),
        renewal@ is Waiting,
        call_ensures(
            LeaderElection::<C>::renewal_action,
            (&election, &renewal),
            RenewalAction::Wait(pause),
        ),
        1 <= duration_millis(ttl) <= usize::MAX,
        store.contains_key(utf8(election@.key)),
        store[utf8(election@.key)] == lease(utf8(node_id@), won, duration_millis(ttl)),
        won + count * duration_millis(pause) + duration_millis(ttl) <= i64::MAX,
        later <= won + count * duration_millis(pause) + duration_millis(ttl),
    ensures
        stored(
            replay(
                store,
                at_intervals(
                    Request::Campaign {
                        key: election@.key,
                        token: node_id@,
                        millis: duration_millis(ttl),
                    },
                    won,
                    duration_millis(pause),
                    count,
                ),
            ),
            utf8(election@.key),
            later,
        ) == Some(utf8(node_id@)),
{
    law_regular_refreshes_outlive_the_ttl(
        store,
        Request::Campaign { key: election@.key, token: node_id@, millis: duration_millis(ttl) },
        election@.key,
        node_id@,
        won,
        duration_millis(pause),
        count,
    );
}

/// The end of the renewal task costs leadership exactly if it is a panic, and then wakes the
/// waiters; the node resigns after a panic, or where it still leads; and the election fails with
/// the words of the panic, and else with what the loop returned.
pub proof fn law_join_clears_up<C>(
    election: &mut LeaderElection<C>,
    outcome: Result<Result<(), LeaderError>, String>,
    shutdown: Shutdown,
)
    requires
        call_ensures(LeaderElection::<C>::renewal_joined, (election, outcome), shutdown),
    ensures
        final(election)@.leading <==> old(election)@.leading && outcome is Ok,
        final(election)@.wake_due <==> old(election)@.wake_due || outcome is Err,
        !final(election)@.attached,
        final(election)@ == (LeaderElectionView {
            leading: final(election)@.leading,
            wake_due: final(election)@.wake_due,
            attached: false,
            ..old(election)@
        }),
        shutdown.stop_renewal == old(election)@.attached,
        shutdown.resign <==> old(election)@.leading || outcome is Err,
        outcome matches Ok(returned) ==> shutdown.result == returned,
        outcome matches Err(words) ==> shutdown.result == Err::<(), LeaderError>(
            LeaderError::RenewalTaskPanicked(words),
        ),
{
}

/// A resignation that gets through ends leadership and wakes the waiters, whatever number answers
/// it; one that fails changes nothing, and its error is handed on.
pub proof fn law_resignation_ends_leadership<C>(
    election: &mut LeaderElection<C>,
    reply: Result<i32, redis::RedisError>,
    result: Result<(), LeaderError>,
)
    requires
        call_ensures(LeaderElection::<C>::resign, (election, reply), result),
    ensures
        reply is Ok ==> final(election)@ == (LeaderElectionView {
            leading: false,
            wake_due: true,
            ..old(election)@
        }),
        reply is Ok <==> result is Ok,
        reply matches Err(error) ==> final(election)@ == old(election)@ && result == Err::<
            (),
            LeaderError,
        >(LeaderError::RedisError(error)),
{
}

/// The leader is read under the election's own key, and the answer is handed on as it is.
pub proof fn law_leader_is_read_under_the_key<C>(
    election: LeaderElection<C>,
    request: redis::Cmd,
    reply: Result<Option<String>, redis::RedisError>,
    result: Result<Option<String>, LeaderError>,
)
    requires
        call_ensures(LeaderElection::<C>::get_leader, (&election,), request),
        call_ensures(LeaderElection::<C>::get_leader_reply, (reply,), result),
    ensures
        cmd_args(request).len() == 2,
        cmd_args(request)[0] == utf8("GET"@),
        cmd_args(request)[1] == utf8(election@.key),
        reply matches Ok(leader) ==> result == Ok::<Option<String>, LeaderError>(leader),
        reply matches Err(error) ==> result == Err::<Option<String>, LeaderError>(
            LeaderError::RedisError(error),
        ),
{
}

/// An error of the server becomes the election's error about it, and keeps it.
pub proof fn law_leader_error_keeps_its_cause(cause: redis::RedisError, error: LeaderError)
    requires
        call_ensures(<LeaderError as From<redis::RedisError>>::from, (cause,), error),
    ensures
        error == LeaderError::RedisError(cause),
{
}

/// An error says which one it is, and why where there is a reason.
pub proof fn law_leader_errors_say_what_happened(error: LeaderError, message: String)
    requires
        call_ensures(LeaderError::message, (&error,), message),
    ensures
        error matches LeaderError::ElectionFailed(reason) ==> message@ == "Election failed: "@
            + reason@,
        error is NotLeader ==> message@ == "Not the leader"@,
        error matches LeaderError::RenewalTaskPanicked(reason) ==> message@
            == "Renewal task panicked: "@ + reason@,
        error matches LeaderError::RedisError(cause) ==> exists|text: String|
            to_string_from_display_ensures::<redis::RedisError>(&cause, text) && message@
                == "Redis error: "@ + #[trigger] text@,
{
}

} // verus!
