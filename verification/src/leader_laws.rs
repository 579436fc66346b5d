//! What holds of elections as a whole: across several calls, over whole runs of a renewal
//! loop, and against the model of the server.
use crate::duration::{duration_millis, interval_millis, wire_millis};
use crate::leader::{
    election_result, loop_result, LeaderElectionView, LeaderError, RenewalEvent, RenewalView,
    Transition,
};
use crate::requests::{
    cmd_args, invokes, read_args, release_argv, timed_argv, CAMPAIGN_SCRIPT, RELEASE_SCRIPT,
};
use crate::server::{
    accepts_ttl, at_intervals, deadline_after, delivers_number, delivers_text,
    law_lease_resists_others, law_regular_refreshes_outlive_the_ttl, law_tended_lease_lasts,
    lease, lease_is_tended, lemma_run, replay, run_command, run_invocation, stored, Answer,
    Request, Store, Timed,
};
use crate::text::{lemma_utf8_injective, utf8};
use vstd::prelude::*;

verus! {

/// The time to live that a node asks for.
pub open spec fn asked_millis<C>(election: LeaderElectionView<C>) -> nat {
    wire_millis(duration_millis(election.ttl))
}

/// The request by which a node wins or keeps leadership.
pub open spec fn campaign<C>(election: LeaderElectionView<C>) -> Request {
    Request::Campaign {
        key: election.key,
        token: election.node_id,
        millis: asked_millis(election),
    }
}

/// The request by which a node gives leadership up.
pub open spec fn resignation<C>(election: LeaderElectionView<C>) -> Request {
    Request::Release { key: election.key, token: election.node_id }
}

/// These are the requests that an election hands out: what the server makes of them is what
/// the laws say of them.
pub proof fn law_election_hands_these_requests_out<C>(
    election: LeaderElectionView<C>,
    campaigning: redis::ScriptInvocation<'_>,
    resigning: redis::ScriptInvocation<'_>,
    reading: redis::Cmd,
    store: Store,
    now: int,
)
    requires
        invokes(
            campaigning,
            CAMPAIGN_SCRIPT@,
            election.key,
            timed_argv(election.node_id, asked_millis(election)),
        ),
        invokes(resigning, RELEASE_SCRIPT@, election.key, release_argv(election.node_id)),
        cmd_args(reading) == read_args(election.key),
    ensures
        run_invocation(store, now, campaigning) == campaign(election).run(store, now),
        run_invocation(store, now, resigning) == resignation(election).run(store, now),
        run_command(store, now, cmd_args(reading)) == (Request::Read { key: election.key }).run(
            store,
            now,
        ),
{
    reveal(Request::run);
}

/// A node believes what the server says. After a campaign whose answer got through, it
/// believes that it leads exactly if the server stores its id; and whatever became of the
/// answer, a node that believes that it leads is the one that the server stores, with a full
/// time to live.
pub proof fn law_belief_follows_the_server<C>(
    election: LeaderElectionView<C>,
    store: Store,
    now: int,
    reply: Result<i32, redis::RedisError>,
)
    requires
        delivers_number(campaign(election).run(store, now).1, reply),
    ensures
        ({
            let after = election.after_campaign(reply);
            let answered = campaign(election).run(store, now).0;
            &&& after.leading ==> answered == store.insert(
                utf8(election.key),
                lease(utf8(election.node_id), now, asked_millis(election)),
            )
            &&& reply is Ok ==> (after.leading <==> stored(answered, utf8(election.key), now)
                == Some(utf8(election.node_id)))
            &&& reply is Err ==> !after.leading
        }),
{
    lemma_run(campaign(election), store, now);
}

/// There is one leader. From the moment a node has won leadership, and as long as it refreshes
/// its lease before it runs out, no other node comes to believe that it leads, whatever others
/// have sent meanwhile.
pub proof fn law_single_leader<C, D>(
    leader: LeaderElectionView<C>,
    store: Store,
    now: int,
    reply: Result<i32, redis::RedisError>,
    history: Seq<Timed>,
    other: LeaderElectionView<D>,
    later: int,
    other_reply: Result<i32, redis::RedisError>,
)
    requires
        delivers_number(campaign(leader).run(store, now).1, reply),
        leader.after_campaign(reply).leading,
        lease_is_tended(now + asked_millis(leader), history, leader.key, leader.node_id),
        later <= deadline_after(
            now + asked_millis(leader),
            history,
            leader.key,
            leader.node_id,
        ),
        other.key == leader.key,
        other.node_id != leader.node_id,
        delivers_number(
            campaign(other).run(replay(campaign(leader).run(store, now).0, history), later).1,
            other_reply,
        ),
    ensures
        !other.after_campaign(other_reply).leading,
        stored(
            replay(campaign(leader).run(store, now).0, history),
            utf8(leader.key),
            later,
        ) == Some(utf8(leader.node_id)),
{
    law_belief_follows_the_server(leader, store, now, reply);
    let won = campaign(leader).run(store, now).0;
    law_tended_lease_lasts(
        won,
        now + asked_millis(leader),
        history,
        leader.key,
        leader.node_id,
    );
    let held = replay(won, history);
    law_lease_resists_others(campaign(other), held, later, leader.key, leader.node_id);
}

/// The campaigns of a node that won leadership at a moment, sent after each pause.
pub open spec fn campaigns<C>(
    election: LeaderElectionView<C>,
    won: int,
    count: nat,
) -> Seq<Timed> {
    at_intervals(campaign(election), won, interval_millis(duration_millis(election.ttl)), count)
}

/// Campaigns keep leadership past its time to live: after any number of them, each sent when
/// the pause after the one before is over, the server still stores the node's id for a whole
/// time to live, and answers the next campaign in time that the node leads.
///
/// Left out are a time to live of nothing, which the server does not accept, one so long that
/// its third exceeds what a request can carry, and deadlines that the server's clock cannot
/// reach.
pub proof fn law_campaigns_outlive_the_ttl<C>(
    election: LeaderElectionView<C>,
    store: Store,
    won: int,
    count: nat,
    later: int,
)
    requires
        interval_millis(duration_millis(election.ttl)) <= asked_millis(election),
        store.contains_key(utf8(election.key)),
        store[utf8(election.key)] == lease(utf8(election.node_id), won, asked_millis(election)),
        won + count * interval_millis(duration_millis(election.ttl)) + asked_millis(election)
            <= i64::MAX,
        later <= won + count * interval_millis(duration_millis(election.ttl)) + asked_millis(
            election,
        ),
    ensures
        stored(replay(store, campaigns(election, won, count)), utf8(election.key), later) == Some(
            utf8(election.node_id),
        ),
        accepts_ttl(later, asked_millis(election)) ==> campaign(election).run(
            replay(store, campaigns(election, won, count)),
            later,
        ).1 == Answer::Number(1),
{
    law_regular_refreshes_outlive_the_ttl(
        store,
        campaign(election),
        election.key,
        election.node_id,
        won,
        interval_millis(duration_millis(election.ttl)),
        count,
    );
    lemma_run(campaign(election), replay(store, campaigns(election, won, count)), later);
}

/// The leader can be read off the server: as long as its lease is tended, whoever asks is told
/// the id of the node that has won leadership, whatever others have sent meanwhile.
pub proof fn law_leader_can_be_read<C>(
    election: LeaderElectionView<C>,
    store: Store,
    now: int,
    reply: Result<i32, redis::RedisError>,
    history: Seq<Timed>,
    later: int,
    leader: Result<Option<String>, redis::RedisError>,
)
    requires
        delivers_number(campaign(election).run(store, now).1, reply),
        election.after_campaign(reply).leading,
        lease_is_tended(now + asked_millis(election), history, election.key, election.node_id),
        later <= deadline_after(
            now + asked_millis(election),
            history,
            election.key,
            election.node_id,
        ),
        delivers_text(
            (Request::Read { key: election.key }).run(
                replay(campaign(election).run(store, now).0, history),
                later,
            ).1,
            leader,
        ),
    ensures
        leader is Ok ==> (leader matches Ok(Some(id)) && id@ == election.node_id),
{
    law_belief_follows_the_server(election, store, now, reply);
    let won = campaign(election).run(store, now).0;
    law_tended_lease_lasts(
        won,
        now + asked_millis(election),
        history,
        election.key,
        election.node_id,
    );
    lemma_run(Request::Read { key: election.key }, replay(won, history), later);
    if let Ok(Some(id)) = leader {
        lemma_utf8_injective(id@, election.node_id);
    }
}

/// A resignation never deposes another leader: it deletes the key exactly while it stores the
/// node's own id.
pub proof fn law_resignation_spares_other_leaders<C>(
    election: LeaderElectionView<C>,
    store: Store,
    now: int,
)
    ensures
        resignation(election).run(store, now).0 == (if stored(store, utf8(election.key), now)
            == Some(utf8(election.node_id)) {
            store.remove(utf8(election.key))
        } else {
            store
        }),
{
    lemma_run(resignation(election), store, now);
}

/// A renewal loop and its election after a run of what the loop has met.
pub open spec fn looped<C>(renewal: RenewalView<C>, events: Seq<RenewalEvent>) -> RenewalView<C>
    decreases events.len(),
{
    if events.len() == 0 {
        renewal
    } else {
        looped(renewal, events.drop_last()).step(events.last())
    }
}

/// The changes of leadership for which callbacks are run meanwhile, in order.
pub open spec fn dispatches<C>(
    renewal: RenewalView<C>,
    events: Seq<RenewalEvent>,
) -> Seq<Transition>
    decreases events.len(),
{
    if events.len() == 0 {
        Seq::empty()
    } else {
        let earlier = events.drop_last();
        match looped(renewal, earlier).transition(events.last()) {
            Some(transition) => dispatches(renewal, earlier).push(transition),
            None => dispatches(renewal, earlier),
        }
    }
}

/// Callbacks take turns: over any run of the renewal loop, the first is for becoming leader if
/// the node did not lead, and for losing leadership if it did, and each is for the opposite of
/// the one before; and the node's belief at the end differs from the one at the beginning
/// exactly if there was an odd number of them.
pub proof fn law_callbacks_take_turns<C>(renewal: RenewalView<C>, events: Seq<RenewalEvent>)
    ensures
        forall|i: int|
            0 <= i < dispatches(renewal, events).len() ==> #[trigger] dispatches(
                renewal,
                events,
            )[i] == (if (i % 2 == 0) == !renewal.election.leading {
                Transition::Elected
            } else {
                Transition::Revoked
            }),
        looped(renewal, events).election.leading != renewal.election.leading <==> dispatches(
            renewal,
            events,
        ).len() % 2 == 1,
    decreases events.len(),
{
    if events.len() > 0 {
        law_callbacks_take_turns(renewal, events.drop_last());
    }
}

/// No loss of leadership goes by without a wake-up for those who wait for it, and none without
/// its callback.
pub proof fn law_loss_wakes_and_revokes<C>(renewal: RenewalView<C>, event: RenewalEvent)
    requires
        renewal.election.leading,
        !renewal.step(event).election.leading,
    ensures
        renewal.step(event).election.wake_due,
        renewal.transition(event) == Some(Transition::Revoked),
{
}

/// The same loop for the same election with other callbacks.
pub open spec fn with_callbacks<C>(
    renewal: RenewalView<C>,
    on_elected: Option<C>,
    on_revoked: Option<C>,
) -> RenewalView<C> {
    RenewalView {
        election: LeaderElectionView { on_elected, on_revoked, ..renewal.election },
        ..renewal
    }
}

/// Callbacks never hold the renewal loop up: with other callbacks, or none, it goes through
/// the same steps and waits the same pauses.
pub proof fn law_callbacks_do_not_delay_renewal<C>(
    renewal: RenewalView<C>,
    on_elected: Option<C>,
    on_revoked: Option<C>,
    events: Seq<RenewalEvent>,
)
    ensures
        looped(with_callbacks(renewal, on_elected, on_revoked), events) == with_callbacks(
            looped(renewal, events),
            on_elected,
            on_revoked,
        ),
        dispatches(with_callbacks(renewal, on_elected, on_revoked), events) == dispatches(
            renewal,
            events,
        ),
    decreases events.len(),
{
    if events.len() > 0 {
        law_callbacks_do_not_delay_renewal(
            renewal,
            on_elected,
            on_revoked,
            events.drop_last(),
        );
    }
}

/// A renewal loop never changes what the election is about: key, node id, time to live, pause,
/// way to the server and callbacks stay, and so do whether the node takes part and whether its
/// task is attached. A loop that has ended stays ended and changes nothing any more.
pub proof fn law_loop_keeps_the_election<C>(renewal: RenewalView<C>, events: Seq<RenewalEvent>)
    ensures
        looped(renewal, events).election == (LeaderElectionView {
            leading: looped(renewal, events).election.leading,
            wake_due: looped(renewal, events).election.wake_due,
            ..renewal.election
        }),
        renewal.phase is Finished ==> looped(renewal, events) == renewal,
    decreases events.len(),
{
    if events.len() > 0 {
        law_loop_keeps_the_election(renewal, events.drop_last());
    }
}

/// A node that has been stopped sends no further campaign: unless one is under way, none is
/// begun, and its belief does not change any more; and at the end of the pause the loop ends.
pub proof fn law_stopped_node_does_not_campaign<C>(
    renewal: RenewalView<C>,
    events: Seq<RenewalEvent>,
)
    requires
        !renewal.election.running,
        renewal.phase !is Campaigning,
    ensures
        looped(renewal, events).phase !is Campaigning,
        looped(renewal, events).election.leading == renewal.election.leading,
        renewal.phase is Waiting ==> renewal.step(
            RenewalEvent::IntervalElapsed,
        ).phase is Finished,
    decreases events.len(),
{
    if events.len() > 0 {
        law_stopped_node_does_not_campaign(renewal, events.drop_last());
        law_loop_keeps_the_election(renewal, events.drop_last());
    }
}

/// An election fails only by a panic of its renewal task. Whatever the renewal loop has met,
/// errors of the server among it, it returns no error; so an election whose task returned what
/// its loop gave succeeds, and one whose task panicked fails with the words of the panic.
pub proof fn law_election_fails_only_by_a_panic<C>(
    renewal: RenewalView<C>,
    events: Seq<RenewalEvent>,
    outcome: Result<Result<(), LeaderError>, String>,
)
    requires
        outcome matches Ok(returned) ==> loop_result(looped(renewal, events).phase) == Some(
            returned,
        ),
    ensures
        election_result(outcome) == (match outcome {
            Ok(_) => Ok::<(), LeaderError>(()),
            Err(words) => Err(LeaderError::RenewalTaskPanicked(words)),
        }),
{
}

/// The election at the end of its shutdown: the renewal task was joined, and the resignation,
/// if there was one, was answered.
pub open spec fn shut_down<C>(
    election: LeaderElectionView<C>,
    panicked: bool,
    reply: Result<i32, redis::RedisError>,
) -> LeaderElectionView<C> {
    let joined = election.after_join(panicked);
    if election.must_resign(panicked) {
        joined.after_resignation(reply)
    } else {
        joined
    }
}

/// A shutdown ends leadership. After a panic of the renewal task the node never believes that
/// it leads, neither before the resignation nor after it, whatever came of that; and without
/// one it does not either, unless the resignation has failed.
pub proof fn law_shutdown_ends_leadership<C>(
    election: LeaderElectionView<C>,
    panicked: bool,
    reply: Result<i32, redis::RedisError>,
)
    ensures
        panicked ==> !election.after_join(panicked).leading,
        panicked || reply is Ok ==> !shut_down(election, panicked, reply).leading,
        shut_down(election, panicked, reply).leading ==> election.leading && reply is Err,
        election.leading && !shut_down(election, panicked, reply).leading ==> shut_down(
            election,
            panicked,
            reply,
        ).wake_due,
{
}

} // verus!
