use armature_distributed::leader::{
    RenewalAction, RenewalEvent, RenewalLoop, RenewalStep, Transition,
};
use armature_distributed::{
    LeaderElection, LeaderElectionBuilder, LeaderError, LossWait,
};
use redis::aio::{ConnectionManager, ConnectionManagerConfig};
use std::time::Duration;

type Election = LeaderElection<&'static str>;

/// A way to the server that nothing is ever sent on, with the runtime that it belongs to.
fn idle_connection() -> (tokio::runtime::Runtime, ConnectionManager) {
    let runtime = tokio::runtime::Builder::new_current_thread().build().unwrap();
    let conn = {
        let _entered = runtime.enter();
        redis::Client::open("redis://127.0.0.1/")
            .unwrap()
            .get_connection_manager_lazy(ConnectionManagerConfig::new())
            .unwrap()
    };
    (runtime, conn)
}

fn election(ttl: Duration) -> (tokio::runtime::Runtime, Election) {
    let (runtime, conn) = idle_connection();
    let election = LeaderElection::for_node("the-key", "node-1".to_string(), ttl, conn)
        .on_elected("elected")
        .on_revoked("revoked");
    (runtime, election)
}

fn failure() -> redis::RedisError {
    redis::RedisError::from((redis::ErrorKind::Client, "boom"))
}

fn begin(election: &mut Election) -> RenewalLoop {
    let mut renewal = election.start().renewal;
    assert!(matches!(election.renewal_action(&renewal), RenewalAction::Spawn));
    let step = election.renewal_step(&mut renewal, RenewalEvent::Started);
    assert!(matches!(step.action, RenewalAction::Campaign));
    assert_eq!(step.dispatch, None);
    renewal
}

fn next_round(election: &mut Election, renewal: &mut RenewalLoop) {
    let step = election.renewal_step(renewal, RenewalEvent::IntervalElapsed);
    assert!(matches!(step.action, RenewalAction::Campaign));
    assert_eq!(step.dispatch, None);
}

fn reply(
    election: &mut Election,
    renewal: &mut RenewalLoop,
    reply: Result<i32, redis::RedisError>,
) -> RenewalStep {
    election.renewal_step(renewal, RenewalEvent::CampaignReply(reply))
}

fn packed(args: &[&str]) -> Vec<u8> {
    let args: Vec<Vec<u8>> = args.iter().map(|arg| arg.as_bytes().to_vec()).collect();
    redis::pack_command(&args)
}

#[test]
fn test_leader_election_builder() {
    let builder =
        LeaderElectionBuilder::<&str>::new("test-leader").with_ttl(Duration::from_secs(60));

    assert_eq!(builder.key, "test-leader");
    assert_eq!(builder.ttl, Duration::from_secs(60));
}

#[test]
fn refresh_interval_clamps_to_at_least_one_millisecond() {
    // ttl / 3 would truncate to 0ms for any ttl < 3ms; the clamp must
    // keep the sleep from becoming a zero-duration busy-poll.
    assert_eq!(
        Election::refresh_interval_for(Duration::from_millis(0)),
        Duration::from_millis(1)
    );
    assert_eq!(
        Election::refresh_interval_for(Duration::from_millis(1)),
        Duration::from_millis(1)
    );
    assert_eq!(
        Election::refresh_interval_for(Duration::from_millis(2)),
        Duration::from_millis(1)
    );
}

#[test]
fn refresh_interval_is_a_third_of_ttl_above_the_clamp() {
    assert_eq!(
        Election::refresh_interval_for(Duration::from_millis(9)),
        Duration::from_millis(3)
    );
    assert_eq!(
        Election::refresh_interval_for(Duration::from_secs(3)),
        Duration::from_secs(1)
    );
}

#[test]
fn refresh_interval_is_a_third_of_the_longest_ttl_too() {
    // 6148914691236517205333 whole milliseconds.
    assert_eq!(
        Election::refresh_interval_for(Duration::MAX),
        Duration::new(6148914691236517205, 333_000_000)
    );
    // Three times 2^64 milliseconds.
    assert_eq!(
        Election::refresh_interval_for(Duration::new(55340232221128654, 848_000_000)),
        Duration::new(18446744073709551, 616_000_000)
    );
}

#[test]
fn election_builder_keeps_what_it_is_given() {
    let builder = LeaderElectionBuilder::<u8>::new(String::from("owned"));
    assert_eq!(builder.key, "owned");
    assert_eq!(builder.ttl, Duration::from_secs(30));
    assert_eq!(builder.on_elected, None);
    assert_eq!(builder.on_revoked, None);

    let builder = builder.on_elected(1).on_revoked(2);
    assert_eq!(builder.on_elected, Some(1));
    assert_eq!(builder.on_revoked, Some(2));

    let (_runtime, conn) = idle_connection();
    let election = builder.build(conn);
    assert_eq!(election.key(), "owned");
    assert_eq!(election.dispatch(Transition::Elected), Some(&1));
    assert_eq!(election.dispatch(Transition::Revoked), Some(&2));
    assert!(!election.is_leader());
}

#[test]
fn new_election_has_a_random_node_id() {
    let (_runtime, conn) = idle_connection();
    let first = Election::new("k", Duration::from_secs(3), conn.clone());
    let second = Election::new("k", Duration::from_secs(3), conn);

    assert_ne!(first.node_id(), second.node_id());
    let parsed = uuid::Uuid::parse_str(first.node_id()).unwrap();
    assert_eq!(parsed.get_version_num(), 4);
    assert_eq!(first.dispatch(Transition::Elected), None);
    assert_eq!(first.dispatch(Transition::Revoked), None);
}

#[test]
fn node_is_elected_and_refreshes() {
    let (_runtime, mut election) = election(Duration::from_millis(300));
    assert!(!election.fence().is_held());
    let mut renewal = begin(&mut election);

    let step = reply(&mut election, &mut renewal, Ok(1));
    assert_eq!(step.dispatch, Some(Transition::Elected));
    match step.action {
        RenewalAction::Wait(pause) => assert_eq!(pause, Duration::from_millis(100)),
        _ => panic!("a round is followed by a pause"),
    }
    assert!(election.is_leader());
    assert!(election.fence().is_held());
    assert_eq!(election.fence().lost(), LossWait::Pending);
    assert!(!election.take_wake());

    next_round(&mut election, &mut renewal);
    let step = reply(&mut election, &mut renewal, Ok(1));
    assert_eq!(step.dispatch, None);
    assert!(matches!(step.action, RenewalAction::Wait(_)));
    assert!(election.is_leader());
}

#[test]
fn node_loses_leadership_to_another() {
    let (_runtime, mut election) = election(Duration::from_millis(300));
    let mut renewal = begin(&mut election);
    reply(&mut election, &mut renewal, Ok(1));
    next_round(&mut election, &mut renewal);

    let step = reply(&mut election, &mut renewal, Ok(0));

    assert_eq!(step.dispatch, Some(Transition::Revoked));
    assert!(matches!(step.action, RenewalAction::Wait(_)));
    assert!(!election.is_leader());
    assert_eq!(election.fence().lost(), LossWait::Resolved);
    assert!(election.take_wake());
    assert!(!election.take_wake());
}

#[test]
fn an_error_revokes_leadership_at_once() {
    let (_runtime, mut election) = election(Duration::from_millis(300));
    let mut renewal = begin(&mut election);
    reply(&mut election, &mut renewal, Ok(1));
    next_round(&mut election, &mut renewal);

    let step = reply(&mut election, &mut renewal, Err(failure()));
    assert_eq!(step.dispatch, Some(Transition::Revoked));
    assert!(!election.is_leader());
    assert!(election.take_wake());

    next_round(&mut election, &mut renewal);
    let step = reply(&mut election, &mut renewal, Err(failure()));
    assert_eq!(step.dispatch, None);
    assert!(!election.take_wake());
}

#[test]
fn a_follower_stays_a_follower() {
    let (_runtime, mut election) = election(Duration::from_millis(300));
    let mut renewal = begin(&mut election);

    let step = reply(&mut election, &mut renewal, Ok(0));

    assert_eq!(step.dispatch, None);
    assert!(!election.is_leader());
    assert!(!election.take_wake());
}

#[test]
fn callbacks_take_turns() {
    let (_runtime, mut election) = election(Duration::from_millis(300));
    let mut renewal = begin(&mut election);
    let mut dispatched = Vec::new();
    for answer in [Ok(0), Ok(1), Ok(1), Ok(0), Ok(0), Ok(1), Err(failure()), Ok(0), Ok(1)] {
        if let Some(transition) = reply(&mut election, &mut renewal, answer).dispatch {
            dispatched.push(*election.dispatch(transition).unwrap());
        }
        next_round(&mut election, &mut renewal);
    }
    assert_eq!(dispatched, vec!["elected", "revoked", "elected", "revoked", "elected"]);
    assert!(election.is_leader());
}

#[test]
fn callbacks_of_a_leader_begin_with_the_loss() {
    let (_runtime, mut election) = election(Duration::from_millis(300));
    let mut first = begin(&mut election);
    reply(&mut election, &mut first, Ok(1));

    let mut second = begin(&mut election);
    let mut dispatched = Vec::new();
    for answer in [Ok(1), Err(failure()), Ok(0), Ok(1), Ok(0)] {
        dispatched.extend(reply(&mut election, &mut second, answer).dispatch);
        next_round(&mut election, &mut second);
    }
    assert_eq!(
        dispatched,
        vec![Transition::Revoked, Transition::Elected, Transition::Revoked]
    );
    assert!(!election.is_leader());
}

#[test]
fn stopped_node_ends_at_the_head_of_the_next_round() {
    let (_runtime, mut election) = election(Duration::from_millis(300));
    let mut renewal = begin(&mut election);
    election.stop();

    let step = reply(&mut election, &mut renewal, Ok(1));
    assert_eq!(step.dispatch, Some(Transition::Elected));
    assert!(matches!(step.action, RenewalAction::Wait(_)));

    let step = election.renewal_step(&mut renewal, RenewalEvent::IntervalElapsed);
    assert!(matches!(step.action, RenewalAction::Finish));
    assert!(election.is_leader());
}

#[test]
fn stop_signal_ends_the_pause_only() {
    let (_runtime, mut election) = election(Duration::from_millis(300));
    let mut renewal = begin(&mut election);

    let step = election.renewal_step(&mut renewal, RenewalEvent::StopSignalled);
    assert!(matches!(step.action, RenewalAction::Campaign));

    reply(&mut election, &mut renewal, Ok(0));
    let step = election.renewal_step(&mut renewal, RenewalEvent::StopSignalled);
    assert!(matches!(step.action, RenewalAction::Finish));
    assert!(matches!(election.renewal_action(&renewal), RenewalAction::Finish));
}

#[test]
fn node_stopped_before_its_first_round_never_campaigns() {
    let (_runtime, mut election) = election(Duration::from_millis(300));
    let mut renewal = election.start().renewal;
    election.stop();

    let step = election.renewal_step(&mut renewal, RenewalEvent::Started);

    assert!(matches!(step.action, RenewalAction::Finish));
}

#[test]
fn leader_resigns_when_its_loop_has_ended() {
    let (_runtime, mut election) = election(Duration::from_millis(300));
    let mut renewal = begin(&mut election);
    reply(&mut election, &mut renewal, Ok(1));
    election.stop();
    election.renewal_step(&mut renewal, RenewalEvent::IntervalElapsed);

    let shutdown = election.renewal_joined(Ok(Ok(())));
    assert!(shutdown.resign);
    assert!(matches!(shutdown.result, Ok(())));
    assert!(election.is_leader());

    assert!(matches!(election.resign(Err(failure())), Err(LeaderError::RedisError(_))));
    assert!(election.is_leader());
    assert!(matches!(election.resign(Ok(0)), Ok(())));
    assert!(!election.is_leader());
    assert!(election.take_wake());
}

#[test]
fn follower_has_nothing_to_resign_from() {
    let (_runtime, mut election) = election(Duration::from_millis(300));
    let mut renewal = begin(&mut election);
    reply(&mut election, &mut renewal, Ok(0));

    let shutdown = election.renewal_joined(Ok(Err(LeaderError::NotLeader)));

    assert!(!shutdown.resign);
    assert!(matches!(shutdown.result, Err(LeaderError::NotLeader)));
}

#[test]
fn a_panic_ends_leadership_whatever_becomes_of_the_resignation() {
    let (_runtime, mut election) = election(Duration::from_millis(300));
    let mut renewal = begin(&mut election);
    reply(&mut election, &mut renewal, Ok(1));

    let shutdown = election.renewal_joined(Err("it broke".to_string()));
    assert!(shutdown.resign);
    match shutdown.result {
        Err(LeaderError::RenewalTaskPanicked(words)) => assert_eq!(words, "it broke"),
        _ => panic!("a panic is an error"),
    }
    assert!(!election.is_leader());
    assert!(election.take_wake());
    assert!(election.resign(Err(failure())).is_err());
    assert!(!election.is_leader());
}

#[test]
fn renewal_task_is_stopped_once() {
    let (_runtime, mut election) = election(Duration::from_millis(300));
    assert!(!election.farewell());

    let _renewal = begin(&mut election);
    assert!(election.farewell());
    assert!(!election.farewell());

    let _renewal = begin(&mut election);
    election.renewal_joined(Ok(Ok(())));
    assert!(!election.farewell());
}

#[test]
fn a_loop_returns_no_error_whatever_it_has_met() {
    let (_runtime, mut election) = election(Duration::from_millis(300));
    let mut renewal = begin(&mut election);
    for answer in [Ok(1), Err(failure()), Ok(0), Err(failure())] {
        reply(&mut election, &mut renewal, answer);
        assert!(renewal.result().is_none());
        next_round(&mut election, &mut renewal);
    }
    election.stop();
    reply(&mut election, &mut renewal, Err(failure()));
    election.renewal_step(&mut renewal, RenewalEvent::IntervalElapsed);

    let returned = renewal.result().unwrap();
    assert!(matches!(returned, Ok(())));
    assert!(matches!(election.renewal_joined(Ok(returned)).result, Ok(())));
}

#[test]
fn a_second_start_replaces_the_first() {
    let (_runtime, mut election) = election(Duration::from_millis(300));
    assert!(!election.start().stop_earlier);
    assert!(election.start().stop_earlier);

    assert!(election.renewal_joined(Ok(Ok(()))).stop_renewal);
    assert!(!election.renewal_joined(Ok(Ok(()))).stop_renewal);
    assert!(!election.start().stop_earlier);
}

#[test]
fn two_loops_of_one_election_share_its_leadership() {
    let (_runtime, mut election) = election(Duration::from_millis(300));
    let mut first = begin(&mut election);
    let mut second = begin(&mut election);

    assert_eq!(reply(&mut election, &mut first, Ok(1)).dispatch, Some(Transition::Elected));
    assert!(matches!(election.renewal_action(&second), RenewalAction::Campaign));
    assert_eq!(reply(&mut election, &mut second, Ok(1)).dispatch, None);

    let step = election.renewal_step(&mut first, RenewalEvent::StopSignalled);
    assert!(matches!(step.action, RenewalAction::Finish));
    next_round(&mut election, &mut second);
    assert_eq!(reply(&mut election, &mut second, Ok(0)).dispatch, Some(Transition::Revoked));
    assert!(matches!(election.renewal_action(&first), RenewalAction::Finish));
}

#[test]
fn campaign_replies() {
    assert!(matches!(Election::try_become_leader(Ok(1)), Ok(true)));
    assert!(matches!(Election::try_become_leader(Ok(0)), Ok(false)));
    assert!(matches!(Election::try_become_leader(Ok(2)), Ok(false)));
    assert!(matches!(
        Election::try_become_leader(Err(failure())),
        Err(LeaderError::RedisError(_))
    ));
}

#[test]
fn the_leader_is_read_with_a_get() {
    let (_runtime, election) = election(Duration::from_millis(300));

    assert_eq!(election.node_id(), "node-1");
    assert_eq!(election.get_leader().get_packed_command(), packed(&["GET", "the-key"]));
    match Election::get_leader_reply(Ok(Some("node-2".to_string()))) {
        Ok(leader) => assert_eq!(leader.as_deref(), Some("node-2")),
        Err(_) => panic!("a reply is no error"),
    }
    assert!(matches!(Election::get_leader_reply(Ok(None)), Ok(None)));
    assert!(matches!(
        Election::get_leader_reply(Err(failure())),
        Err(LeaderError::RedisError(_))
    ));
}

#[test]
fn leader_errors_in_words() {
    assert_eq!(
        LeaderError::ElectionFailed("why".to_string()).message(),
        "Election failed: why"
    );
    assert_eq!(LeaderError::NotLeader.message(), "Not the leader");
    assert_eq!(
        LeaderError::RenewalTaskPanicked("why".to_string()).message(),
        "Renewal task panicked: why"
    );
    assert_eq!(
        LeaderError::from(failure()).message(),
        format!("Redis error: {}", failure())
    );
}
