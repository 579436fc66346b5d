//! Locks and elections against a server in memory, reached through the same calls as a real
//! one.
use armature_distributed::leader::{RenewalAction, RenewalEvent, RenewalLoop, Transition};
use armature_distributed::lock::{WatchdogAction, WatchdogEvent};
use armature_distributed::requests::{CAMPAIGN_SCRIPT, RELEASE_SCRIPT, RENEW_SCRIPT};
use armature_distributed::{
    LeaderElection, LockError, LockGuard, LossWait, RedisLock, Scripts,
};
use redis::aio::{ConnectionManager, ConnectionManagerConfig};
use redis::{ConnectionLike, RedisError, RedisResult, Value};
use std::collections::HashMap;
use std::time::Duration;

/// A server in memory, with a clock that only moves when told to.
struct Server {
    now: i64,
    entries: HashMap<Vec<u8>, (Vec<u8>, Option<i64>)>,
    loaded: HashMap<String, String>,
    reachable: bool,
}

impl Server {
    fn new() -> Server {
        Server {
            now: 1_000_000,
            entries: HashMap::new(),
            loaded: HashMap::new(),
            reachable: true,
        }
    }

    fn advance(&mut self, by: Duration) {
        self.now += by.as_millis() as i64;
    }

    fn stored(&self, key: &[u8]) -> Option<Vec<u8>> {
        match self.entries.get(key) {
            Some((value, deadline)) if deadline.is_none_or(|at| self.now <= at) => {
                Some(value.clone())
            }
            _ => None,
        }
    }

    fn holder(&self, key: &str) -> Option<String> {
        self.stored(key.as_bytes()).map(|value| String::from_utf8(value).unwrap())
    }

    fn steal(&mut self, key: &str, token: &str) {
        self.entries.insert(key.as_bytes().to_vec(), (token.as_bytes().to_vec(), None));
    }

    fn set(&mut self, key: &[u8], value: &[u8], millis: i64) -> RedisResult<()> {
        if millis <= 0 {
            return Err(RedisError::from((
                redis::ErrorKind::Server(redis::ServerErrorKind::ResponseError),
                "invalid expire time",
            )));
        }
        self.entries.insert(key.to_vec(), (value.to_vec(), Some(self.now + millis)));
        Ok(())
    }

    fn eval(&mut self, text: &str, key: &[u8], argv: &[Vec<u8>]) -> RedisResult<Value> {
        let current = self.stored(key);
        if text == RELEASE_SCRIPT {
            if current.as_deref() == Some(&argv[0][..]) {
                self.entries.remove(key);
                return Ok(Value::Int(1));
            }
        } else if text == RENEW_SCRIPT {
            if current.as_deref() == Some(&argv[0][..]) {
                self.set(key, &argv[0], ttl(&argv[1]))?;
                return Ok(Value::Int(1));
            }
        } else if text == CAMPAIGN_SCRIPT {
            if current.is_none() || current.as_deref() == Some(&argv[0][..]) {
                self.set(key, &argv[0], ttl(&argv[1]))?;
                return Ok(Value::Int(1));
            }
        } else {
            panic!("not a script of this crate");
        }
        Ok(Value::Int(0))
    }
}

fn number(digits: &[u8]) -> i64 {
    std::str::from_utf8(digits).unwrap().parse().unwrap()
}

/// A time to live; nothing, where it is out of the server's range.
fn ttl(digits: &[u8]) -> i64 {
    std::str::from_utf8(digits).unwrap().parse().unwrap_or(0)
}

/// Takes a packed command apart.
fn unpack(mut packed: &[u8]) -> Vec<Vec<u8>> {
    fn header(packed: &mut &[u8], mark: u8) -> usize {
        assert_eq!(packed[0], mark);
        let end = packed.iter().position(|byte| *byte == b'\r').unwrap();
        let count = number(&packed[1..end]) as usize;
        *packed = &packed[end + 2..];
        count
    }
    let count = header(&mut packed, b'*');
    let mut args = Vec::new();
    for _ in 0..count {
        let length = header(&mut packed, b'$');
        args.push(packed[..length].to_vec());
        packed = &packed[length + 2..];
    }
    assert!(packed.is_empty());
    args
}

impl ConnectionLike for Server {
    fn req_packed_command(&mut self, cmd: &[u8]) -> RedisResult<Value> {
        if !self.reachable {
            return Err(RedisError::from((redis::ErrorKind::Io, "unreachable")));
        }
        let args = unpack(cmd);
        match &args[0][..] {
            b"GET" => Ok(match self.stored(&args[1]) {
                Some(value) => Value::BulkString(value),
                None => Value::Nil,
            }),
            b"SET" => {
                assert_eq!(&args[3], b"NX");
                assert_eq!(&args[4], b"PX");
                let millis = ttl(&args[5]);
                if millis > 0 && self.stored(&args[1]).is_some() {
                    return Ok(Value::Nil);
                }
                self.set(&args[1], &args[2], millis)?;
                Ok(Value::Okay)
            }
            b"SCRIPT" => {
                assert_eq!(&args[1], b"LOAD");
                let text = String::from_utf8(args[2].clone()).unwrap();
                let hash = redis::Script::new(&text).get_hash().to_string();
                self.loaded.insert(hash.clone(), text);
                Ok(Value::BulkString(hash.into_bytes()))
            }
            b"EVALSHA" => {
                let hash = String::from_utf8(args[1].clone()).unwrap();
                assert_eq!(&args[2], b"1");
                match self.loaded.get(&hash).cloned() {
                    Some(text) => self.eval(&text, &args[3], &args[4..]),
                    None => Err(RedisError::from((
                        redis::ErrorKind::Server(redis::ServerErrorKind::NoScript),
                        "no such script",
                    ))),
                }
            }
            other => panic!("unexpected command {other:?}"),
        }
    }

    fn req_packed_commands(&mut self, _: &[u8], _: usize, _: usize) -> RedisResult<Vec<Value>> {
        panic!("no pipelines here")
    }

    fn get_db(&self) -> i64 {
        0
    }

    fn check_connection(&mut self) -> bool {
        self.reachable
    }

    fn is_open(&self) -> bool {
        self.reachable
    }
}

/// A way to a server that nothing is ever sent on, with the runtime that it belongs to.
fn idle_connection() -> (tokio::runtime::Runtime, ConnectionManager) {
    let runtime = tokio::runtime::Builder::new_current_thread().build().unwrap();
    let conn = {
        let _entered = runtime.enter();
        redis::Client::open("redis://127.0.0.1/")
            .unwrap()
            .get_connection_manager_lazy(ConnectionManagerConfig::new())
            .unwrap()
    };
    (runtime, conn)
}

fn try_acquire(lock: &RedisLock, server: &mut Server) -> Result<Option<LockGuard>, LockError> {
    let attempt = lock.try_acquire();
    let reply: RedisResult<Option<String>> = attempt.request.query(server);
    lock.try_acquire_reply(attempt.token, reply)
}

fn must_acquire(lock: &RedisLock, server: &mut Server) -> LockGuard {
    match try_acquire(lock, server) {
        Ok(Some(guard)) => guard,
        _ => panic!("the lock should be free"),
    }
}

fn renew(guard: &mut LockGuard, scripts: &Scripts, server: &mut Server) -> WatchdogAction {
    assert!(matches!(
        guard.watchdog_step(WatchdogEvent::IntervalElapsed),
        WatchdogAction::Renew
    ));
    let reply: RedisResult<i32> = guard.renewal(scripts).invoke(server);
    guard.watchdog_step(WatchdogEvent::RenewalReply(reply))
}

fn release(guard: &mut LockGuard, scripts: &Scripts, server: &mut Server) -> Result<(), LockError> {
    let release = guard.release(scripts);
    LockGuard::release_reply(release.call.invoke(server))
}

fn campaign(
    election: &mut LeaderElection<()>,
    renewal: &mut RenewalLoop,
    scripts: &Scripts,
    server: &mut Server,
) -> Option<Transition> {
    assert!(matches!(election.renewal_action(renewal), RenewalAction::Campaign));
    let reply: RedisResult<i32> = election.campaign(scripts).invoke(server);
    election.renewal_step(renewal, RenewalEvent::CampaignReply(reply)).dispatch
}

#[test]
fn test_module_exports() {
    let _ = Scripts::new();
}

#[test]
fn second_acquire_fails_while_the_first_guard_is_held() {
    let (_runtime, conn) = idle_connection();
    let (mut server, scripts) = (Server::new(), Scripts::new());
    let lock = RedisLock::new("mutex", Duration::from_secs(30), conn);

    let mut guard = must_acquire(&lock, &mut server);
    assert!(matches!(try_acquire(&lock, &mut server), Ok(None)));

    assert!(matches!(release(&mut guard, &scripts, &mut server), Ok(())));
    assert_eq!(server.holder("mutex"), None);
    assert!(matches!(release(&mut guard, &scripts, &mut server), Err(LockError::NotHeld)));
    must_acquire(&lock, &mut server);
}

#[test]
fn stale_release_leaves_the_new_holder_alone() {
    let (_runtime, conn) = idle_connection();
    let (mut server, scripts) = (Server::new(), Scripts::new());
    let short = RedisLock::new("token-guard", Duration::from_millis(200), conn.clone());
    let mut stale = must_acquire(&short, &mut server);
    stale.stop_watchdog();

    server.advance(Duration::from_millis(600));
    let long = RedisLock::new("token-guard", Duration::from_secs(30), conn);
    must_acquire(&long, &mut server);
    let holder = server.holder("token-guard");

    assert!(matches!(release(&mut stale, &scripts, &mut server), Err(LockError::NotHeld)));
    assert_eq!(server.holder("token-guard"), holder);
    assert!(matches!(try_acquire(&long, &mut server), Ok(None)));
}

#[test]
fn farewell_gives_the_lock_back() {
    let (_runtime, conn) = idle_connection();
    let (mut server, scripts) = (Server::new(), Scripts::new());
    let lock = RedisLock::new("farewell", Duration::from_secs(30), conn);

    let mut guard = must_acquire(&lock, &mut server);
    let reply: RedisResult<i32> =
        guard.farewell(true, &scripts).release.unwrap().invoke(&mut server);

    assert_eq!(reply, Ok(1));
    assert_eq!(server.holder("farewell"), None);
}

#[test]
fn stolen_lease_is_detected_by_the_next_renewal() {
    let (_runtime, conn) = idle_connection();
    let (mut server, scripts) = (Server::new(), Scripts::new());
    let lock = RedisLock::new("fencing", Duration::from_millis(300), conn);
    let mut guard = must_acquire(&lock, &mut server);
    assert!(guard.is_held());

    server.steal("fencing", "foreign-token");
    assert!(matches!(renew(&mut guard, &scripts, &mut server), WatchdogAction::Exit));

    assert!(!guard.is_held());
    assert_eq!(guard.lost(), LossWait::Resolved);
    assert_eq!(server.holder("fencing").as_deref(), Some("foreign-token"));
}

#[test]
fn renewals_keep_the_lock_held_past_its_ttl() {
    let (_runtime, conn) = idle_connection();
    let (mut server, scripts) = (Server::new(), Scripts::new());
    for millis in [1, 2, 3, 300] {
        let key = format!("renewal-{millis}");
        let lock = RedisLock::new(key.as_str(), Duration::from_millis(millis), conn.clone());
        let mut guard = must_acquire(&lock, &mut server);
        for _ in 0..10 {
            match guard.watchdog_action() {
                WatchdogAction::Wait(pause) => server.advance(pause),
                _ => panic!("the watchdog pauses between renewals"),
            }
            assert!(matches!(
                renew(&mut guard, &scripts, &mut server),
                WatchdogAction::Wait(_)
            ));
        }
        assert!(guard.is_held());
        assert!(matches!(try_acquire(&lock, &mut server), Ok(None)));
    }
}

#[test]
fn unreachable_server_fences_the_holder_before_the_lease_runs_out() {
    let (_runtime, conn) = idle_connection();
    let (mut server, scripts) = (Server::new(), Scripts::new());
    let lock = RedisLock::new("outage", Duration::from_millis(300), conn);
    let mut guard = must_acquire(&lock, &mut server);

    server.reachable = false;
    for round in 1..=3 {
        match guard.watchdog_action() {
            WatchdogAction::Wait(pause) => server.advance(pause),
            _ => panic!("the watchdog pauses between renewals"),
        }
        renew(&mut guard, &scripts, &mut server);
        assert_eq!(guard.is_held(), round < 3);
    }
    assert!(server.holder("outage").is_some());
}

#[test]
fn lock_without_a_ttl_is_refused() {
    let (_runtime, conn) = idle_connection();
    let mut server = Server::new();
    let lock = RedisLock::new("no-ttl", Duration::from_micros(500), conn);

    assert!(matches!(try_acquire(&lock, &mut server), Err(LockError::RedisError(_))));
    assert_eq!(server.holder("no-ttl"), None);
}

#[test]
fn ttl_beyond_the_wire_is_refused() {
    let (_runtime, conn) = idle_connection();
    let mut server = Server::new();
    // Five milliseconds more than 2^64.
    let ttl = Duration::new(18446744073709551, 621_000_000);
    let lock = RedisLock::new("forever", ttl, conn);

    assert!(matches!(try_acquire(&lock, &mut server), Err(LockError::RedisError(_))));
    assert_eq!(server.holder("forever"), None);
}

#[test]
fn lock_is_taken_for_its_own_token_too() {
    let (_runtime, conn) = idle_connection();
    let mut server = Server::new();
    let lock = RedisLock::new("mutex", Duration::from_secs(30), conn);

    let first: RedisResult<Option<String>> = lock.acquire_request("t").query(&mut server);
    assert!(matches!(lock.try_acquire_reply("t".to_string(), first), Ok(Some(_))));
    let again: RedisResult<Option<String>> = lock.acquire_request("t").query(&mut server);
    assert!(matches!(lock.try_acquire_reply("t".to_string(), again), Ok(None)));
}

#[test]
fn renewal_carries_at_least_a_millisecond() {
    let (_runtime, conn) = idle_connection();
    let (mut server, scripts) = (Server::new(), Scripts::new());
    let lock = RedisLock::new("tiny", Duration::from_micros(500), conn);
    let mut guard = match lock.try_acquire_reply("t".to_string(), Ok(Some("OK".to_string()))) {
        Ok(Some(guard)) => guard,
        _ => panic!("a confirmed attempt must give a guard"),
    };
    server.steal("tiny", "t");

    renew(&mut guard, &scripts, &mut server);

    server.advance(Duration::from_millis(1));
    assert_eq!(server.holder("tiny").as_deref(), Some("t"));
    server.advance(Duration::from_millis(1));
    assert_eq!(server.holder("tiny"), None);
}

#[test]
fn one_leader_among_two_nodes() {
    let (_runtime, conn) = idle_connection();
    let (mut server, scripts) = (Server::new(), Scripts::new());
    let ttl = Duration::from_secs(3);
    let mut first = LeaderElection::new("single-leader", ttl, conn.clone());
    let mut second = LeaderElection::new("single-leader", ttl, conn);
    let mut first_loop = first.start().renewal;
    let mut second_loop = second.start().renewal;
    first.renewal_step(&mut first_loop, RenewalEvent::Started);
    second.renewal_step(&mut second_loop, RenewalEvent::Started);

    for round in 0..5 {
        let dispatched = campaign(&mut first, &mut first_loop, &scripts, &mut server);
        assert_eq!(dispatched, if round == 0 { Some(Transition::Elected) } else { None });
        assert_eq!(campaign(&mut second, &mut second_loop, &scripts, &mut server), None);
        assert_ne!(first.is_leader(), second.is_leader());
        server.advance(Duration::from_secs(1));
        first.renewal_step(&mut first_loop, RenewalEvent::IntervalElapsed);
        second.renewal_step(&mut second_loop, RenewalEvent::IntervalElapsed);
    }

    let leader: RedisResult<Option<String>> = second.get_leader().query(&mut server);
    match LeaderElection::<()>::get_leader_reply(leader) {
        Ok(leader) => assert_eq!(leader.as_deref(), Some(first.node_id())),
        Err(_) => panic!("the server is reachable"),
    }
}

#[test]
fn stolen_leadership_is_noticed_and_taken_back() {
    let (_runtime, conn) = idle_connection();
    let (mut server, scripts) = (Server::new(), Scripts::new());
    let mut election =
        LeaderElection::new("fence-lost", Duration::from_millis(300), conn);
    assert!(!election.fence().is_held());
    let mut renewal = election.start().renewal;
    election.renewal_step(&mut renewal, RenewalEvent::Started);
    assert_eq!(
        campaign(&mut election, &mut renewal, &scripts, &mut server),
        Some(Transition::Elected)
    );
    assert!(election.fence().is_held());

    server.steal("fence-lost", "foreign-token");
    election.renewal_step(&mut renewal, RenewalEvent::IntervalElapsed);
    assert_eq!(
        campaign(&mut election, &mut renewal, &scripts, &mut server),
        Some(Transition::Revoked)
    );
    assert_eq!(election.fence().lost(), LossWait::Resolved);

    server.entries.clear();
    election.renewal_step(&mut renewal, RenewalEvent::IntervalElapsed);
    assert_eq!(
        campaign(&mut election, &mut renewal, &scripts, &mut server),
        Some(Transition::Elected)
    );
}

#[test]
fn resignation_spares_another_leader() {
    let (_runtime, conn) = idle_connection();
    let (mut server, scripts) = (Server::new(), Scripts::new());
    let mut election =
        LeaderElection::new("resignation", Duration::from_millis(300), conn);
    let mut renewal = election.start().renewal;
    election.renewal_step(&mut renewal, RenewalEvent::Started);
    campaign(&mut election, &mut renewal, &scripts, &mut server);

    let reply: RedisResult<i32> = election.resignation(&scripts).invoke(&mut server);
    assert_eq!(reply, Ok(1));
    assert_eq!(server.holder("resignation"), None);

    server.steal("resignation", "another-node");
    let reply: RedisResult<i32> = election.resignation(&scripts).invoke(&mut server);
    assert_eq!(reply, Ok(0));
    assert!(election.resign(reply).is_ok());
    assert!(!election.is_leader());
    assert_eq!(server.holder("resignation").as_deref(), Some("another-node"));
}
