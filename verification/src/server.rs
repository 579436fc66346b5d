//! A model of the server: what it stores under its keys, and what each request of this
//! crate does to that and is answered.
//!
//! The model is the ground on which the laws of locks and elections stand. It covers the
//! two commands and the three scripts that the crate sends, on keys that hold strings.
//! Time is a number of milliseconds.
use crate::requests::{
    acquire_args, invocation_args, invocation_keys, invocation_text, lemma_scripts_differ,
    read_args, release_argv, timed_argv, CAMPAIGN_SCRIPT, RELEASE_SCRIPT, RENEW_SCRIPT,
};
use crate::text::{decimal_value, lemma_decimal_value, lemma_utf8_injective, utf8};
use vstd::prelude::*;

verus! {

/// What the server stores under a key.
pub struct Entry {
    /// The stored string.
    pub value: Seq<u8>,
    /// The last moment at which the entry exists, if it expires at all.
    pub deadline: Option<int>,
}

/// What the server stores. An expired entry may still be in the map; it counts for nothing.
pub type Store = Map<Seq<u8>, Entry>;

/// What the server answers.
pub enum Answer {
    /// Nothing: there is no such value, or nothing was done.
    Nil,
    /// Done.
    Okay,
    /// A number.
    Number(int),
    /// A string.
    Text(Seq<u8>),
    /// The request was refused.
    Refused,
}

/// The string that a key holds at a moment, if it holds one.
pub open spec fn stored(store: Store, key: Seq<u8>, now: int) -> Option<Seq<u8>> {
    if store.contains_key(key) && match store[key].deadline {
        Some(deadline) => now <= deadline,
        None => true,
    } {
        Some(store[key].value)
    } else {
        None
    }
}

/// An entry that expires the given milliseconds from now.
pub open spec fn lease(value: Seq<u8>, now: int, millis: nat) -> Entry {
    Entry { value, deadline: Some(now + millis) }
}

/// The server accepts the time to live of a new entry: it is not nothing, and the deadline
/// is in the range of the server's clock.
pub open spec fn accepts_ttl(now: int, millis: nat) -> bool {
    0 < millis && now + millis <= i64::MAX
}

/// `SET key value NX PX millis` and `GET key`.
pub open spec fn run_command(store: Store, now: int, args: Seq<Seq<u8>>) -> (Store, Answer) {
    if args.len() == 6 && args[0] == utf8("SET"@) && args[3] == utf8("NX"@) && args[4] == utf8(
        "PX"@,
    ) {
        let key = args[1];
        let millis = decimal_value(args[5]);
        if !accepts_ttl(now, millis) {
            (store, Answer::Refused)
        } else if stored(store, key, now) is Some {
            (store, Answer::Nil)
        } else {
            (store.insert(key, lease(args[2], now, millis)), Answer::Okay)
        }
    } else if args.len() == 2 && args[0] == utf8("GET"@) {
        match stored(store, args[1], now) {
            Some(value) => (store, Answer::Text(value)),
            None => (store, Answer::Nil),
        }
    } else {
        arbitrary()
    }
}

/// The release script: delete the key if it stores the token.
pub open spec fn run_release(store: Store, now: int, key: Seq<u8>, token: Seq<u8>) -> (
    Store,
    Answer,
) {
    if stored(store, key, now) == Some(token) {
        (store.remove(key), Answer::Number(1))
    } else {
        (store, Answer::Number(0))
    }
}

/// The renewal script: restart the time to live of the key if it stores the token. A time
/// to live of nothing deletes the key, and a deadline beyond the server's clock is refused.
pub open spec fn run_renew(
    store: Store,
    now: int,
    key: Seq<u8>,
    token: Seq<u8>,
    millis: nat,
) -> (Store, Answer) {
    if stored(store, key, now) == Some(token) {
        if now + millis > i64::MAX {
            (store, Answer::Refused)
        } else if millis == 0 {
            (store.remove(key), Answer::Number(1))
        } else {
            (store.insert(key, lease(token, now, millis)), Answer::Number(1))
        }
    } else {
        (store, Answer::Number(0))
    }
}

/// The campaign script: store the node id, with a fresh time to live, if the key is free or
/// stores that id already.
pub open spec fn run_campaign(
    store: Store,
    now: int,
    key: Seq<u8>,
    node_id: Seq<u8>,
    millis: nat,
) -> (Store, Answer) {
    if stored(store, key, now) is None || stored(store, key, now) == Some(node_id) {
        if !accepts_ttl(now, millis) {
            (store, Answer::Refused)
        } else {
            (store.insert(key, lease(node_id, now, millis)), Answer::Number(1))
        }
    } else {
        (store, Answer::Number(0))
    }
}

/// A script run on its keys with its arguments.
pub open spec fn run_script(
    store: Store,
    now: int,
    text: Seq<char>,
    keys: Seq<Seq<u8>>,
    argv: Seq<Seq<u8>>,
) -> (Store, Answer) {
    if text == RELEASE_SCRIPT@ {
        run_release(store, now, keys[0], argv[0])
    } else if text == RENEW_SCRIPT@ {
        run_renew(store, now, keys[0], argv[0], decimal_value(argv[1]))
    } else if text == CAMPAIGN_SCRIPT@ {
        run_campaign(store, now, keys[0], argv[0], decimal_value(argv[1]))
    } else {
        arbitrary()
    }
}

/// A prepared script invocation run on the server.
pub open spec fn run_invocation(
    store: Store,
    now: int,
    invocation: redis::ScriptInvocation<'_>,
) -> (Store, Answer) {
    run_script(
        store,
        now,
        invocation_text(invocation),
        invocation_keys(invocation),
        invocation_args(invocation),
    )
}

/// A request of this crate: each is what a lock, a guard or an election hands out to be
/// sent.
pub enum Request {
    /// Acquire a lock.
    Acquire { key: Seq<char>, token: Seq<char>, millis: nat },
    /// Renew the lease of a lock.
    Renew { key: Seq<char>, token: Seq<char>, millis: nat },
    /// Release a lock, or resign from leadership.
    Release { key: Seq<char>, token: Seq<char> },
    /// Win or keep leadership.
    Campaign { key: Seq<char>, token: Seq<char>, millis: nat },
    /// Read who leads.
    Read { key: Seq<char> },
}

impl Request {
    /// The key that the request is about.
    pub open spec fn key(self) -> Seq<char> {
        match self {
            Request::Acquire { key, .. } => key,
            Request::Renew { key, .. } => key,
            Request::Release { key, .. } => key,
            Request::Campaign { key, .. } => key,
            Request::Read { key } => key,
        }
    }

    /// Whether the request is made in the name of this token.
    pub open spec fn is_by(self, holder: Seq<char>) -> bool {
        match self {
            Request::Acquire { token, .. } => token == holder,
            Request::Renew { token, .. } => token == holder,
            Request::Release { token, .. } => token == holder,
            Request::Campaign { token, .. } => token == holder,
            Request::Read { .. } => false,
        }
    }

    /// What the request does, and what it is answered.
    #[verifier::opaque]
    pub open spec fn run(self, store: Store, now: int) -> (Store, Answer) {
        match self {
            Request::Acquire { key, token, millis } => run_command(
                store,
                now,
                acquire_args(key, token, millis),
            ),
            Request::Renew { key, token, millis } => run_script(
                store,
                now,
                RENEW_SCRIPT@,
                seq![utf8(key)],
                timed_argv(token, millis),
            ),
            Request::Release { key, token } => run_script(
                store,
                now,
                RELEASE_SCRIPT@,
                seq![utf8(key)],
                release_argv(token),
            ),
            Request::Campaign { key, token, millis } => run_script(
                store,
                now,
                CAMPAIGN_SCRIPT@,
                seq![utf8(key)],
                timed_argv(token, millis),
            ),
            Request::Read { key } => run_command(store, now, read_args(key)),
        }
    }
}

/// The reply that reaches the sender of a request that is answered with a number or refused:
/// what the server answered, or an error, be it the server's or the network's.
pub open spec fn delivers_number(answer: Answer, reply: Result<i32, redis::RedisError>) -> bool {
    match reply {
        Ok(n) => answer == Answer::Number(n as int),
        Err(_) => true,
    }
}

/// The same for a request that is answered with a string, a confirmation or nothing.
pub open spec fn delivers_text(
    answer: Answer,
    reply: Result<Option<String>, redis::RedisError>,
) -> bool {
    match reply {
        Ok(Some(text)) => match answer {
            Answer::Okay => text@ == "OK"@,
            Answer::Text(bytes) => utf8(text@) == bytes,
            _ => false,
        },
        Ok(None) => answer is Nil,
        Err(_) => true,
    }
}

/// A request that reaches the server at a moment.
pub struct Timed {
    pub at: int,
    pub request: Request,
}

/// What the server stores after a run of requests.
pub open spec fn replay(store: Store, history: Seq<Timed>) -> Store
    decreases history.len(),
{
    if history.len() == 0 {
        store
    } else {
        history.last().request.run(replay(store, history.drop_last()), history.last().at).0
    }
}

/// What the server answers to one of a run of requests.
pub open spec fn answer(store: Store, history: Seq<Timed>, i: int) -> Answer {
    history[i].request.run(replay(store, history.take(i)), history[i].at).1
}

/// Each request as an effect on the store, without the detour over the wire.
pub proof fn lemma_run(request: Request, store: Store, now: int)
    ensures
        match request {
            Request::Acquire { key, token, millis } => request.run(store, now) == (
            if !accepts_ttl(now, millis) {
                (store, Answer::Refused)
            } else if stored(store, utf8(key), now) is Some {
                (store, Answer::Nil)
            } else {
                (store.insert(utf8(key), lease(utf8(token), now, millis)), Answer::Okay)
            }),
            Request::Renew { key, token, millis } => request.run(store, now) == run_renew(
                store,
                now,
                utf8(key),
                utf8(token),
                millis,
            ),
            Request::Release { key, token } => request.run(store, now) == run_release(
                store,
                now,
                utf8(key),
                utf8(token),
            ),
            Request::Campaign { key, token, millis } => request.run(store, now) == run_campaign(
                store,
                now,
                utf8(key),
                utf8(token),
                millis,
            ),
            Request::Read { key } => request.run(store, now) == (
                store,
                match stored(store, utf8(key), now) {
                    Some(value) => Answer::Text(value),
                    None => Answer::Nil,
                },
            ),
        },
{
    reveal(Request::run);
    lemma_scripts_differ();
    match request {
        Request::Acquire { millis, .. } => {
            lemma_decimal_value(millis);
        },
        Request::Renew { millis, .. } => {
            lemma_decimal_value(millis);
        },
        Request::Campaign { millis, .. } => {
            lemma_decimal_value(millis);
        },
        _ => {},
    }
}

/// No request touches any key but its own.
pub proof fn law_requests_touch_only_their_key(
    request: Request,
    store: Store,
    now: int,
    key: Seq<char>,
)
    requires
        request.key() != key,
    ensures
        request.run(store, now).0.contains_key(utf8(key)) == store.contains_key(utf8(key)),
        store.contains_key(utf8(key)) ==> request.run(store, now).0[utf8(key)] == store[utf8(key)],
{
    lemma_run(request, store, now);
    lemma_utf8_injective(request.key(), key);
}

/// A request in the name of another token finds a live lease as it was and leaves it so, and
/// is not answered as if it had the lease.
pub proof fn law_lease_resists_others(
    request: Request,
    store: Store,
    now: int,
    key: Seq<char>,
    holder: Seq<char>,
)
    requires
        request.key() == key,
        !request.is_by(holder),
        stored(store, utf8(key), now) == Some(utf8(holder)),
    ensures
        request.run(store, now).0 == store,
        request.run(store, now).1 !is Okay,
        request.run(store, now).1 != Answer::Number(1),
{
    lemma_run(request, store, now);
    match request {
        Request::Renew { token, .. } => {
            lemma_utf8_injective(token, holder);
        },
        Request::Release { token, .. } => {
            lemma_utf8_injective(token, holder);
        },
        Request::Campaign { token, .. } => {
            lemma_utf8_injective(token, holder);
        },
        _ => {},
    }
}

/// A request that restarts the time to live of the holder's own lease.
pub open spec fn refreshes(request: Request, key: Seq<char>, holder: Seq<char>) -> bool {
    match request {
        Request::Renew { key: k, token, .. } => k == key && token == holder,
        Request::Campaign { key: k, token, .. } => k == key && token == holder,
        _ => false,
    }
}

/// The time to live that a refreshing request carries.
pub open spec fn refresh_millis(request: Request) -> nat {
    match request {
        Request::Renew { millis, .. } => millis,
        Request::Campaign { millis, .. } => millis,
        _ => 0,
    }
}

/// The deadline of a lease after a run of requests, each of which came in time: the holder's
/// last refresh sets it.
pub open spec fn deadline_after(
    deadline: int,
    history: Seq<Timed>,
    key: Seq<char>,
    holder: Seq<char>,
) -> int
    decreases history.len(),
{
    if history.len() == 0 {
        deadline
    } else if refreshes(history.last().request, key, holder) {
        history.last().at + refresh_millis(history.last().request)
    } else {
        deadline_after(deadline, history.drop_last(), key, holder)
    }
}

/// A request that does not end the holder's lease: it is about another key, or another makes
/// it, or the holder does not give the lease up by it and asks for no time to live that the
/// server does not accept.
pub open spec fn keeps_lease(timed: Timed, key: Seq<char>, holder: Seq<char>) -> bool {
    timed.request.key() == key && timed.request.is_by(holder) ==> {
        &&& timed.request !is Release
        &&& refreshes(timed.request, key, holder) ==> accepts_ttl(
            timed.at,
            refresh_millis(timed.request),
        )
    }
}

/// Every request comes before the lease has run out, and none of them ends it.
pub open spec fn lease_is_tended(
    deadline: int,
    history: Seq<Timed>,
    key: Seq<char>,
    holder: Seq<char>,
) -> bool {
    forall|i: int|
        0 <= i < history.len() ==> {
            let timed = #[trigger] history[i];
            &&& timed.at <= deadline_after(deadline, history.take(i), key, holder)
            &&& keeps_lease(timed, key, holder)
        }
}

/// One request of a tended lease's history: it finds the holder's token stored, and leaves it
/// stored, with the deadline that it sets if it refreshes the lease, and else the same; and
/// only a refresh is answered as if the lease were the sender's.
proof fn lemma_tended_request(
    store: Store,
    deadline: int,
    timed: Timed,
    key: Seq<char>,
    holder: Seq<char>,
)
    requires
        store.contains_key(utf8(key)),
        store[utf8(key)] == (Entry { value: utf8(holder), deadline: Some(deadline) }),
        timed.at <= deadline,
        keeps_lease(timed, key, holder),
    ensures
        ({
            let (after, answer) = timed.request.run(store, timed.at);
            &&& after.contains_key(utf8(key))
            &&& after[utf8(key)] == (Entry {
                value: utf8(holder),
                deadline: Some(
                    if refreshes(timed.request, key, holder) {
                        timed.at + refresh_millis(timed.request)
                    } else {
                        deadline
                    },
                ),
            })
            &&& timed.request.key() == key && !refreshes(timed.request, key, holder)
                ==> answer !is Okay && answer != Answer::Number(1)
        }),
{
    assert(stored(store, utf8(key), timed.at) == Some(utf8(holder)));
    if timed.request.key() != key {
        law_requests_touch_only_their_key(timed.request, store, timed.at, key);
    } else if !timed.request.is_by(holder) {
        law_lease_resists_others(timed.request, store, timed.at, key, holder);
    } else {
        lemma_run(timed.request, store, timed.at);
    }
}

/// A tended lease was tended all along.
proof fn lemma_tended_prefix(
    deadline: int,
    history: Seq<Timed>,
    key: Seq<char>,
    holder: Seq<char>,
)
    requires
        history.len() > 0,
        lease_is_tended(deadline, history, key, holder),
    ensures
        lease_is_tended(deadline, history.drop_last(), key, holder),
{
    let earlier = history.drop_last();
    assert forall|i: int| 0 <= i < earlier.len() implies {
        let timed = #[trigger] earlier[i];
        &&& timed.at <= deadline_after(deadline, earlier.take(i), key, holder)
        &&& keeps_lease(timed, key, holder)
    } by {
        assert(history[i] == earlier[i]);
        assert(earlier.take(i) =~= history.take(i));
    }
}

/// A tended lease lasts. As long as every request comes before the deadline that the
/// holder's last refresh has set, the server stores the holder's token, whatever others
/// send; and nothing but the holder's refreshes is answered as if the lease were the sender's.
pub proof fn law_tended_lease_lasts(
    store: Store,
    deadline: int,
    history: Seq<Timed>,
    key: Seq<char>,
    holder: Seq<char>,
)
    requires
        store.contains_key(utf8(key)),
        store[utf8(key)] == (Entry { value: utf8(holder), deadline: Some(deadline) }),
        lease_is_tended(deadline, history, key, holder),
    ensures
        replay(store, history).contains_key(utf8(key)),
        replay(store, history)[utf8(key)] == (Entry {
            value: utf8(holder),
            deadline: Some(deadline_after(deadline, history, key, holder)),
        }),
        forall|i: int|
            0 <= i < history.len() && (#[trigger] history[i]).request.key() == key && !refreshes(
                history[i].request,
                key,
                holder,
            ) ==> answer(store, history, i) !is Okay && answer(store, history, i)
                != Answer::Number(1),
    decreases history.len(),
{
    if history.len() > 0 {
        let earlier = history.drop_last();
        let last = history[history.len() - 1];
        lemma_tended_prefix(deadline, history, key, holder);
        law_tended_lease_lasts(store, deadline, earlier, key, holder);
        assert(history.take(history.len() - 1) =~= earlier);
        lemma_tended_request(
            replay(store, earlier),
            deadline_after(deadline, earlier, key, holder),
            last,
            key,
            holder,
        );
        assert forall|i: int|
            0 <= i < history.len() && (#[trigger] history[i]).request.key() == key && !refreshes(
                history[i].request,
                key,
                holder,
            ) implies answer(store, history, i) !is Okay && answer(store, history, i)
            != Answer::Number(1) by {
            if i < earlier.len() {
                assert(earlier[i] == history[i]);
                assert(earlier.take(i) =~= history.take(i));
                assert(answer(store, earlier, i) == answer(store, history, i));
            }
        }
    }
}

/// The same request again and again, each after the same pause.
pub open spec fn at_intervals(
    request: Request,
    from: int,
    interval: nat,
    count: nat,
) -> Seq<Timed> {
    Seq::new(count, |i: int| Timed { at: from + (i + 1) * interval, request })
}

/// Regular refreshes keep a lease alive past its time to live: after any number of them, each
/// sent after a pause that is no longer than the time to live, the server still stores the
/// holder's token for a whole time to live.
pub proof fn law_regular_refreshes_outlive_the_ttl(
    store: Store,
    request: Request,
    key: Seq<char>,
    holder: Seq<char>,
    from: int,
    interval: nat,
    count: nat,
)
    requires
        refreshes(request, key, holder),
        0 < refresh_millis(request),
        interval <= refresh_millis(request),
        store.contains_key(utf8(key)),
        store[utf8(key)] == lease(utf8(holder), from, refresh_millis(request)),
        from + count * interval + refresh_millis(request) <= i64::MAX,
    ensures
        replay(store, at_intervals(request, from, interval, count)).contains_key(utf8(key)),
        replay(store, at_intervals(request, from, interval, count))[utf8(key)] == lease(
            utf8(holder),
            from + count * interval,
            refresh_millis(request),
        ),
{
    let ttl = refresh_millis(request);
    let history = at_intervals(request, from, interval, count);
    assert forall|n: nat| n <= count implies #[trigger] deadline_after(
        from + ttl,
        history.take(n as int),
        key,
        holder,
    ) == from + n * interval + ttl by {
        if n > 0 {
            assert(history.take(n as int).last() == history[n - 1]);
            assert((n - 1 + 1) * interval == n * interval);
        } else {
            assert(0 * interval == 0) by (nonlinear_arith);
        }
    }
    assert forall|i: int| 0 <= i < history.len() implies {
        let timed = #[trigger] history[i];
        &&& timed.at <= deadline_after(from + ttl, history.take(i), key, holder)
        &&& keeps_lease(timed, key, holder)
    } by {
        let n = i as nat;
        assert(deadline_after(from + ttl, history.take(n as int), key, holder) == from + n
            * interval + ttl);
        assert((i + 1) * interval == i * interval + interval) by (nonlinear_arith);
        assert((i + 1) * interval <= count * interval) by (nonlinear_arith)
            requires
                i + 1 <= count,
        ;
    }
    assert(history.take(count as int) =~= history);
    law_tended_lease_lasts(store, from + ttl, history, key, holder);
}

} // verus!
