# armature-distributed

Distributed locks and leader election on a Redis server, with their decisions verified in
Verus.

## What it does

- **Locks.** A lock is a key that stores a random token for a time to live. It is acquired only
  while the key is free, kept alive by a watchdog that renews it at a third of its time to live,
  and given back only while the key still stores the same token.
- **Leader election.** A node leads while the key stores its id. It campaigns at a third of the
  time to live, and the changes of leadership are reported to callbacks that never hold up the
  next round.
- **Fencing.** A lock guard and an election both tell whether their lease is believed held, and
  let callers wait for its loss without missing it.

## Layout

| Where | What |
| --- | --- |
| `src/lock.rs` | locks, guards and their watchdog |
| `src/leader.rs` | elections and their renewal loop |
| `src/fence.rs` | the flag and the wake-ups behind fencing |
| `src/requests.rs` | the commands and scripts that are sent to the server |
| `src/duration.rs`, `src/text.rs` | time to live and pause, text on the wire, random tokens |
| `src/server.rs` | a model of the server, for proofs only |
| `src/lock_laws.rs`, `src/leader_laws.rs` | what holds of locks and elections as a whole |
| `app/` | the Tokio side: connections, tasks, sleeps, callbacks, logging |
| `tests/` | tests of the library, some of them against a server in memory |

The library decides and never acts. It hands out requests and takes replies; it says what a
watchdog or a renewal loop does next and takes what happened. `app/` does the rest.

## What is proved

Every function of the library states what it returns and changes. From these contracts and the
model of the server follow, among others:

- no two holders: while a lease is tended, no other attempt gets the lock, and no other node comes
  to believe that it leads;
- a release or a resignation never takes a lease from another holder;
- renewals keep a lease alive past its time to live;
- a guard counts as lost exactly when a renewal was refuted or three in a row have failed, and
  the pauses before three failures fit into the time to live;
- no loss goes by without a wake-up, and no waiter misses one;
- the callbacks of an election take turns.

What is taken on trust is the behaviour of the `redis`, `uuid` and standard library functions
that the library calls; each has its contract, and what it claims, in one place.
