//! Distributed locks and leader election on a Redis server.
//!
//! - **Locks** ([`lock`]): leases that are guarded by a random token and kept alive by a
//!   watchdog.
//! - **Leader election** ([`leader`]): one leader among any number of nodes, with callbacks
//!   for the changes of leadership.
//! - **Fencing** ([`fence`]): whoever works under a lease can see, and wait for, its loss.
//!
//! The crate decides and never acts: it hands out the [`requests`] to send and takes the
//! replies, says what to do next and takes what happened. What it decides is stated in
//! contracts. What follows from them for locks and elections as a whole, against a model of
//! the [`server`], is stated and proved in [`lock_laws`] and [`leader_laws`]; what each single
//! call comes to, in [`lock_calls`] and [`leader_calls`].
pub mod duration;
pub mod fence;
pub mod leader;
pub mod leader_calls;
pub mod leader_laws;
pub mod lock;
pub mod lock_calls;
pub mod lock_laws;
pub mod requests;
pub mod server;
pub mod text;

pub use fence::LossWait;
pub use leader::{LeaderElection, LeaderElectionBuilder, LeaderError, LeaderFence};
pub use lock::{LockBuilder, LockError, LockGuard, RedisLock};
pub use requests::Scripts;
