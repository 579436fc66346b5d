//! The fence: a flag that says whether a lease is still held, and the wake-ups owed to
//! those who wait for its loss.
//!
//! A waiter first registers with the notifier that the fence's owner runs, and only then
//! looks at the flag. Whoever changes the flag wakes every registered waiter whenever the
//! fence says that a wake-up is due. The laws at the end say why no loss slips through
//! between the look and the wait.
use vstd::prelude::*;

verus! {

/// A change of a fence.
pub enum FenceChange {
    /// The lease is lost, whatever was believed before.
    Lost,
    /// The lease is lost if it was believed held.
    LostIfHeld,
    /// The lease is held.
    Held,
}

/// Whether the lease counts as held after a change.
pub open spec fn held_after(change: FenceChange) -> bool {
    change is Held
}

/// Whether a change, made while the lease counts as `held`, wakes the waiters.
pub open spec fn wakes(held: bool, change: FenceChange) -> bool {
    match change {
        FenceChange::Lost => true,
        FenceChange::LostIfHeld => held,
        FenceChange::Held => false,
    }
}

/// What a waiter that has registered with the notifier finds at the fence.
#[derive(Debug, Clone, Copy, PartialEq, Eq, Structural)]
pub enum LossWait {
    /// The lease is lost: there is nothing to wait for.
    Resolved,
    /// The lease is held: the next wake-up resolves the wait.
    Pending,
}

/// Whether a lease is believed held, and whether its waiters are owed a wake-up.
pub struct Fence {
    held: bool,
    wake_due: bool,
}

impl Fence {
    /// Whether the lease is believed held.
    pub closed spec fn held(&self) -> bool {
        self.held
    }

    /// Whether the waiters are owed a wake-up.
    pub closed spec fn wake_due(&self) -> bool {
        self.wake_due
    }

    /// A fence around a lease that is held, or not, to begin with.
    pub fn new(initially_held: bool) -> (fence: Fence)
        ensures
            fence.held() == initially_held,
            !fence.wake_due(),
    {
        Fence { held: initially_held, wake_due: false }
    }

    /// Whether the lease is believed held.
    pub fn is_held(&self) -> (held: bool)
        ensures
            held == self.held(),
        no_unwind
    {
        self.held
    }

    /// Marks the lease lost; the waiters are to be woken.
    pub fn mark_lost(&mut self)
        ensures
            final(self).held() == held_after(FenceChange::Lost),
            final(self).wake_due() == (old(self).wake_due() || wakes(
                old(self).held(),
                FenceChange::Lost,
            )),
        no_unwind
    {
        self.held = false;
        self.wake_due = true;
    }

    /// Marks the lease lost if it was held, and says whether it was; only then the waiters
    /// are to be woken.
    pub fn mark_lost_if_held(&mut self) -> (was_held: bool)
        ensures
            was_held == old(self).held(),
            final(self).held() == held_after(FenceChange::LostIfHeld),
            final(self).wake_due() == (old(self).wake_due() || wakes(
                old(self).held(),
                FenceChange::LostIfHeld,
            )),
        no_unwind
    {
        let was_held = self.held;
        self.held = false;
        if was_held {
            self.wake_due = true;
        }
        was_held
    }

    /// Marks the lease held. Nobody waits for that, so nobody is woken.
    pub fn mark_held(&mut self)
        ensures
            final(self).held() == held_after(FenceChange::Held),
            final(self).wake_due() == (old(self).wake_due() || wakes(
                old(self).held(),
                FenceChange::Held,
            )),
        no_unwind
    {
        self.held = true;
    }

    /// Takes the wake-up that the waiters are owed, if there is one.
    pub fn take_wake(&mut self) -> (due: bool)
        ensures
            due == old(self).wake_due(),
            !final(self).wake_due(),
            final(self).held() == old(self).held(),
        no_unwind
    {
        let due = self.wake_due;
        self.wake_due = false;
        due
    }

    /// What a registered waiter finds: a lease that is already lost resolves the wait at
    /// once, and one that is held leaves it pending.
    pub fn lost(&self) -> (wait: LossWait)
        ensures
            wait == (if self.held() {
                LossWait::Pending
            } else {
                LossWait::Resolved
            }),
    {
        if self.held {
            LossWait::Pending
        } else {
            LossWait::Resolved
        }
    }
}

/// Whether the lease counts as held after a run of changes.
pub open spec fn held_through(held: bool, changes: Seq<FenceChange>) -> bool {
    if changes.len() == 0 {
        held
    } else {
        held_after(changes.last())
    }
}

/// Whether one of a run of changes wakes the waiters.
pub open spec fn woken_during(held: bool, changes: Seq<FenceChange>) -> bool {
    exists|i: int|
        0 <= i < changes.len() && wakes(
            held_through(held, changes.take(i)),
            #[trigger] changes[i],
        )
}

/// Whether a wait has resolved. The waiter registered while the lease counted as `held`;
/// the changes `before` came between that and its look at the flag, those `after` since.
pub open spec fn wait_resolved(
    held: bool,
    before: Seq<FenceChange>,
    after: Seq<FenceChange>,
) -> bool {
    !held_through(held, before) || woken_during(held, before + after)
}

/// A lease that is lost at the moment of the look resolves the wait at once; and a loss at
/// any moment after the registration resolves it too, be it before the look or after it,
/// whatever else happens to the fence in between.
pub proof fn law_no_loss_is_missed(
    held: bool,
    before: Seq<FenceChange>,
    after: Seq<FenceChange>,
)
    ensures
        !held_through(held, before) ==> wait_resolved(held, before, Seq::empty()),
        (exists|i: int|
            0 <= i < (before + after).len() && held_through(held, (before + after).take(i))
                && !#[trigger] held_through(held, (before + after).take(i + 1)))
            ==> wait_resolved(held, before, after),
{
    let all = before + after;
    if exists|i: int|
        0 <= i < all.len() && held_through(held, all.take(i)) && !#[trigger] held_through(
            held,
            all.take(i + 1),
        ) {
        let i = choose|i: int|
            0 <= i < all.len() && held_through(held, all.take(i)) && !#[trigger] held_through(
                held,
                all.take(i + 1),
            );
        assert(all.take(i + 1).drop_last() =~= all.take(i));
        assert(all.take(i + 1).last() == all[i]);
        assert(wakes(held_through(held, all.take(i)), all[i]));
    }
}

/// No wait resolves for nothing: if it has resolved, the lease counted as lost at some
/// moment since the registration.
pub proof fn law_no_wait_resolves_for_nothing(
    held: bool,
    before: Seq<FenceChange>,
    after: Seq<FenceChange>,
)
    requires
        wait_resolved(held, before, after),
    ensures
        exists|i: int|
            0 <= i <= (before + after).len() && !#[trigger] held_through(
                held,
                (before + after).take(i),
            ),
{
    let all = before + after;
    if !held_through(held, before) {
        assert(all.take(before.len() as int) =~= before);
    } else {
        let i = choose|i: int|
            0 <= i < all.len() && wakes(held_through(held, all.take(i)), #[trigger] all[i]);
        assert(all.take(i + 1).drop_last() =~= all.take(i));
        assert(all.take(i + 1).last() == all[i]);
        assert(!held_through(held, all.take(i + 1)));
    }
}

/// A new fence stands as it is told, and owes nobody a wake-up; and a look at any fence says
/// whether the lease counts as held, to those who ask and to those who wait.
pub proof fn law_fence_shows_the_belief(
    initially_held: bool,
    fresh: Fence,
    fence: Fence,
    held: bool,
    wait: LossWait,
)
    requires
        call_ensures(Fence::new, (initially_held,), fresh),
        call_ensures(Fence::is_held, (&fence,), held),
        call_ensures(Fence::lost, (&fence,), wait),
    ensures
        fresh.held() == initially_held,
        !fresh.wake_due(),
        held == fence.held(),
        wait == LossWait::Pending <==> held,
        wait == LossWait::Resolved <==> !held,
{
}

/// Only a change to held leaves the lease held; and only a loss wakes the waiters: any that is
/// told outright, and of those that are told of a held lease, the ones that find it held.
pub proof fn law_only_losses_wake(held: bool, change: FenceChange)
    ensures
        held_after(change) <==> change is Held,
        wakes(held, change) <==> change is Lost || (change is LostIfHeld && held),
{
}

/// Marking a lease lost always wakes the waiters; marking it lost if held wakes them only if it
/// was, and says so; marking it held wakes nobody. A wake-up stays due until it is taken, and
/// taking it leaves the belief alone.
pub proof fn law_marks_do_what_they_say(
    lost: &mut Fence,
    lost_if_held: &mut Fence,
    was_held: bool,
    held: &mut Fence,
    taken: &mut Fence,
    due: bool,
)
    requires
        call_ensures(Fence::mark_lost, (lost,), ()),
        call_ensures(Fence::mark_lost_if_held, (lost_if_held,), was_held),
        call_ensures(Fence::mark_held, (held,), ()),
        call_ensures(Fence::take_wake, (taken,), due),
    ensures
        !final(lost).held() && final(lost).wake_due(),
        !final(lost_if_held).held(),
        was_held == old(lost_if_held).held(),
        final(lost_if_held).wake_due() <==> old(lost_if_held).wake_due() || was_held,
        final(held).held(),
        final(held).wake_due() == old(held).wake_due(),
        final(taken).held() == old(taken).held(),
        due == old(taken).wake_due(),
        !final(taken).wake_due(),
{
}

} // verus!
