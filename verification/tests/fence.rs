use armature_distributed::fence::Fence;
use armature_distributed::LossWait;

#[test]
fn fence_begins_as_told() {
    assert!(Fence::new(true).is_held());
    assert!(!Fence::new(false).is_held());
    assert!(!Fence::new(true).take_wake());
}

#[test]
fn marking_lost_always_wakes() {
    let mut fence = Fence::new(false);
    fence.mark_lost();
    assert!(!fence.is_held());
    assert!(fence.take_wake());
    assert!(!fence.take_wake());
}

#[test]
fn marking_lost_if_held_wakes_once() {
    let mut fence = Fence::new(true);
    assert!(fence.mark_lost_if_held());
    assert!(fence.take_wake());
    assert!(!fence.mark_lost_if_held());
    assert!(!fence.take_wake());
}

#[test]
fn marking_held_wakes_nobody_and_forgets_no_wake_up() {
    let mut fence = Fence::new(false);
    fence.mark_held();
    assert!(fence.is_held());
    assert!(!fence.take_wake());

    fence.mark_lost();
    fence.mark_held();
    assert!(fence.is_held());
    assert!(fence.take_wake());
}

#[test]
fn a_wait_for_the_loss_of_a_lost_lease_resolves_at_once() {
    let mut fence = Fence::new(true);
    assert_eq!(fence.lost(), LossWait::Pending);
    fence.mark_lost();
    assert_eq!(fence.lost(), LossWait::Resolved);
}
