use platformer::time::{tick_cooldown, Cooldown, CooldownAction, Timer, TimerMode};

#[test]
fn once_timer_crosses_exactly_once() {
    let mut t = Timer::new(100, TimerMode::Once);
    assert!(!t.finished());
    t.tick(60);
    assert!(!t.just_finished());
    assert!(!t.finished());
    t.tick(60);
    assert!(t.just_finished());
    assert!(t.finished());
    // Stays finished, but only reported the tick it crossed.
    t.tick(60);
    assert!(!t.just_finished());
    assert!(t.finished());
}

#[test]
fn repeating_timer_wraps() {
    let mut t = Timer::new(100, TimerMode::Repeating);
    t.tick(250);
    assert!(t.just_finished());
    assert_eq!(t.elapsed_ms, 50);
    t.tick(40);
    assert!(!t.just_finished());
    assert_eq!(t.elapsed_ms, 90);
    t.tick(10);
    assert!(t.just_finished());
    assert_eq!(t.elapsed_ms, 0);
}

#[test]
fn reset_and_set_duration() {
    let mut t = Timer::new(100, TimerMode::Repeating);
    t.tick(70);
    t.set_duration(90);
    assert_eq!(t.duration_ms, 90);
    assert_eq!(t.elapsed_ms, 70);
    t.reset();
    assert_eq!(t.elapsed_ms, 0);
    assert!(!t.just_finished());
}

#[test]
fn cooldown_builders() {
    let plain = Cooldown::new(110);
    assert_eq!(plain.action, None);
    let removing = Cooldown::new(110).remove_component();
    assert_eq!(removing.action, Some(CooldownAction::RemoveComponent));
    let despawning = Cooldown::new(110).despawn();
    assert_eq!(despawning.action, Some(CooldownAction::DespawnRecursive));
}

#[test]
fn cooldown_fires_once_with_its_action() {
    let mut c = Cooldown::new(100).remove_component();
    assert_eq!(tick_cooldown(&mut c, 99), None);
    assert_eq!(
        tick_cooldown(&mut c, 1),
        Some(Some(CooldownAction::RemoveComponent))
    );
    // Already expired: never fires again.
    assert_eq!(tick_cooldown(&mut c, 500), None);

    let mut bare = Cooldown::new(50);
    assert_eq!(tick_cooldown(&mut bare, 80), Some(None));
}
