use ipset_daemon::gate::Gate;

#[test]
fn new_gate_is_empty() {
    let g = Gate::new(3);
    assert_eq!(g.active(), 0);
    assert_eq!(g.limit(), 3);
    assert!(g.has_room());
}

#[test]
fn gate_admits_up_to_limit_then_refuses() {
    let mut g = Gate::new(2);
    assert!(g.try_acquire());
    assert!(g.try_acquire());
    assert_eq!(g.active(), 2);
    assert!(!g.has_room());
    assert!(!g.try_acquire());
    assert_eq!(g.active(), 2);
}

#[test]
fn release_restores_count_before_acquire() {
    let mut g = Gate::new(4);
    assert!(g.try_acquire());
    let before = g.active();
    assert!(g.try_acquire());
    g.release();
    assert_eq!(g.active(), before);
    g.release();
    assert_eq!(g.active(), 0);
}

#[test]
fn limit_one_serves_one_after_another() {
    let mut g = Gate::new(1);
    assert!(g.try_acquire());
    assert!(!g.try_acquire());
    g.release();
    assert!(g.try_acquire());
    assert_eq!(g.active(), 1);
}

#[test]
fn limit_zero_admits_nothing() {
    let mut g = Gate::new(0);
    assert!(!g.try_acquire());
    assert_eq!(g.active(), 0);
}
