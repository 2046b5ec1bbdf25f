use dig::Container;
use dig::Environment;
use dig::Grabber;

#[test]
fn take_when_capacity_covers_content() {
    let mut a = Container(7);
    let taken = a.take(12);
    assert_eq!(taken, 7);
    assert_eq!(a.0, 0);
}

#[test]
fn take_exactly_the_content() {
    let mut a = Container(12);
    let taken = a.take(12);
    assert_eq!(taken, 12);
    assert_eq!(a.0, 0);
}

#[test]
fn take_less_than_the_content() {
    let mut a = Container(12);
    let taken = a.take(7);
    assert_eq!(taken, 7);
    assert_eq!(a.0, 5);
}

#[test]
fn take_from_empty_container() {
    let mut a = Container(0);
    let taken = a.take(5);
    assert_eq!(taken, 0);
    assert_eq!(a.0, 0);
}

#[test]
fn put_adds_volume() {
    let mut a = Container(3);
    a.put(4);
    assert_eq!(a.0, 7);
}

#[test]
fn put_up_to_the_limit() {
    let mut a = Container(u64::MAX - 3);
    a.put(3);
    assert_eq!(a.0, u64::MAX);
}

#[test]
fn handles_equal_insertion_indices() {
    let mut env = Environment::new();
    let a = env.add_container(Container(1));
    let b = env.add_container(Container(2));
    let g0 = env.add_grabber(Grabber { source: a, target: b, time: 1, volume: 1 });
    let g1 = env.add_grabber(Grabber { source: b, target: a, time: 1, volume: 1 });
    assert_eq!(a.0, 0);
    assert_eq!(b.0, 1);
    assert_eq!(g0.0, 0);
    assert_eq!(g1.0, 1);
}

#[test]
fn busy_grabber_leaves_state_unchanged() {
    let mut env = Environment::new();
    let a = env.add_container(Container(10));
    let b = env.add_container(Container(0));
    let ab = env.add_grabber(Grabber { source: a, target: b, time: 4, volume: 3 });
    assert!(env.grab(ab).is_ok());
    assert_eq!(env.volume_of_container(a), 7);
    for _ in 0..5 {
        assert!(env.grab(ab).is_err());
        assert_eq!(env.volume_of_container(a), 7);
        assert_eq!(env.volume_of_container(b), 0);
    }
    env.update(3);
    assert!(env.grab(ab).is_err());
    env.update(1);
    assert!(env.grab(ab).is_ok());
}

#[test]
fn no_deposit_before_the_duration_elapses() {
    let mut env = Environment::new();
    let a = env.add_container(Container(10));
    let b = env.add_container(Container(0));
    let ab = env.add_grabber(Grabber { source: a, target: b, time: 10, volume: 10 });
    assert!(env.grab(ab).is_ok());
    env.update(3);
    env.update(3);
    env.update(3);
    assert_eq!(env.volume_of_container(b), 0);
    env.update(1);
    assert_eq!(env.volume_of_container(b), 10);
}

#[test]
fn conservation_over_a_full_cycle() {
    let mut env = Environment::new();
    let a = env.add_container(Container(6));
    let b = env.add_container(Container(11));
    let ab = env.add_grabber(Grabber { source: a, target: b, time: 2, volume: 9 });
    assert!(env.grab(ab).is_ok());
    env.update(2);
    assert_eq!(env.volume_of_container(a), 0);
    assert_eq!(env.volume_of_container(b), 17);
}

#[test]
fn overshoot_is_discarded() {
    let mut env = Environment::new();
    let a = env.add_container(Container(10));
    let b = env.add_container(Container(0));
    let ab = env.add_grabber(Grabber { source: a, target: b, time: 2, volume: 1 });
    assert!(env.grab(ab).is_ok());
    env.update(100);
    assert_eq!(env.volume_of_container(b), 1);
    assert!(env.grab(ab).is_ok());
    env.update(1);
    assert_eq!(env.volume_of_container(b), 1);
    env.update(1);
    assert_eq!(env.volume_of_container(b), 2);
}

#[test]
fn idle_grabber_is_unaffected_by_updates() {
    let mut env = Environment::new();
    let a = env.add_container(Container(5));
    let b = env.add_container(Container(0));
    let _ab = env.add_grabber(Grabber { source: a, target: b, time: 3, volume: 2 });
    env.update(7);
    env.update(7);
    assert_eq!(env.volume_of_container(a), 5);
    assert_eq!(env.volume_of_container(b), 0);
}

#[test]
fn update_on_empty_environment() {
    let mut env = Environment::new();
    env.update(5);
    let a = env.add_container(Container(2));
    assert_eq!(env.volume_of_container(a), 2);
}

#[test]
fn zero_capacity_grabber_moves_nothing() {
    let mut env = Environment::new();
    let a = env.add_container(Container(5));
    let b = env.add_container(Container(0));
    let ab = env.add_grabber(Grabber { source: a, target: b, time: 2, volume: 0 });
    assert!(env.grab(ab).is_ok());
    assert_eq!(env.volume_of_container(a), 5);
    env.update(2);
    assert_eq!(env.volume_of_container(a), 5);
    assert_eq!(env.volume_of_container(b), 0);
}

#[test]
fn grabber_with_equal_source_and_target() {
    let mut env = Environment::new();
    let a = env.add_container(Container(5));
    let aa = env.add_grabber(Grabber { source: a, target: a, time: 2, volume: 9 });
    assert!(env.grab(aa).is_ok());
    assert_eq!(env.volume_of_container(a), 0);
    env.update(2);
    assert_eq!(env.volume_of_container(a), 5);
}

#[test]
fn zero_duration_grabber_is_idle_at_once() {
    let mut env = Environment::new();
    let a = env.add_container(Container(10));
    let b = env.add_container(Container(0));
    let ab = env.add_grabber(Grabber { source: a, target: b, time: 0, volume: 2 });
    assert!(env.grab(ab).is_ok());
    assert_eq!(env.volume_of_container(a), 8);
    assert!(env.grab(ab).is_ok());
    assert_eq!(env.volume_of_container(a), 6);
    env.update(0);
    assert_eq!(env.volume_of_container(b), 2);
}

#[test]
fn two_grabbers_sharing_a_target() {
    let mut env = Environment::new();
    let a = env.add_container(Container(4));
    let b = env.add_container(Container(6));
    let c = env.add_container(Container(0));
    let ac = env.add_grabber(Grabber { source: a, target: c, time: 1, volume: 4 });
    let bc = env.add_grabber(Grabber { source: b, target: c, time: 1, volume: 6 });
    assert!(env.grab(ac).is_ok());
    assert!(env.grab(bc).is_ok());
    env.update(1);
    assert_eq!(env.volume_of_container(a), 0);
    assert_eq!(env.volume_of_container(b), 0);
    assert_eq!(env.volume_of_container(c), 10);
}
