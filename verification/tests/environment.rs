use dig::Container;
use dig::Environment;
use dig::Grabber;

/// Volumes and times in these tests are written as real numbers and measured
/// in thousandths of a unit.
fn units(x: f64) -> u64 {
    (x * 1000.0) as u64
}

#[test]
fn take_from_container() {
    let mut a = Container(units(10.0));
    a.take(units(2.0));
    assert_eq!(a.0, units(8.0));
}

#[test]
fn test_environment() {
    let mut env = Environment::new();
    let a = env.add_container(Container(units(10.0)));
    let b = env.add_container(Container(units(0.0)));
    let ab = env.add_grabber(Grabber {
        source: a,
        target: b,
        time: units(1.0),
        volume: units(2.0),
    });
    assert_eq!(env.volume_of_container(a), units(10.0));
    assert!(env.grab(ab).is_ok());
    assert_eq!(env.volume_of_container(a), units(8.0));
    assert!(env.grab(ab).is_err());
    assert_eq!(env.volume_of_container(a), units(8.0));
    env.update(units(0.5));
    assert!(env.grab(ab).is_err());
    env.update(units(0.5));
    assert!(env.grab(ab).is_ok());
    assert_eq!(env.volume_of_container(a), units(6.0));
}

#[test]
fn test_environment_remainder() {
    let mut env = Environment::new();
    let a = env.add_container(Container(units(1.0)));
    let b = env.add_container(Container(units(0.0)));
    let ab = env.add_grabber(Grabber {
        source: a,
        target: b,
        time: units(1.0),
        volume: units(2.0),
    });
    assert_eq!(env.volume_of_container(a), units(1.0));
    assert!(env.grab(ab).is_ok());
    assert_eq!(env.volume_of_container(a), units(0.0));
    assert_eq!(env.volume_of_container(b), units(0.0));
    env.update(units(0.5));
    assert_eq!(env.volume_of_container(b), units(0.0));
    env.update(units(0.5));
    assert_eq!(env.volume_of_container(b), units(1.0));
}

#[test]
fn test_environment_chain() {
    let mut env = Environment::new();
    let a = env.add_container(Container(units(1.0)));
    let b = env.add_container(Container(units(0.0)));
    let c = env.add_container(Container(units(0.0)));
    let ab = env.add_grabber(Grabber {
        source: a,
        target: b,
        time: units(1.0),
        volume: units(1.0),
    });
    let bc = env.add_grabber(Grabber {
        source: b,
        target: c,
        time: units(1.0),
        volume: units(1.0),
    });
    assert!(env.grab(ab).is_ok());

    env.update(units(1.0));
    assert_eq!(env.volume_of_container(a), units(0.0));
    assert_eq!(env.volume_of_container(b), units(1.0));
    assert_eq!(env.volume_of_container(c), units(0.0));

    assert!(env.grab(bc).is_ok());

    env.update(units(1.0));
    assert_eq!(env.volume_of_container(a), units(0.0));
    assert_eq!(env.volume_of_container(b), units(0.0));
    assert_eq!(env.volume_of_container(c), units(1.0));
}
