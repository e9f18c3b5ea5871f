use paranoia::resolution::Resolution;

#[test]
fn new_resolution_is_open() {
    assert_eq!(Resolution::new().verdict(), None);
}

#[test]
fn null_address_is_absence() {
    let mut resolution = Resolution::new();
    assert!(!resolution.record(0));
    assert_eq!(resolution.verdict(), Some(false));
}

#[test]
fn any_other_address_is_presence() {
    for address in [1usize, 0x1000, 0x7fff_dead_b000, usize::MAX] {
        let mut resolution = Resolution::new();
        assert!(resolution.record(address));
        assert_eq!(resolution.verdict(), Some(true));
    }
}

#[test]
fn first_absence_is_kept() {
    let mut resolution = Resolution::new();
    assert!(!resolution.record(0));
    assert!(!resolution.record(0x1000));
    assert!(!resolution.record(usize::MAX));
    assert_eq!(resolution.verdict(), Some(false));
}

#[test]
fn first_presence_is_kept() {
    let mut resolution = Resolution::new();
    assert!(resolution.record(0x1000));
    assert!(resolution.record(0));
    assert!(resolution.record(0));
    assert_eq!(resolution.verdict(), Some(true));
}

#[test]
fn copies_resolve_apart() {
    let mut first = Resolution::new();
    let mut second = first;
    assert!(first.record(8));
    assert_eq!(second.verdict(), None);
    assert!(!second.record(0));
    assert_eq!(first.verdict(), Some(true));
}
