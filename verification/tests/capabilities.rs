use jiji_do::capabilities::{Capabilities, Flag};

#[test]
fn contains_is_subset_check() {
    let caps = Capabilities::niri_socket().union(Capabilities::fuzzel());
    assert!(caps.contains(Capabilities::niri_socket()));
    assert!(caps.contains(Capabilities::niri_socket().union(Capabilities::fuzzel())));
    assert!(!caps.contains(Capabilities::fork()));
    assert!(!caps.contains(Capabilities::niri_socket().union(Capabilities::fork())));
}

#[test]
fn empty_satisfies_nothing_but_empty() {
    let caps = Capabilities::empty();
    assert!(caps.contains(Capabilities::empty()));
    assert!(!caps.contains(Capabilities::fuzzel()));
}

#[test]
fn probe_sets_each_flag_from_its_own_probe() {
    let c = Capabilities::probe(true, true, true, true, true, true);
    assert_eq!(c.bits(), Capabilities::all().bits());
    let c = Capabilities::probe(true, true, false, false, false, true);
    assert!(c.has_flag(Flag::NiriSocket));
    assert!(!c.has_flag(Flag::Fuzzel));
    assert!(!c.has_flag(Flag::Fork));
    assert!(!c.has_flag(Flag::NiriActivities));
}

#[test]
fn probe_detects_the_fork_only_through_a_reachable_socket() {
    // The activities request answering is meaningless without the socket.
    let c = Capabilities::probe(false, true, true, true, true, true);
    assert!(!c.has_flag(Flag::NiriSocket));
    assert!(!c.has_flag(Flag::Fork));
    assert!(c.has_flag(Flag::NiriActivities));
    let c = Capabilities::probe(true, false, false, true, false, false);
    assert!(!c.has_flag(Flag::Fork));
}

#[test]
fn union_and_difference_are_set_operations() {
    let a = Capabilities::niri_socket().union(Capabilities::fork());
    let b = Capabilities::fork().union(Capabilities::fuzzel());
    assert_eq!(a.union(b).bits(), 0b0111);
    assert_eq!(a.difference(b).bits(), 0b0001);
    assert!(a.difference(a).is_empty());
    assert_eq!(Capabilities::from_bits_truncate(0xff).bits(), 0x0f);
}

#[test]
fn debug_text_names_flags_in_declaration_order() {
    let caps = Capabilities::fuzzel().union(Capabilities::niri_socket());
    assert_eq!(caps.debug_text(), "Capabilities(NIRI_SOCKET | FUZZEL)");
    assert_eq!(Capabilities::empty().debug_text(), "Capabilities(0x0)");
    assert_eq!(
        Capabilities::all().debug_text(),
        "Capabilities(NIRI_SOCKET | FUZZEL | FORK | NIRI_ACTIVITIES)"
    );
}
