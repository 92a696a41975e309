use tick_id::TickId;

#[test]
fn new_then_value_keeps_every_edge() {
    for v in [0u32, 1, 42, 0x7FFF_FFFF, 0x8000_0000, u32::MAX - 1, u32::MAX] {
        assert_eq!(TickId::new(v).value(), v);
        assert_eq!(TickId::new(v), TickId(v));
    }
}

#[test]
fn default_is_the_first_tick() {
    assert_eq!(TickId::default(), TickId::new(0));
}

#[test]
fn add_is_exact() {
    assert_eq!(TickId::new(42).add(99).value(), 141);
    assert_eq!(TickId::new(0).add(0).value(), 0);
    assert_eq!(TickId::new(7).add(0).value(), 7);
    assert_eq!(TickId::new(0).add(7).value(), 7);
}

#[test]
fn add_reaches_the_maximum() {
    assert_eq!(TickId::new(u32::MAX - 1).add(1).value(), u32::MAX);
    assert_eq!(TickId::new(0).add(u32::MAX).value(), u32::MAX);
    assert_eq!(TickId::new(u32::MAX).add(0).value(), u32::MAX);
    assert_eq!((TickId::new(u32::MAX - 1) + 1).value(), u32::MAX);
}

#[test]
fn subtract_is_exact() {
    assert_eq!(TickId::new(12414).subtract(1144).value(), 11270);
    assert_eq!(TickId::new(7).subtract(0).value(), 7);
    assert_eq!((TickId::new(12414) - 1144u32).value(), 11270);
}

#[test]
fn subtract_reaches_zero() {
    assert_eq!(TickId::new(1144).subtract(1144).value(), 0);
    assert_eq!(TickId::new(u32::MAX).subtract(u32::MAX).value(), 0);
    assert_eq!(TickId::new(0).subtract(0).value(), 0);
}

#[test]
fn checked_add_is_none_past_the_maximum() {
    assert_eq!(TickId::new(u32::MAX).checked_add(1), None);
    assert_eq!(TickId::new(1).checked_add(u32::MAX), None);
    assert_eq!(TickId::new(u32::MAX).checked_add(u32::MAX), None);
    assert_eq!(TickId::new(0x8000_0000).checked_add(0x8000_0000), None);
}

#[test]
fn checked_add_is_some_up_to_the_maximum() {
    assert_eq!(TickId::new(u32::MAX - 1).checked_add(1), Some(TickId(u32::MAX)));
    assert_eq!(TickId::new(u32::MAX).checked_add(0), Some(TickId(u32::MAX)));
    assert_eq!(TickId::new(42).checked_add(99), Some(TickId(141)));
    assert_eq!(TickId::new(0x7FFF_FFFF).checked_add(0x8000_0000), Some(TickId(u32::MAX)));
}

#[test]
fn checked_subtract_is_none_below_zero() {
    assert_eq!(TickId::new(0).checked_subtract(1), None);
    assert_eq!(TickId::new(1144).checked_subtract(1145), None);
    assert_eq!(TickId::new(u32::MAX - 1).checked_subtract(u32::MAX), None);
}

#[test]
fn checked_subtract_is_some_down_to_zero() {
    assert_eq!(TickId::new(1144).checked_subtract(1144), Some(TickId(0)));
    assert_eq!(TickId::new(0).checked_subtract(0), Some(TickId(0)));
    assert_eq!(TickId::new(12414).checked_subtract(1144), Some(TickId(11270)));
}

#[test]
fn add_assign_matches_add() {
    for (start, delta) in [(1144u32, 1u32), (0, 0), (0, u32::MAX), (u32::MAX - 5, 5)] {
        let mut in_place = TickId::new(start);
        in_place.add_assign(delta);
        assert_eq!(in_place, TickId::new(start).add(delta));

        let mut by_operator = TickId::new(start);
        by_operator += delta;
        assert_eq!(by_operator, in_place);
    }
    let mut x = TickId::new(1144);
    x.add_assign(1);
    assert_eq!(x.value(), 1145);
}

#[test]
fn subtract_assign_matches_subtract() {
    for (start, delta) in [(1144u32, 1u32), (0, 0), (u32::MAX, u32::MAX), (5, 5)] {
        let mut in_place = TickId::new(start);
        in_place.subtract_assign(delta);
        assert_eq!(in_place, TickId::new(start).subtract(delta));

        let mut by_operator = TickId::new(start);
        by_operator -= delta;
        assert_eq!(by_operator, in_place);
    }
    let mut x = TickId::new(1144);
    x.subtract_assign(1);
    assert_eq!(x.value(), 1143);
}

#[test]
fn add_then_subtract_leads_back() {
    let tick = TickId::new(500);
    assert_eq!(tick.add(77).subtract(77), tick);
    assert_eq!(tick.subtract(77).add(77), tick);
}

#[test]
fn difference_is_signed_and_untruncated() {
    assert_eq!(TickId::new(0).difference(TickId::new(u32::MAX)), -4294967295);
    assert_eq!(TickId::new(u32::MAX).difference(TickId::new(0)), 4294967295);
    assert_eq!(TickId::new(12414).difference(TickId::new(1144)), 11270);
    assert_eq!(TickId::new(1144).difference(TickId::new(12414)), -11270);
    assert_eq!(TickId::new(u32::MAX).difference(TickId::new(u32::MAX)), 0);
    assert_eq!(TickId::new(0).difference(TickId::new(0)), 0);
    assert_eq!(TickId::new(0x8000_0000).difference(TickId::new(0)), 2147483648);
    assert_eq!(TickId::new(0).difference(TickId::new(0x8000_0000)), -2147483648);
}

#[test]
fn difference_matches_the_operator() {
    let later = TickId::new(10);
    let earlier = TickId::new(5);
    assert_eq!(later - earlier, 5);
    assert_eq!(later - earlier, later.difference(earlier));
    assert_eq!(earlier - later, -5);
}
