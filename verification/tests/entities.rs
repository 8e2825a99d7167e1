use khzeb::entity::{decimal_text, Entity};

#[test]
fn entity_keeps_generation_and_index() {
    let entity = Entity::new(3, 17);
    assert_eq!(entity.generation(), 3);
    assert_eq!(entity.index(), 17);
    assert_eq!(entity.decouple(), (3, 17));
}

#[test]
fn entity_parts_do_not_mix() {
    let cases = [
        (0u32, 0u32),
        (0, u32::MAX),
        (u32::MAX, 0),
        (u32::MAX, u32::MAX),
        (1, 0x8000_0000),
        (0x8000_0000, 1),
        (0xdead_beef, 0x0bad_f00d),
    ];
    for (generation, index) in cases {
        let entity = Entity::new(generation, index);
        assert_eq!(entity.decouple(), (generation, index));
    }
}

#[test]
fn entities_are_equal_by_parts() {
    assert_eq!(Entity::new(1, 2), Entity::new(1, 2));
    assert_ne!(Entity::new(1, 2), Entity::new(2, 1));
    assert_ne!(Entity::new(0, 2), Entity::new(1, 2));
}

#[test]
fn entities_order_by_generation_first() {
    assert!(Entity::new(0, 9) < Entity::new(1, 0));
    assert!(Entity::new(1, 0) < Entity::new(1, 1));
}

#[test]
fn entity_shows_generation_and_index() {
    assert_eq!(Entity::new(0, 0).to_string(), "<Entity gen=0 idx=0>");
    assert_eq!(Entity::new(3, 17).to_string(), "<Entity gen=3 idx=17>");
    assert_eq!(
        Entity::new(u32::MAX, 1_000_000).to_string(),
        "<Entity gen=4294967295 idx=1000000>"
    );
    for (generation, index) in [(1u32, 2u32), (10, 99), (100, 101), (4_000_000_000, 7)] {
        assert_eq!(
            Entity::new(generation, index).to_string(),
            format!("<Entity gen={} idx={}>", generation, index)
        );
    }
}

#[test]
fn decimal_text_has_no_leading_zeros() {
    assert_eq!(decimal_text(0), "0");
    assert_eq!(decimal_text(7), "7");
    assert_eq!(decimal_text(10), "10");
    assert_eq!(decimal_text(1_000), "1000");
    assert_eq!(decimal_text(1_234_567_890), "1234567890");
    assert_eq!(decimal_text(u32::MAX), "4294967295");
    let mut n = 1u32;
    while n < 1_000_000_000 {
        assert_eq!(decimal_text(n), format!("{}", n));
        assert_eq!(decimal_text(n - 1), format!("{}", n - 1));
        n = n * 7 + 3;
    }
}
