use incrementer::{AccountId, AccountMapping, Incrementer};

fn alice() -> AccountId {
    AccountId::from_bytes([0x01; 32])
}

fn bob() -> AccountId {
    AccountId::from_bytes([0x02; 32])
}

#[test]
fn default_works() {
    let incrementer = Incrementer::default(alice());
    assert_eq!(incrementer.get(), 0);
}

#[test]
fn it_works() {
    let mut incrementer = Incrementer::new(alice(), Default::default());
    assert_eq!(incrementer.get(), 0);
    incrementer.increment(1);
    assert_eq!(incrementer.get(), 1);
}

#[test]
fn my_map_works() {
    let mut incrementer = Incrementer::new(alice(), 11);
    assert_eq!(incrementer.get(), 11);
    incrementer.increment(3);
    assert_eq!(incrementer.get(), 14);
    assert_eq!(incrementer.get_mine(alice()), 0);
}

#[test]
fn new_then_get_returns_the_initial_value() {
    for v in [0, 1, -1, 11, 1_000_000, -1_000_000, i32::MAX, i32::MIN] {
        assert_eq!(Incrementer::new(alice(), v).get(), v);
    }
}

#[test]
fn default_is_new_with_zero() {
    let by_default = Incrementer::default(bob());
    let by_new = Incrementer::new(bob(), 0);
    assert_eq!(by_default.get(), by_new.get());
    assert_eq!(by_default.get(), 0);
    assert_eq!(by_default.get_mine(bob()), by_new.get_mine(bob()));
    assert_eq!(by_default.get_mine(alice()), by_new.get_mine(alice()));
}

#[test]
fn increment_adds_to_the_counter() {
    let cases = [
        (0, 0, 0),
        (11, 3, 14),
        (5, -7, -2),
        (-40, 40, 0),
        (-3, -4, -7),
        (i32::MAX - 1, 1, i32::MAX),
        (i32::MIN + 1, -1, i32::MIN),
        (i32::MIN, i32::MAX, -1),
    ];
    for (v, d, sum) in cases {
        let mut incrementer = Incrementer::new(alice(), v);
        incrementer.increment(d);
        assert_eq!(incrementer.get(), sum);
    }
}

#[test]
fn increment_by_zero_changes_nothing() {
    let mut incrementer = Incrementer::new(alice(), 42);
    incrementer.increment(0);
    assert_eq!(incrementer.get(), 42);
    assert_eq!(incrementer.get_mine(alice()), 0);
}

#[test]
fn repeated_increments_accumulate() {
    let mut incrementer = Incrementer::new(alice(), 10);
    incrementer.increment(5);
    incrementer.increment(-20);
    incrementer.increment(7);
    assert_eq!(incrementer.get(), 2);
}

#[test]
fn increment_wraps_past_the_largest_value() {
    let mut incrementer = Incrementer::new(alice(), i32::MAX);
    incrementer.increment(1);
    assert_eq!(incrementer.get(), i32::MIN);

    let mut incrementer = Incrementer::new(alice(), 14);
    incrementer.increment(i32::MAX);
    assert_eq!(incrementer.get(), -2_147_483_635);

    let mut incrementer = Incrementer::new(alice(), i32::MAX);
    incrementer.increment(i32::MAX);
    assert_eq!(incrementer.get(), -2);
}

#[test]
fn increment_wraps_past_the_smallest_value() {
    let mut incrementer = Incrementer::new(alice(), i32::MIN);
    incrementer.increment(-1);
    assert_eq!(incrementer.get(), i32::MAX);

    let mut incrementer = Incrementer::new(alice(), i32::MIN);
    incrementer.increment(i32::MIN);
    assert_eq!(incrementer.get(), 0);
}

#[test]
fn get_has_no_effect() {
    let incrementer = Incrementer::new(alice(), 9);
    assert_eq!(incrementer.get(), 9);
    assert_eq!(incrementer.get(), 9);
    assert_eq!(incrementer.get_mine(alice()), 0);
    assert_eq!(incrementer.get(), 9);
}

#[test]
fn deployer_reads_zero_right_after_deployment() {
    assert_eq!(Incrementer::new(alice(), 11).get_mine(alice()), 0);
    assert_eq!(Incrementer::new(bob(), -5).get_mine(bob()), 0);
    assert_eq!(Incrementer::default(alice()).get_mine(alice()), 0);
}

#[test]
fn stranger_reads_zero() {
    let mut incrementer = Incrementer::new(alice(), 11);
    assert_eq!(incrementer.get_mine(bob()), 0);
    incrementer.increment(3);
    assert_eq!(incrementer.get_mine(bob()), 0);
    assert_eq!(incrementer.get_mine(AccountId::from_bytes([0; 32])), 0);
    assert_eq!(incrementer.get_mine(AccountId::from_bytes([0xff; 32])), 0);
}

#[test]
fn increments_leave_the_table_alone() {
    let mut table = AccountMapping::new();
    table.insert(alice(), 21);
    let mut incrementer = Incrementer::from_parts(11, table);
    incrementer.increment(3);
    incrementer.increment(-30);
    assert_eq!(incrementer.get(), -16);
    assert_eq!(incrementer.get_mine(alice()), 21);
    assert_eq!(incrementer.get_mine(bob()), 0);
}

#[test]
fn from_parts_keeps_counter_and_table() {
    let mut table = AccountMapping::new();
    table.insert(alice(), -8);
    table.insert(bob(), 13);
    let incrementer = Incrementer::from_parts(-100, table);
    assert_eq!(incrementer.get(), -100);
    assert_eq!(incrementer.get_mine(alice()), -8);
    assert_eq!(incrementer.get_mine(bob()), 13);
    assert_eq!(incrementer.get_mine(AccountId::from_bytes([0x03; 32])), 0);
}

#[test]
fn from_parts_with_an_empty_table_reads_zero_for_everyone() {
    let incrementer = Incrementer::from_parts(5, AccountMapping::new());
    assert_eq!(incrementer.get(), 5);
    assert_eq!(incrementer.get_mine(alice()), 0);
    assert_eq!(incrementer.get_mine(bob()), 0);
}

#[test]
fn into_parts_gives_back_counter_and_table() {
    let mut incrementer = Incrementer::new(alice(), 11);
    incrementer.increment(3);
    let (value, table) = incrementer.into_parts();
    assert_eq!(value, 14);
    assert_eq!(table.get(alice()), Some(0));
    assert_eq!(table.get(bob()), None);
    assert_eq!(table.entries().len(), 1);
}

#[test]
fn parts_round_trip() {
    let mut table = AccountMapping::new();
    table.insert(alice(), 4);
    table.insert(bob(), -4);
    let (value, table) = Incrementer::from_parts(77, table).into_parts();
    assert_eq!(value, 77);
    assert_eq!(table.get(alice()), Some(4));
    assert_eq!(table.get(bob()), Some(-4));
}

#[test]
fn new_stores_a_zero_for_the_deployer_only() {
    let (_, table) = Incrementer::new(bob(), 5).into_parts();
    let entries = table.entries();
    assert_eq!(entries.len(), 1);
    assert!(entries[0].0 == bob());
    assert_eq!(entries[0].1, 0);
}
