use incrementer::{AccountId, Incrementer};

const ALICE: AccountId = [1u8; 32];
const BOB: AccountId = [2u8; 32];

#[test]
fn default_is_all_zero() {
    let mut s = Incrementer::default();
    assert_eq!(s.get_bool(), false);
    assert_eq!(s.get_number(), 0);
    assert_eq!(s.get_number_lazy(), 0);
    assert_eq!(s.get(ALICE), 0);
    assert_eq!(s.get_balance(), 0);
}

#[test]
fn new_keeps_every_field() {
    let mut s = Incrementer::new(true, 11, 22, 1_000_000_000_000_000_000_000u128);
    assert_eq!(s.get_bool(), true);
    assert_eq!(s.get_number(), 11);
    assert_eq!(s.get_number_lazy(), 22);
    assert_eq!(s.get_balance(), 1_000_000_000_000_000_000_000u128);
}

#[test]
fn flip_twice_restores_flag() {
    let mut s = Incrementer::new(true, 0, 0, 0);
    s.flip();
    assert_eq!(s.get_bool(), false);
    s.flip();
    assert_eq!(s.get_bool(), true);
}

#[test]
fn set_then_get_number() {
    let mut s = Incrementer::default();
    s.set_number(u32::MAX);
    assert_eq!(s.get_number(), u32::MAX);
    s.set_number(0);
    assert_eq!(s.get_number(), 0);
}

#[test]
fn inc_wraps_at_u32_max() {
    let mut s = Incrementer::default();
    s.set_number(u32::MAX - 1);
    s.inc(3);
    assert_eq!(s.get_number(), 1);
}

#[test]
fn inc_lazy_wraps_at_u32_max() {
    let mut s = Incrementer::new(false, 0, u32::MAX, 0);
    s.inc_lazy(1);
    assert_eq!(s.get_number_lazy(), 0);
}

#[test]
fn lazy_and_eager_counters_agree() {
    let mut s = Incrementer::new(false, 5, 5, 0);
    assert_eq!(s.get_number(), s.get_number_lazy());
    s.inc(u32::MAX);
    s.inc_lazy(u32::MAX);
    assert_eq!(s.get_number(), 4);
    assert_eq!(s.get_number_lazy(), 4);
    s.set_number(9);
    s.set_number_lazy(9);
    s.inc(6);
    s.inc_lazy(6);
    assert_eq!(s.get_number(), s.get_number_lazy());
    assert_eq!(s.get_number_lazy(), 15);
}

#[test]
fn lazy_set_before_any_read() {
    let mut s = Incrementer::new(false, 0, 4, 0);
    s.set_number_lazy(12);
    assert_eq!(s.get_number_lazy(), 12);
}

#[test]
fn unwritten_account_reads_zero_repeatedly() {
    let s = Incrementer::default();
    assert_eq!(s.get(ALICE), 0);
    assert_eq!(s.get(ALICE), 0);
    assert_eq!(s.get_my_number(ALICE), 0);
}

#[test]
fn add_my_number_twice_sums() {
    let mut s = Incrementer::default();
    s.add_my_number(ALICE, 3);
    s.add_my_number(ALICE, 4);
    assert_eq!(s.get_my_number(ALICE), 7);
    assert_eq!(s.get(ALICE), 7);
    assert_eq!(s.get(BOB), 0);
}

#[test]
fn set_my_number_overwrites() {
    let mut s = Incrementer::default();
    s.set_my_number(BOB, 10);
    assert_eq!(s.get(BOB), 10);
    s.set_my_number(BOB, 2);
    assert_eq!(s.get(BOB), 2);
    s.add_my_number(BOB, 5);
    assert_eq!(s.get_my_number(BOB), 7);
    assert_eq!(s.get(ALICE), 0);
}

#[test]
fn explicit_zero_reads_like_absent() {
    let mut s = Incrementer::default();
    s.set_my_number(ALICE, 0);
    assert_eq!(s.get(ALICE), s.get(BOB));
}

#[test]
fn add_my_number_wraps() {
    let mut s = Incrementer::default();
    s.set_my_number(ALICE, u32::MAX);
    s.add_my_number(ALICE, 2);
    assert_eq!(s.get(ALICE), 1);
}

#[test]
fn counters_are_independent() {
    let mut s = Incrementer::new(false, 1, 2, 3);
    s.inc(10);
    s.add_my_number(ALICE, 5);
    s.flip();
    assert_eq!(s.get_number_lazy(), 2);
    assert_eq!(s.get_number(), 11);
    assert_eq!(s.get_balance(), 3);
    assert_eq!(s.get_bool(), true);
}
