use seguro_parametrico::{
    check_deposit, check_owner, Address, Amount, Policy, PolicyError, SeguroParametrico,
    SeguroStorage, SECONDS_PER_DAY,
};

fn owner() -> Address {
    Address::new([9u8; 32])
}

fn holder() -> Address {
    let mut bytes = [0u8; 32];
    bytes[31] = 7;
    Address::new(bytes)
}

fn amount(x: u64) -> Amount {
    Amount::from_be_bytes(x.to_be_bytes().to_vec())
}

fn engine_with(id: u64, threshold: u64, period_days: u64, expiration: u64, cap: u32) -> SeguroParametrico {
    let mut e = SeguroParametrico::init(owner());
    e.register_policy(id, holder(), b"Campo".to_vec(), threshold, period_days, amount(500), expiration, cap);
    e
}

fn bare_policy(cap: u32, count: u32, last_update: Option<u64>, period_days: u64) -> Policy {
    Policy {
        beneficiary: holder(),
        location: Vec::new(),
        rain_threshold: 10,
        period_days,
        payout_amount: amount(1),
        active: true,
        expiration: u64::MAX,
        last_update,
        trigger_cap: cap,
        trigger_count: count,
    }
}

#[test]
fn register_then_get_gives_fresh_record() {
    let mut e = SeguroParametrico::init(owner());
    e.register_policy(11, holder(), b"Vale".to_vec(), 0, 0, amount(0), 0, 0);
    let p = e.get_policy(11).unwrap();
    assert!(p.beneficiary == holder());
    assert_eq!(p.location, b"Vale".to_vec());
    assert!(p.active);
    assert_eq!(p.trigger_count, 0);
    assert_eq!(p.last_update, None);
    assert!(e.get_policy(12).is_none());
}

#[test]
fn register_overwrites_previous_record() {
    let mut e = engine_with(1, 10, 0, 1_000, 1);
    e.trigger_payment(1, 11, 5).unwrap();
    assert!(!e.get_policy(1).unwrap().active);
    e.register_policy(1, holder(), b"Novo".to_vec(), 20, 1, amount(7), 2_000, 4);
    let p = e.get_policy(1).unwrap();
    assert!(p.active);
    assert_eq!(p.trigger_count, 0);
    assert_eq!(p.last_update, None);
    assert_eq!(p.rain_threshold, 20);
    assert_eq!(p.trigger_cap, 4);
    assert_eq!(p.location, b"Novo".to_vec());
}

#[test]
fn trigger_counts_exactly_one() {
    let mut e = engine_with(1, 10, 0, 1_000_000, 0);
    for i in 0..5u64 {
        let before = e.get_policy(1).unwrap().trigger_count;
        e.trigger_payment(1, 50, 100 + i).unwrap();
        let after = e.get_policy(1).unwrap();
        assert_eq!(after.trigger_count, before + 1);
        assert_eq!(after.last_update, Some(100 + i));
    }
    let failed = e.trigger_payment(1, 5, 200);
    assert_eq!(failed.unwrap_err(), PolicyError::ConditionNotMet);
    assert_eq!(e.get_policy(1).unwrap().trigger_count, 5);
}

#[test]
fn threshold_is_strict() {
    let mut e = engine_with(1, 100, 0, 1_000, 0);
    assert_eq!(e.trigger_payment(1, 100, 10).unwrap_err(), PolicyError::ConditionNotMet);
    let payout = e.trigger_payment(1, 101, 10).unwrap();
    assert!(payout.to == holder());
    assert_eq!(payout.amount.be_bytes(), &500u64.to_be_bytes()[..]);
}

#[test]
fn threshold_at_largest_value_never_triggers() {
    let mut e = engine_with(1, u64::MAX, 0, 1_000, 0);
    assert_eq!(e.trigger_payment(1, u64::MAX, 10).unwrap_err(), PolicyError::ConditionNotMet);
}

#[test]
fn cap_retires_policy_and_next_attempt_is_inactive() {
    let mut e = engine_with(1, 10, 0, 1_000, 3);
    for ts in [1u64, 2, 3] {
        assert!(e.get_policy(1).unwrap().active);
        e.trigger_payment(1, 11, ts).unwrap();
    }
    let p = e.get_policy(1).unwrap();
    assert!(!p.active);
    assert_eq!(p.trigger_count, 3);
    assert_eq!(e.trigger_payment(1, 11, 4).unwrap_err(), PolicyError::Inactive);
}

#[test]
fn reactivated_policy_at_cap_is_cap_exhausted() {
    let mut e = engine_with(1, 10, 0, 1_000, 1);
    e.trigger_payment(1, 11, 1).unwrap();
    assert_eq!(e.reativar_apolice(&owner(), 1, 2), Ok(()));
    let p = e.get_policy(1).unwrap();
    assert!(p.active);
    assert_eq!(p.trigger_count, 1);
    assert_eq!(p.last_update, Some(2));
    assert_eq!(e.trigger_payment(1, 11, 3).unwrap_err(), PolicyError::CapExhausted);
}

#[test]
fn cooldown_boundary() {
    let d: u64 = 4;
    let mut e = engine_with(1, 10, d, 10_000_000, 0);
    e.trigger_payment(1, 11, 1_000).unwrap();
    let due = 1_000 + d * SECONDS_PER_DAY;
    assert_eq!(due, 346_600);
    assert_eq!(e.trigger_payment(1, 11, due - 1).unwrap_err(), PolicyError::CooldownActive);
    assert_eq!(e.get_policy(1).unwrap().trigger_count, 1);
    e.trigger_payment(1, 11, due).unwrap();
    assert_eq!(e.get_policy(1).unwrap().last_update, Some(due));
}

#[test]
fn zero_period_allows_same_timestamp() {
    let mut e = engine_with(1, 10, 0, 1_000, 0);
    e.trigger_payment(1, 11, 50).unwrap();
    e.trigger_payment(1, 11, 50).unwrap();
    assert_eq!(e.get_policy(1).unwrap().trigger_count, 2);
}

#[test]
fn cooldown_past_timestamp_range_does_not_overflow() {
    let mut p = bare_policy(0, 1, Some(u64::MAX - 10), u64::MAX);
    assert_eq!(p.trigger(11, u64::MAX).unwrap_err(), PolicyError::CooldownActive);
    assert_eq!(p.trigger_count, 1);
}

#[test]
fn unlimited_counter_at_its_largest_value_is_exhausted() {
    let mut p = bare_policy(0, u32::MAX, None, 0);
    assert_eq!(p.trigger(11, 5).unwrap_err(), PolicyError::CapExhausted);
    assert_eq!(p.trigger_count, u32::MAX);
    assert!(p.active);
}

#[test]
fn full_counter_inside_cooldown_is_cooling_down() {
    let mut p = bare_policy(0, u32::MAX, Some(1_000), 1);
    assert_eq!(p.trigger(11, 1_000 + SECONDS_PER_DAY - 1).unwrap_err(), PolicyError::CooldownActive);
    assert_eq!(p.trigger(11, 1_000 + SECONDS_PER_DAY).unwrap_err(), PolicyError::CapExhausted);
    assert_eq!(p.trigger_count, u32::MAX);
    assert_eq!(p.last_update, Some(1_000));
}

#[test]
fn checks_run_in_order() {
    // Inactive before expired, expired before threshold.
    let mut e = engine_with(1, 10, 0, 100, 0);
    assert_eq!(e.trigger_payment(1, 5, 200).unwrap_err(), PolicyError::Expired);
    assert_eq!(e.cancelar_apolice(&owner(), 1, 1), Ok(()));
    assert_eq!(e.trigger_payment(1, 5, 200).unwrap_err(), PolicyError::Inactive);
    // Cap before cooldown.
    let mut p = bare_policy(1, 1, Some(0), 10);
    assert_eq!(p.trigger(11, 1).unwrap_err(), PolicyError::CapExhausted);
}

#[test]
fn unknown_policy_is_not_found() {
    let mut e = SeguroParametrico::init(owner());
    assert_eq!(e.trigger_payment(3, 100, 1).unwrap_err(), PolicyError::NotFound);
    assert_eq!(e.cancelar_apolice(&owner(), 3, 1), Err(PolicyError::NotFound));
    assert_eq!(e.reativar_apolice(&owner(), 3, 1), Err(PolicyError::NotFound));
}

#[test]
fn authorization_is_checked_before_lookup() {
    let mut e = SeguroParametrico::init(owner());
    assert_eq!(e.cancelar_apolice(&holder(), 3, 1), Err(PolicyError::Unauthorized));
}

#[test]
fn non_owner_cannot_reactivate() {
    let mut e = engine_with(1, 10, 0, 1_000, 0);
    assert_eq!(e.cancelar_apolice(&owner(), 1, 5), Ok(()));
    assert_eq!(e.reativar_apolice(&holder(), 1, 6), Err(PolicyError::Unauthorized));
    let p = e.get_policy(1).unwrap();
    assert!(!p.active);
    assert_eq!(p.last_update, Some(5));
}

#[test]
fn cancel_and_reactivate_refuse_repeated_state() {
    let mut e = engine_with(1, 10, 0, 1_000, 0);
    assert_eq!(e.reativar_apolice(&owner(), 1, 5), Err(PolicyError::AlreadyActive));
    assert_eq!(e.get_policy(1).unwrap().last_update, None);
    assert_eq!(e.cancelar_apolice(&owner(), 1, 6), Ok(()));
    assert_eq!(e.cancelar_apolice(&owner(), 1, 7), Err(PolicyError::AlreadyInactive));
    let p = e.get_policy(1).unwrap();
    assert!(!p.active);
    assert_eq!(p.last_update, Some(6));
}

#[test]
fn owner_is_the_creator() {
    let e = SeguroParametrico::init(owner());
    assert!(e.owner() == owner());
    assert_eq!(check_owner(&owner(), &e.owner()), Ok(()));
    assert_eq!(check_owner(&holder(), &e.owner()), Err(PolicyError::Unauthorized));
}

#[test]
fn deposits_of_nothing_are_refused() {
    assert_eq!(check_deposit(&Amount::from_be_bytes(Vec::new())), Err(PolicyError::ZeroDeposit));
    assert_eq!(check_deposit(&Amount::from_be_bytes(vec![0, 0, 0])), Err(PolicyError::ZeroDeposit));
    assert_eq!(check_deposit(&Amount::from_be_bytes(vec![0, 0, 1])), Ok(()));
    assert_eq!(check_deposit(&amount(1_000_000_000)), Ok(()));
}

#[test]
fn addresses_compare_by_every_byte() {
    let mut a = [3u8; 32];
    let b = Address::new(a);
    assert!(b.same_as(&Address::new(a)));
    a[31] = 4;
    assert!(!b.same_as(&Address::new(a)));
    assert!(b != Address::new(a));
}

#[test]
fn amount_copy_keeps_digits() {
    let a = Amount::from_be_bytes(vec![0, 1, 2, 255]);
    let c = a.copied();
    assert_eq!(c.be_bytes(), &[0u8, 1, 2, 255][..]);
    assert!(!c.is_zero());
    assert!(Amount::from_be_bytes(vec![0]).is_zero());
}

#[test]
fn store_put_get_take() {
    let mut s = SeguroStorage::new();
    assert!(s.get(1).is_none());
    s.put(1, bare_policy(2, 0, None, 1));
    assert_eq!(s.get(1).unwrap().trigger_cap, 2);
    s.put(1, bare_policy(5, 0, None, 1));
    assert_eq!(s.get(1).unwrap().trigger_cap, 5);
    let taken = s.take(1).unwrap();
    assert_eq!(taken.trigger_cap, 5);
    assert!(s.get(1).is_none());
    assert!(s.take(1).is_none());
}

#[test]
fn policy_cancel_records_time() {
    let mut p = bare_policy(0, 0, None, 1);
    assert_eq!(p.cancel(42), Ok(()));
    assert!(!p.active);
    assert_eq!(p.last_update, Some(42));
    assert_eq!(p.reactivate(43), Ok(()));
    assert!(p.active);
    assert_eq!(p.last_update, Some(43));
}
