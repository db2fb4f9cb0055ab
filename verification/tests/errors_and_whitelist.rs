use staking::error::StakingError;
use staking::farmer::Farmer;
use staking::pubkey::Pubkey;
use staking::stake_receipt::AssociatedObject;
use staking::stake_receipt::StakeReceipt;
use staking::whitelist::WhitelistProof;
use staking::whitelist::WhitelistType;

fn pk(n: u64) -> Pubkey {
    Pubkey { w0: n, w1: 0, w2: 0, w3: 0 }
}

fn farmer(rate: u64) -> Farmer {
    Farmer {
        farm: pk(1),
        owner: pk(2),
        reward_rate: rate,
        accrued_rewards: 0,
        last_update_ts: 0,
    }
}

fn receipt(rate: u64) -> StakeReceipt {
    StakeReceipt {
        farmer: pk(2),
        mint: pk(3),
        lock: pk(4),
        start_ts: 0,
        end_ts: None,
        amount: 1,
        reward_rate: rate,
        objects: Vec::new(),
    }
}

fn object_whitelist(rate: u64) -> WhitelistProof {
    WhitelistProof {
        farm: pk(1),
        whitelisted_address: pk(7),
        ty: WhitelistType::AssociatedObject,
        reward_rate: rate,
    }
}

#[test]
fn clock_regression_fails_and_changes_nothing() {
    let mut f = farmer(100);
    f.last_update_ts = 50;
    let before = f;
    assert_eq!(
        f.update_accrued_rewards(49),
        Err(StakingError::ArithmeticError)
    );
    assert_eq!(f, before);
}

#[test]
fn pending_reward_overflow_fails_and_changes_nothing() {
    let mut f = farmer(u64::MAX);
    let before = f;
    // 2 * u64::MAX overflows the checked multiplication
    assert_eq!(
        f.update_accrued_rewards(2),
        Err(StakingError::ArithmeticError)
    );
    assert_eq!(f, before);
}

#[test]
fn accrued_total_overflow_fails_and_changes_nothing() {
    let mut f = farmer(1);
    f.accrued_rewards = u64::MAX;
    let before = f;
    assert_eq!(
        f.update_accrued_rewards(1),
        Err(StakingError::ArithmeticError)
    );
    assert_eq!(f, before);
}

#[test]
fn receipt_rate_overflow_on_add_changes_nothing() {
    let mut f = farmer(100);
    let mut r = receipt(u64::MAX);
    let farmer_before = f;
    assert_eq!(
        r.try_add_object(&mut f, AssociatedObject { key: pk(10), rate: 1 }, 0),
        Err(StakingError::ArithmeticError)
    );
    assert_eq!(r.reward_rate, u64::MAX);
    assert_eq!(r.objects.len(), 0);
    assert_eq!(f, farmer_before);
}

#[test]
fn farmer_rate_overflow_on_add_changes_nothing() {
    let mut f = farmer(u64::MAX);
    let mut r = receipt(100);
    assert_eq!(
        r.try_add_object(&mut f, AssociatedObject { key: pk(10), rate: 1 }, 0),
        Err(StakingError::ArithmeticError)
    );
    assert_eq!(r.reward_rate, 100);
    assert_eq!(f.reward_rate, u64::MAX);
}

#[test]
fn rate_decrease_below_zero_fails_instead_of_clamping() {
    let mut f = farmer(10);
    assert_eq!(f.decrease_reward_rate(11), Err(StakingError::ArithmeticError));
    assert_eq!(f.reward_rate, 10);
    assert_eq!(f.decrease_reward_rate(10), Ok(()));
    assert_eq!(f.reward_rate, 0);
}

#[test]
fn removal_underflow_is_caught_defensively() {
    let mut f = farmer(100);
    // a receipt whose rate is inconsistently low for its attached object
    let mut r = receipt(5);
    r.objects.push(AssociatedObject { key: pk(10), rate: 10 });
    assert_eq!(
        r.try_remove_object(&mut f, pk(10), 0),
        Err(StakingError::ArithmeticError)
    );
    assert_eq!(r.reward_rate, 5);
    assert_eq!(r.objects.len(), 1);
}

#[test]
fn increase_reward_rate_checks_overflow() {
    let mut f = farmer(u64::MAX - 1);
    assert_eq!(f.increase_reward_rate(2), Err(StakingError::ArithmeticError));
    assert_eq!(f.reward_rate, u64::MAX - 1);
    assert_eq!(f.increase_reward_rate(1), Ok(()));
    assert_eq!(f.reward_rate, u64::MAX);
}

#[test]
fn whitelist_validation_grants_the_recorded_rate() {
    let wl = object_whitelist(25);
    assert_eq!(wl.validate_for_object(pk(1), pk(7)), Ok(25));
}

#[test]
fn whitelist_of_another_farm_is_rejected() {
    let wl = object_whitelist(25);
    assert_eq!(
        wl.validate_for_object(pk(9), pk(7)),
        Err(StakingError::AddressNotWhitelisted)
    );
}

#[test]
fn whitelist_of_another_creator_is_rejected() {
    let wl = object_whitelist(25);
    assert_eq!(
        wl.validate_for_object(pk(1), pk(8)),
        Err(StakingError::AddressNotWhitelisted)
    );
}

#[test]
fn whitelist_of_the_wrong_type_is_rejected() {
    let wl = WhitelistProof {
        ty: WhitelistType::StakeableMint,
        ..object_whitelist(25)
    };
    assert_eq!(
        wl.validate_for_object(pk(1), pk(7)),
        Err(StakingError::InvalidWhitelistType)
    );
}

#[test]
fn authorized_add_takes_the_rate_from_the_whitelist() {
    let mut f = farmer(100);
    let mut r = receipt(100);
    let wl = object_whitelist(25);
    assert_eq!(
        r.try_add_authorized_object(&mut f, &wl, pk(1), pk(40), pk(7), 0),
        Ok(())
    );
    assert_eq!(r.reward_rate, 125);
    assert_eq!(f.reward_rate, 125);
    assert_eq!(r.objects, vec![AssociatedObject { key: pk(40), rate: 25 }]);
}

#[test]
fn authorized_add_rejects_a_foreign_whitelist() {
    let mut f = farmer(100);
    let mut r = receipt(100);
    let wl = object_whitelist(25);
    assert_eq!(
        r.try_add_authorized_object(&mut f, &wl, pk(1), pk(40), pk(8), 0),
        Err(StakingError::AddressNotWhitelisted)
    );
    let wl_wrong_type = WhitelistProof {
        ty: WhitelistType::StakeableMint,
        ..object_whitelist(25)
    };
    assert_eq!(
        r.try_add_authorized_object(&mut f, &wl_wrong_type, pk(1), pk(40), pk(7), 0),
        Err(StakingError::InvalidWhitelistType)
    );
    assert_eq!(r.reward_rate, 100);
    assert_eq!(f.reward_rate, 100);
    assert_eq!(r.objects.len(), 0);
}

#[test]
fn finalize_requires_an_empty_object_list() {
    let mut f = farmer(100);
    let mut r = receipt(100);
    assert_eq!(
        r.try_add_object(&mut f, AssociatedObject { key: pk(10), rate: 10 }, 0),
        Ok(())
    );
    assert_eq!(
        r.try_finalize(&mut f, 5),
        Err(StakingError::GemStillHasObjects)
    );
    assert!(r.is_running());
    assert_eq!(f.reward_rate, 110);

    assert_eq!(r.try_remove_object(&mut f, pk(10), 5), Ok(()));
    assert_eq!(r.try_finalize(&mut f, 8), Ok(()));
    assert!(!r.is_running());
    assert_eq!(r.end_ts, Some(8));
    // the receipt's base rate left the farmer's aggregate
    assert_eq!(f.reward_rate, 0);
    // 5 units at 110 plus 3 units at 100 were credited along the way
    assert_eq!(f.accrued_rewards, 5 * 110 + 3 * 100);
}

#[test]
fn finalize_an_ended_receipt_fails() {
    let mut f = farmer(100);
    let mut r = receipt(100);
    r.end_ts = Some(3);
    assert_eq!(r.try_finalize(&mut f, 5), Err(StakingError::GemNotStaked));
    assert_eq!(r.end_ts, Some(3));
}

#[test]
fn finalize_with_an_inconsistent_farmer_rate_fails() {
    // the farmer's aggregate is inconsistently below the receipt's rate
    let mut f = farmer(50);
    let mut r = receipt(100);
    assert_eq!(r.try_finalize(&mut f, 5), Err(StakingError::ArithmeticError));
    assert!(r.is_running());
    assert_eq!(f.reward_rate, 50);
    assert_eq!(f.accrued_rewards, 0);
}
