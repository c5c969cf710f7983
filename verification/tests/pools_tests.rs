use sol_adz::{initialize, manage_pools, ErrorCode, Pools};

#[test]
fn new_pools_are_empty() {
    let pools = Pools::new();
    assert_eq!(pools, Pools { top_sponsor_pool: 0, whale_pool: 0, admin_fee_collected: 0 });
    let (_, from_initialize) = initialize("inv-1".to_string());
    assert_eq!(from_initialize, pools);
}

#[test]
fn contribute_to_pools_splits_a_deposit() {
    let mut pools = Pools::new();
    assert_eq!(manage_pools(&mut pools, 1000), Ok(()));
    assert_eq!(pools.top_sponsor_pool, 50);
    assert_eq!(pools.whale_pool, 25);
    assert_eq!(pools.admin_fee_collected, 50);
}

#[test]
fn contributions_accumulate() {
    let mut pools = Pools { top_sponsor_pool: 7, whale_pool: 8, admin_fee_collected: 9 };
    assert_eq!(manage_pools(&mut pools, 1000), Ok(()));
    assert_eq!(manage_pools(&mut pools, 200), Ok(()));
    assert_eq!(pools, Pools { top_sponsor_pool: 67, whale_pool: 38, admin_fee_collected: 69 });
}

#[test]
fn each_pool_share_is_truncated_on_its_own() {
    let mut pools = Pools::new();
    assert_eq!(manage_pools(&mut pools, 39), Ok(()));
    assert_eq!(pools, Pools { top_sponsor_pool: 1, whale_pool: 0, admin_fee_collected: 1 });
    assert_eq!(manage_pools(&mut pools, 19), Ok(()));
    assert_eq!(pools, Pools { top_sponsor_pool: 1, whale_pool: 0, admin_fee_collected: 1 });
    assert_eq!(manage_pools(&mut pools, 0), Ok(()));
    assert_eq!(pools, Pools { top_sponsor_pool: 1, whale_pool: 0, admin_fee_collected: 1 });
}

#[test]
fn largest_deposit_fits_into_empty_pools() {
    let mut pools = Pools::new();
    assert_eq!(manage_pools(&mut pools, u64::MAX), Ok(()));
    assert_eq!(pools.top_sponsor_pool, 922337203685477580);
    assert_eq!(pools.whale_pool, 461168601842738790);
    assert_eq!(pools.admin_fee_collected, 922337203685477580);
}

#[test]
fn pool_overflow_changes_nothing() {
    let full_top = Pools { top_sponsor_pool: u64::MAX - 49, whale_pool: 1, admin_fee_collected: 2 };
    let mut pools = full_top;
    assert_eq!(manage_pools(&mut pools, 1000), Err(ErrorCode::Overflow));
    assert_eq!(pools, full_top);

    let full_whale = Pools { top_sponsor_pool: 1, whale_pool: u64::MAX - 24, admin_fee_collected: 2 };
    let mut pools = full_whale;
    assert_eq!(manage_pools(&mut pools, 1000), Err(ErrorCode::Overflow));
    assert_eq!(pools, full_whale);

    let full_fee = Pools { top_sponsor_pool: 1, whale_pool: 2, admin_fee_collected: u64::MAX - 49 };
    let mut pools = full_fee;
    assert_eq!(manage_pools(&mut pools, 1000), Err(ErrorCode::Overflow));
    assert_eq!(pools, full_fee);
}

#[test]
fn pools_fill_to_the_brim() {
    let mut pools = Pools {
        top_sponsor_pool: u64::MAX - 50,
        whale_pool: u64::MAX - 25,
        admin_fee_collected: u64::MAX - 50,
    };
    assert_eq!(manage_pools(&mut pools, 1000), Ok(()));
    assert_eq!(
        pools,
        Pools { top_sponsor_pool: u64::MAX, whale_pool: u64::MAX, admin_fee_collected: u64::MAX }
    );
}
