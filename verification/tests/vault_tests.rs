use trustlend::access::Account;
use trustlend::errors::ContractError;
use trustlend::vault::{AutoCompoundVaultContract, Holding, VaultEffect, PRECISION};

const ADMIN: Account = Account(1);
const ASSET_TOKEN: Account = Account(2);
const LENDING: Account = Account(3);
const ALICE: Account = Account(10);
const BOB: Account = Account(11);
const HARVESTER: Account = Account(12);

fn setup_test() -> AutoCompoundVaultContract {
    let mut vault = AutoCompoundVaultContract::new();
    vault.initialize(ADMIN, ASSET_TOKEN, LENDING, 100).unwrap(); // 1% harvest fee
    vault
}

#[test]
fn test_initialize_sets_config() {
    let vault = setup_test();
    assert_eq!(vault.get_admin(), Ok(ADMIN));
    assert_eq!(vault.get_asset_token(), Ok(ASSET_TOKEN));
    assert_eq!(vault.get_lending_contract(), Ok(LENDING));
    assert_eq!(vault.get_harvest_fee_bps(), 100);
    assert_eq!(vault.get_total_shares(), 0);
    assert_eq!(vault.get_total_managed_assets(), 0);
    assert_eq!(vault.get_exchange_rate(), PRECISION);
}

#[test]
fn test_first_deposit_mints_equal_shares() {
    let mut vault = setup_test();
    let deposit_amount = 1_000_0000000i128;

    let shares = vault.deposit(ALICE, deposit_amount).unwrap();
    assert_eq!(shares, deposit_amount);
    assert_eq!(vault.get_shares_of(ALICE), deposit_amount);
    assert_eq!(vault.get_total_shares(), deposit_amount);
    assert_eq!(vault.get_total_managed_assets(), deposit_amount);
    assert_eq!(vault.get_user_asset_balance(ALICE), deposit_amount);
    assert_eq!(vault.get_exchange_rate(), PRECISION);
}

#[test]
fn test_subsequent_deposit_mints_proportional_shares() {
    let mut vault = setup_test();

    vault.deposit(ALICE, 1_000_0000000i128).unwrap();
    let bob_shares = vault.deposit(BOB, 500_0000000i128).unwrap();

    assert_eq!(bob_shares, 500_0000000i128);
    assert_eq!(vault.get_total_shares(), 1_500_0000000i128);
    assert_eq!(vault.get_total_managed_assets(), 1_500_0000000i128);
}

#[test]
fn test_harvest_pays_caller_fee_and_compounds_yield() {
    let mut vault = setup_test();
    vault.deposit(ALICE, 1_000_0000000i128).unwrap();

    // Yield generated and transferred to the vault
    let yield_amount = 100_0000000i128; // 100 XLM yield
    let reinvested = vault.harvest(HARVESTER, yield_amount).unwrap();

    // 1% of 100 XLM = 1 XLM fee, 99 XLM reinvested
    let expected_fee = 1_0000000i128;
    let expected_reinvest = 99_0000000i128;

    assert_eq!(reinvested, expected_reinvest);
    assert_eq!(
        vault.effects[0],
        VaultEffect::TransferOut { to: HARVESTER, amount: expected_fee }
    );
    assert_eq!(vault.get_total_shares(), 1_000_0000000i128);
    assert_eq!(vault.get_total_managed_assets(), 1_099_0000000i128);

    // Exchange rate should appreciate
    let new_rate = vault.get_exchange_rate();
    assert!(new_rate > PRECISION);
}

#[test]
fn test_withdraw_principal_and_compounded_interest() {
    let mut vault = setup_test();

    let initial_deposit = 1_000_0000000i128;
    let alice_shares = vault.deposit(ALICE, initial_deposit).unwrap();

    // Harvest yield
    let yield_amount = 200_0000000i128;
    vault.harvest(HARVESTER, yield_amount).unwrap();

    // Alice withdraws all her shares
    let withdrawn = vault.withdraw(ALICE, alice_shares).unwrap();

    // 1000 deposit + 198 net compounded yield = 1198 XLM
    let expected_payout = 1_198_0000000i128;
    assert_eq!(withdrawn, expected_payout);
    assert_eq!(
        vault.effects[0],
        VaultEffect::TransferOut { to: ALICE, amount: expected_payout }
    );
    assert_eq!(vault.get_shares_of(ALICE), 0);
    assert_eq!(vault.get_total_shares(), 0);
    assert_eq!(vault.get_total_managed_assets(), 0);
}

#[test]
fn test_deposit_zero_panics() {
    let mut vault = setup_test();
    let result = vault.deposit(ALICE, 0);
    assert_eq!(result, Err(ContractError::DepositNotPositive));
    assert_eq!(result.unwrap_err().message(), "Deposit amount must be positive");
}

#[test]
fn test_withdraw_insufficient_shares_panics() {
    let mut vault = setup_test();
    vault.deposit(ALICE, 1000).unwrap();
    let result = vault.withdraw(ALICE, 2000);
    assert_eq!(result, Err(ContractError::InsufficientShares));
    assert_eq!(result.unwrap_err().message(), "Insufficient shares balance");
}

#[test]
fn test_set_harvest_fee_by_non_admin_panics() {
    let mut vault = setup_test();
    let attacker = Account(666);
    let result = vault.set_harvest_fee_bps(attacker, 200);
    assert_eq!(result, Err(ContractError::UnauthorisedCaller));
    assert_eq!(result.unwrap_err().message(), "Unauthorised caller");
}

#[test]
fn test_set_harvest_fee_over_max_panics() {
    let mut vault = setup_test();
    let result = vault.set_harvest_fee_bps(ADMIN, 1500); // > 1000 max limit
    assert_eq!(result, Err(ContractError::HarvestFeeTooHigh));
    assert_eq!(result.unwrap_err().message(), "Harvest fee exceeds max limit");
}

// ─── further behaviour ───────────────────────────────────────────────────────

#[test]
fn vault_deposit_records_transfer_and_event() {
    let mut vault = setup_test();
    let shares = vault.deposit(ALICE, 5_000).unwrap();
    assert_eq!(
        vault.effects,
        vec![
            VaultEffect::TransferIn { from: ALICE, amount: 5_000 },
            VaultEffect::Deposited { from: ALICE, amount: 5_000, shares },
        ]
    );
}

#[test]
fn vault_proportional_shares_after_yield() {
    let mut vault = setup_test();
    vault.deposit(ALICE, 1_000).unwrap();
    vault.harvest(HARVESTER, 1_000).unwrap(); // fee 10, reinvest 990
    assert_eq!(vault.get_total_managed_assets(), 1_990);
    // 1000 * 1000 / 1990 = 502.51… -> 502 shares
    assert_eq!(vault.deposit(BOB, 1_000).unwrap(), 502);
    assert_eq!(vault.get_total_shares(), 1_502);
    assert_eq!(vault.get_total_managed_assets(), 2_990);
    // exchange rate 2990 * 10^7 / 1502
    assert_eq!(vault.get_exchange_rate(), 19_906_790);
}

#[test]
fn vault_deposit_then_redeem_never_profits() {
    let mut vault = setup_test();
    vault.deposit(ALICE, 1_000).unwrap();
    vault.harvest(HARVESTER, 1_000).unwrap();
    let minted = vault.deposit(BOB, 1_000).unwrap();
    let back = vault.withdraw(BOB, minted).unwrap();
    assert!(back <= 1_000);
    assert_eq!(back, 999); // 502 * 2990 / 1502
}

#[test]
fn vault_partial_withdraw_keeps_holding() {
    let mut vault = setup_test();
    vault.deposit(ALICE, 1_000).unwrap();
    vault.deposit(BOB, 3_000).unwrap();
    assert_eq!(vault.withdraw(ALICE, 400).unwrap(), 400);
    assert_eq!(vault.get_shares_of(ALICE), 600);
    assert_eq!(vault.get_shares_of(BOB), 3_000);
    assert_eq!(vault.get_total_shares(), 3_600);
    assert!(vault.is_well_formed());
}

#[test]
fn vault_harvest_without_fee_reinvests_everything() {
    let mut vault = AutoCompoundVaultContract::new();
    vault.initialize(ADMIN, ASSET_TOKEN, LENDING, 0).unwrap();
    vault.deposit(ALICE, 500).unwrap();
    assert_eq!(vault.harvest(HARVESTER, 50).unwrap(), 50);
    assert_eq!(
        vault.effects,
        vec![VaultEffect::Harvested { caller: HARVESTER, yield_amount: 50, fee: 0, reinvest: 50 }]
    );
}

#[test]
fn vault_errors() {
    let mut fresh = AutoCompoundVaultContract::new();
    assert_eq!(fresh.get_harvest_fee_bps(), 100);
    assert_eq!(fresh.get_admin(), Err(ContractError::VaultNotInitialised));
    assert_eq!(fresh.deposit(ALICE, 10), Err(ContractError::VaultNotInitialised));
    assert_eq!(
        fresh.initialize(ADMIN, ASSET_TOKEN, LENDING, 1001),
        Err(ContractError::HarvestFeeTooHigh)
    );

    let mut vault = setup_test();
    assert_eq!(
        vault.initialize(ADMIN, ASSET_TOKEN, LENDING, 100),
        Err(ContractError::VaultAlreadyInitialised)
    );
    assert_eq!(vault.harvest(HARVESTER, 10), Err(ContractError::NoActiveDeposits));
    assert_eq!(vault.harvest(HARVESTER, 0), Err(ContractError::YieldNotPositive));
    assert_eq!(vault.withdraw(ALICE, 0), Err(ContractError::SharesNotPositive));
    vault.deposit(ALICE, 1_000).unwrap();
    vault.harvest(HARVESTER, 1_000).unwrap();
    // 1 * 1000 / 1990 rounds to no share at all
    assert_eq!(vault.deposit(BOB, 1), Err(ContractError::ZeroSharesMinted));
    assert_eq!(vault.deposit(BOB, i128::MAX), Err(ContractError::ArithmeticOverflow));
    assert_eq!(vault.get_user_asset_balance(BOB), 0);
    assert_eq!(vault.set_harvest_fee_bps(ADMIN, 250), Ok(()));
    assert_eq!(vault.get_harvest_fee_bps(), 250);
}

#[test]
fn vault_one_holder_leaves_other_stays() {
    let mut vault = setup_test();
    vault.deposit(ALICE, 10).unwrap();
    vault.deposit(BOB, 10).unwrap();
    assert_eq!(vault.withdraw(BOB, 10).unwrap(), 10);
    assert_eq!(vault.get_user_asset_balance(ALICE), 10);
    assert!(vault.is_well_formed());
}

#[test]
fn vault_zero_payout_rejected() {
    // a ledger where a share is worth half a unit
    let mut vault = setup_test();
    vault.total_shares = 10;
    vault.total_managed_assets = 5;
    vault.holdings = vec![Holding { account: ALICE, shares: 10 }];
    assert!(vault.is_well_formed());
    let result = vault.withdraw(ALICE, 1);
    assert_eq!(result, Err(ContractError::ZeroPayout));
    assert_eq!(result.unwrap_err().message(), "Shares yield zero asset payout");
    assert_eq!(vault.withdraw(ALICE, 4), Ok(2));
}

#[test]
fn vault_detects_corrupted_ledger() {
    let mut vault = setup_test();
    vault.deposit(ALICE, 10).unwrap();
    vault.total_shares = 11;
    assert!(!vault.is_well_formed());
    vault.total_shares = 10;
    vault.holdings.push(Holding { account: ALICE, shares: 1 });
    assert!(!vault.is_well_formed());
}
