use reputation_ledger::faucets::{Drop, FaucetError, FaucetSettings, FaucetSettingsUpdate, Module};

const F: u64 = 1;
const G: u64 = 2;
const R: u64 = 50;

fn settings(period: Option<u64>) -> FaucetSettings {
    FaucetSettings { period, period_limit: 100, drop_limit: 40 }
}

fn registry(period: Option<u64>) -> Module {
    let mut m = Module::new();
    assert_eq!(m.add_faucet(F, settings(period), 1000, 10), Ok(()));
    m
}

#[test]
fn new_drop_starts_empty() {
    assert_eq!(Drop::new(3, 77), Drop { id: 3, last_drop_at: 77, total_dropped: 0 });
}

#[test]
fn add_faucet_checks() {
    let mut m = registry(None);
    assert_eq!(m.require_faucet_settings(F), Ok(settings(None)));
    assert_eq!(m.require_faucet_settings(G), Err(FaucetError::FaucetNotFound));
    assert_eq!(m.add_faucet(F, settings(None), 1000, 10), Err(FaucetError::FaucetAlreadyAdded));
    assert_eq!(m.add_faucet(G, settings(None), 5, 10), Err(FaucetError::NoFreeBalanceOnAccount));
    assert_eq!(m.require_faucet_settings(G), Err(FaucetError::FaucetNotFound));
}

#[test]
fn update_faucet_rules() {
    let mut m = registry(None);
    let none = FaucetSettingsUpdate { period: None, period_limit: None, drop_limit: None };
    assert_eq!(m.update_faucet(F, none), Err(FaucetError::NothingToUpdate));
    let same = FaucetSettingsUpdate { period: Some(None), period_limit: Some(100), drop_limit: None };
    assert_eq!(m.update_faucet(F, same), Err(FaucetError::NothingToUpdate));
    let change = FaucetSettingsUpdate { period: Some(Some(10)), period_limit: None, drop_limit: Some(5) };
    assert_eq!(m.update_faucet(G, change), Err(FaucetError::FaucetNotFound));
    assert_eq!(m.update_faucet(F, change), Ok(()));
    assert_eq!(
        m.require_faucet_settings(F),
        Ok(FaucetSettings { period: Some(10), period_limit: 100, drop_limit: 5 })
    );
}

#[test]
fn drip_records_and_limits() {
    let mut m = registry(None);
    assert_eq!(m.plan_drip(F, 0, R, 5), Err(FaucetError::ZeroAmount));
    assert_eq!(m.plan_drip(G, 10, R, 5), Err(FaucetError::FaucetNotFound));
    assert_eq!(m.plan_drip(F, 41, R, 5), Err(FaucetError::DropAmountLimit));
    assert_eq!(m.plan_drip(F, 30, R, 5), Ok(Drop { id: 1, last_drop_at: 5, total_dropped: 0 }));
    assert_eq!(m.drip(F, 30, R, 5), Ok(()));
    assert_eq!(m.next_drop_id(), 2);
    assert_eq!(m.drop_id_by_recipient(R), Some(1));
    assert_eq!(m.drop_by_id(1), Some(Drop { id: 1, last_drop_at: 5, total_dropped: 30 }));
    assert_eq!(m.total_faucet_drops_by_account(R, F), 30);
    assert_eq!(m.drip(F, 40, R, 6), Ok(()));
    assert_eq!(m.drop_by_id(1), Some(Drop { id: 1, last_drop_at: 6, total_dropped: 70 }));
    assert_eq!(m.drip(F, 40, R, 7), Err(FaucetError::FaucetLimitReached));
    assert_eq!(m.drip(F, 30, R, 7), Ok(()));
    assert_eq!(m.total_faucet_drops_by_account(R, F), 100);
    assert_eq!(m.next_drop_id(), 2);
    assert_eq!(m.drip(F, 1, R, 1000), Err(FaucetError::FaucetLimitReached));
}

#[test]
fn drip_period_restarts() {
    let mut m = registry(Some(10));
    assert_eq!(m.drip(F, 40, R, 100), Ok(()));
    assert_eq!(m.drip(F, 40, R, 105), Ok(()));
    assert_eq!(m.drop_by_id(1), Some(Drop { id: 1, last_drop_at: 100, total_dropped: 80 }));
    assert_eq!(m.drip(F, 40, R, 109), Err(FaucetError::FaucetLimitReached));
    assert_eq!(m.drip(F, 40, R, 110), Ok(()));
    assert_eq!(m.drop_by_id(1), Some(Drop { id: 1, last_drop_at: 110, total_dropped: 40 }));
    assert_eq!(m.total_faucet_drops_by_account(R, F), 120);
}

#[test]
fn remove_faucets_lists_registered_once() {
    let mut m = registry(None);
    assert_eq!(m.add_faucet(G, settings(None), 1000, 10), Ok(()));
    assert_eq!(m.remove_faucets(&vec![]), Err(FaucetError::NoFaucetsProvided));
    assert_eq!(m.faucets_to_remove(&vec![G, 9, F, G]), Ok(vec![F, G]));
    assert_eq!(m.remove_faucets(&vec![G, 9, G]), Ok(vec![G]));
    assert_eq!(m.require_faucet_settings(G), Err(FaucetError::FaucetNotFound));
    assert_eq!(m.require_faucet_settings(F), Ok(settings(None)));
}
