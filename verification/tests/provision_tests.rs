use reconciler::provision::{ProvisionOutcome, WalletDirectory};

#[test]
fn provisioning_twice_degrades_to_load() {
    // Provisioning the same name twice never errors: the second request
    // finds the wallet present and loads it.
    let mut dir = WalletDirectory::new();
    assert_eq!(dir.provision(&"Miner".to_string()), ProvisionOutcome::Created);
    assert_eq!(dir.provision(&"Miner".to_string()), ProvisionOutcome::Loaded);
    assert_eq!(dir.provision(&"Miner".to_string()), ProvisionOutcome::Loaded);
}

#[test]
fn provisioning_distinct_names_creates_each() {
    let mut dir = WalletDirectory::new();
    assert_eq!(dir.provision(&"Miner".to_string()), ProvisionOutcome::Created);
    assert_eq!(dir.provision(&"Trader".to_string()), ProvisionOutcome::Created);
    assert_eq!(dir.provision(&"Miner".to_string()), ProvisionOutcome::Loaded);
    assert_eq!(dir.provision(&"Trader".to_string()), ProvisionOutcome::Loaded);
}

#[test]
fn create_fails_exactly_on_existing_name() {
    let mut dir = WalletDirectory::new();
    assert!(dir.try_create(&"Miner".to_string()).is_ok());
    assert!(dir.try_create(&"Miner".to_string()).is_err());
    assert!(dir.try_create(&"Trader".to_string()).is_ok());
}

#[test]
fn load_fails_exactly_on_missing_name() {
    let mut dir = WalletDirectory::new();
    assert!(dir.try_load(&"Miner".to_string()).is_err());
    assert!(dir.try_create(&"Miner".to_string()).is_ok());
    assert!(dir.try_load(&"Miner".to_string()).is_ok());
}
