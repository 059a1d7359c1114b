use onchain_registry::Contract;
use onchain_registry::RegistryError;

#[test]
fn test_new() {
    let owner_id = "owner.testnet".to_string();
    let contract = Contract::new(owner_id.clone());

    assert_eq!(contract.owner_id(), &owner_id);
    assert!(contract.get_passwords("owner.testnet".to_string()).is_empty());
}

#[test]
fn test_add_password() {
    let owner_id = "owner.testnet".to_string();
    let mut contract = Contract::new(owner_id.clone());

    let account_id = "user1.testnet".to_string();
    let password_hash1 = "hash123".to_string();
    let password_hash2 = "hash456".to_string();

    let first = contract.add_password(owner_id.clone(), account_id.clone(), password_hash1.clone());
    assert_eq!(first, Ok(()));
    let passwords = contract.get_passwords(account_id.clone());
    assert_eq!(passwords.len(), 1);
    assert_eq!(passwords[0], password_hash1);

    let second = contract.add_password(owner_id.clone(), account_id.clone(), password_hash2.clone());
    assert_eq!(second, Ok(()));
    let passwords = contract.get_passwords(account_id.clone());
    assert_eq!(passwords.len(), 2);
    assert_eq!(passwords[0], password_hash1);
    assert_eq!(passwords[1], password_hash2);
}

#[test]
fn test_add_password_fails_if_not_owner() {
    let owner_id = "owner.testnet".to_string();
    let mut contract = Contract::new(owner_id);

    let non_owner_id = "imposter.testnet".to_string();
    let account_id = "user1.testnet".to_string();
    let password_hash = "hash123".to_string();

    let denied = contract.add_password(non_owner_id, account_id.clone(), password_hash);
    assert_eq!(denied, Err(RegistryError::Unauthorized));
    assert!(contract.get_passwords(account_id).is_empty());
}

#[test]
fn test_get_passwords_non_existent_account() {
    let owner_id = "owner.testnet".to_string();
    let contract = Contract::new(owner_id);

    let account_id = "nonexistent.testnet".to_string();

    let passwords = contract.get_passwords(account_id);
    assert!(passwords.is_empty());
}

#[test]
fn initialization_leaves_every_account_empty() {
    let contract = Contract::new("owner.test".to_string());

    assert_eq!(contract.owner_id(), &"owner.test".to_string());
    assert!(contract.get_passwords("owner.test".to_string()).is_empty());
    assert!(contract.get_passwords("user1.test".to_string()).is_empty());
    assert!(contract.get_passwords("".to_string()).is_empty());
}

#[test]
fn append_as_owner_records_the_value() {
    let mut contract = Contract::new("owner.test".to_string());

    let appended = contract.add_password(
        "owner.test".to_string(),
        "user1.test".to_string(),
        "hash123".to_string(),
    );
    assert_eq!(appended, Ok(()));
    assert_eq!(contract.get_passwords("user1.test".to_string()), vec!["hash123".to_string()]);
}

#[test]
fn appends_accumulate_in_call_order() {
    let mut contract = Contract::new("owner.test".to_string());

    let first = contract.add_password(
        "owner.test".to_string(),
        "user1.test".to_string(),
        "hash123".to_string(),
    );
    assert_eq!(first, Ok(()));
    let second = contract.add_password(
        "owner.test".to_string(),
        "user1.test".to_string(),
        "hash456".to_string(),
    );
    assert_eq!(second, Ok(()));
    assert_eq!(
        contract.get_passwords("user1.test".to_string()),
        vec!["hash123".to_string(), "hash456".to_string()]
    );
}

#[test]
fn append_as_imposter_is_rejected_and_changes_nothing() {
    let mut contract = Contract::new("owner.test".to_string());

    let appended = contract.add_password(
        "owner.test".to_string(),
        "user1.test".to_string(),
        "hash123".to_string(),
    );
    assert_eq!(appended, Ok(()));

    let denied = contract.add_password(
        "imposter.test".to_string(),
        "user1.test".to_string(),
        "hash999".to_string(),
    );
    assert_eq!(denied, Err(RegistryError::Unauthorized));
    assert_eq!(contract.get_passwords("user1.test".to_string()), vec!["hash123".to_string()]);
}

#[test]
fn never_written_account_reads_as_empty() {
    let contract = Contract::new("owner.test".to_string());

    let passwords = contract.get_passwords("nonexistent.test".to_string());
    assert_eq!(passwords, Vec::<String>::new());
}

#[test]
fn accounts_are_kept_apart() {
    let mut contract = Contract::new("owner.test".to_string());

    let appended = contract.add_password(
        "owner.test".to_string(),
        "user1.test".to_string(),
        "hash123".to_string(),
    );
    assert_eq!(appended, Ok(()));

    assert!(contract.get_passwords("user2.test".to_string()).is_empty());
    assert_eq!(contract.get_passwords("user1.test".to_string()), vec!["hash123".to_string()]);
}

#[test]
fn duplicate_values_are_kept() {
    let mut contract = Contract::new("owner.test".to_string());

    for _ in 0..2 {
        let appended = contract.add_password(
            "owner.test".to_string(),
            "user1.test".to_string(),
            "hash123".to_string(),
        );
        assert_eq!(appended, Ok(()));
    }
    assert_eq!(
        contract.get_passwords("user1.test".to_string()),
        vec!["hash123".to_string(), "hash123".to_string()]
    );
}

#[test]
fn owner_may_append_to_its_own_account() {
    let mut contract = Contract::new("owner.test".to_string());

    let appended = contract.add_password(
        "owner.test".to_string(),
        "owner.test".to_string(),
        "hash123".to_string(),
    );
    assert_eq!(appended, Ok(()));
    assert_eq!(contract.get_passwords("owner.test".to_string()), vec!["hash123".to_string()]);
}

#[test]
fn empty_value_round_trips() {
    let mut contract = Contract::new("owner.test".to_string());

    let appended =
        contract.add_password("owner.test".to_string(), "user1.test".to_string(), String::new());
    assert_eq!(appended, Ok(()));
    assert_eq!(contract.get_passwords("user1.test".to_string()), vec![String::new()]);
}
