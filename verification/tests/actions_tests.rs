use lockbox::actions::{
    add_password, list_passwords, remove_password, show_password, store_chosen,
    update_master_password,
};
use lockbox::error::VaultError;
use lockbox::policy::GenerationPolicy;
use lockbox::vault::Vault;

fn s(text: &str) -> String {
    text.to_string()
}

fn standard() -> GenerationPolicy {
    GenerationPolicy::standard()
}

#[test]
fn add_then_show_returns_the_password() {
    let mut vault = Vault::create(s("m"));
    assert_eq!(add_password(&mut vault, s("github"), s("alice"), Some(s("secret")), false, &standard()), Ok(()));
    assert_eq!(show_password(&vault, s("github"), s("alice")), Ok(s("secret")));
}

#[test]
fn add_overwrites_what_was_there() {
    let mut vault = Vault::create(s("m"));
    add_password(&mut vault, s("x"), s("u"), Some(s("one")), false, &standard()).unwrap();
    add_password(&mut vault, s("x"), s("u"), Some(s("two")), false, &standard()).unwrap();
    assert_eq!(vault.len(), 1);
    assert_eq!(show_password(&vault, s("x"), s("u")), Ok(s("two")));
}

#[test]
fn add_then_remove_then_show_is_not_found() {
    let mut vault = Vault::create(s("m"));
    add_password(&mut vault, s("github"), s("alice"), Some(s("secret")), false, &standard()).unwrap();
    assert_eq!(remove_password(&mut vault, s("github"), s("alice")), Ok(()));
    assert_eq!(show_password(&vault, s("github"), s("alice")), Err(VaultError::NotFound));
}

#[test]
fn remove_of_a_missing_record_leaves_the_vault() {
    let mut vault = Vault::create(s("m"));
    add_password(&mut vault, s("github"), s("alice"), Some(s("secret")), false, &standard()).unwrap();
    assert_eq!(remove_password(&mut vault, s("github"), s("bob")), Err(VaultError::NotFound));
    assert_eq!(vault.len(), 1);
    assert_eq!(show_password(&vault, s("github"), s("alice")), Ok(s("secret")));
    let mut empty = Vault::create(s("m"));
    assert_eq!(remove_password(&mut empty, s("a"), s("b")), Err(VaultError::NotFound));
    assert_eq!(empty.len(), 0);
}

#[test]
fn add_without_password_or_generate_is_a_validation_error() {
    let mut vault = Vault::create(s("m"));
    assert_eq!(add_password(&mut vault, s("a"), s("u"), None, false, &standard()), Err(VaultError::Validation));
    assert_eq!(vault.len(), 0);
}

#[test]
fn add_with_generate_stores_a_password_of_the_policy() {
    let mut vault = Vault::create(s("m"));
    let policy = GenerationPolicy {
        length: 24,
        use_symbols: false,
        use_uppercase: false,
        use_lowercase: false,
        use_numbers: true,
        count: 5,
    };
    assert_eq!(add_password(&mut vault, s("a"), s("u"), Some(s("ignored")), true, &policy), Ok(()));
    assert_eq!(vault.len(), 1);
    let stored = show_password(&vault, s("a"), s("u")).unwrap();
    assert_eq!(stored.chars().count(), 24);
    assert!(stored.chars().all(|c| c.is_ascii_digit()));
}

#[test]
fn add_with_generate_and_a_bad_policy_fails() {
    let mut vault = Vault::create(s("m"));
    let none = GenerationPolicy {
        length: 24,
        use_symbols: false,
        use_uppercase: false,
        use_lowercase: false,
        use_numbers: false,
        count: 1,
    };
    assert_eq!(add_password(&mut vault, s("a"), s("u"), Some(s("p")), true, &none), Err(VaultError::Generation));
    let short = GenerationPolicy { length: 2, use_uppercase: true, use_lowercase: true, use_numbers: true, ..none };
    assert_eq!(add_password(&mut vault, s("a"), s("u"), None, true, &short), Err(VaultError::Validation));
    assert_eq!(vault.len(), 0);
}

#[test]
fn store_chosen_hands_on_a_failure() {
    let mut vault = Vault::create(s("m"));
    assert_eq!(store_chosen(&mut vault, s("a"), s("u"), Err(VaultError::Generation)), Err(VaultError::Generation));
    assert_eq!(vault.len(), 0);
    assert_eq!(store_chosen(&mut vault, s("a"), s("u"), Ok(s("p"))), Ok(()));
    assert_eq!(show_password(&vault, s("a"), s("u")), Ok(s("p")));
}

#[test]
fn list_masks_or_reveals_the_password() {
    let mut vault = Vault::create(s("m"));
    add_password(&mut vault, s("github"), s("alice"), Some(s("secret")), false, &standard()).unwrap();
    assert_eq!(
        list_passwords(&vault, false),
        vec![s("Service: github, Username: alice, Password: ********")]
    );
    assert_eq!(
        list_passwords(&vault, true),
        vec![s("Service: github, Username: alice, Password: secret")]
    );
}

#[test]
fn list_follows_the_storage_order() {
    let mut vault = Vault::create(s("m"));
    assert!(list_passwords(&vault, true).is_empty());
    add_password(&mut vault, s("b"), s("u"), Some(s("2")), false, &standard()).unwrap();
    add_password(&mut vault, s("a"), s(""), Some(s("1")), false, &standard()).unwrap();
    assert_eq!(
        list_passwords(&vault, true),
        vec![s("Service: b, Username: u, Password: 2"), s("Service: a, Username: , Password: 1")]
    );
}

#[test]
fn update_master_keeps_the_records() {
    let mut vault = Vault::create(s("old"));
    add_password(&mut vault, s("a"), s("u"), Some(s("1")), false, &standard()).unwrap();
    add_password(&mut vault, s("b"), s("v"), Some(s("2")), false, &standard()).unwrap();
    let before = list_passwords(&vault, true);
    update_master_password(&mut vault, s("new"));
    let reopened = Vault::open(Some(vault.seal()), s("new")).unwrap();
    assert_eq!(list_passwords(&reopened, true), before);
    assert!(matches!(Vault::open(Some(vault.seal()), s("old")), Err(VaultError::Authentication)));
}
