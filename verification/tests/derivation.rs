use sol_rs::account::SolAccount;
use sol_rs::keypair_generator::KeypairGenerator;
use solana_sdk::signer::Signer;

const PHRASE: &str =
    "abandon abandon abandon abandon abandon abandon abandon abandon abandon abandon abandon about";

#[test]
fn test_derive_deterministic() {
    let a = SolAccount::get_keypair_with(PHRASE, 1);
    let b = SolAccount::get_keypair_with(PHRASE, 1);
    assert_eq!(a.pubkey(), b.pubkey(), "same phrase and index must give the same public key");
    assert_eq!(a.address(), b.address());
    assert_eq!(a.keypair().to_bytes(), b.keypair().to_bytes());
}

#[test]
fn test_derive_distinct_indices() {
    let a = SolAccount::get_keypair_with(PHRASE, 1);
    let b = SolAccount::get_keypair_with(PHRASE, 2);
    assert_ne!(a.pubkey(), b.pubkey(), "different indices must give different public keys");
}

#[test]
fn test_derive_matches_sdk() {
    let account = SolAccount::get_keypair_with(PHRASE, 7);
    let seed = solana_sdk::signature::generate_seed_from_seed_phrase_and_passphrase(PHRASE, "");
    let path = solana_sdk::derivation_path::DerivationPath::new_bip44(Some(7), Some(0));
    let keypair =
        solana_sdk::signature::keypair_from_seed_and_derivation_path(&seed, Some(path)).unwrap();
    assert_eq!(account.pubkey(), keypair.pubkey().to_bytes());
}

#[test]
fn test_keypair_generator_agrees_with_account() {
    let a = KeypairGenerator::get_keypair_with(PHRASE, 3);
    let b = SolAccount::get_keypair_with(PHRASE, 3);
    assert_eq!(a.pubkey(), b.pubkey());
}

#[test]
fn test_address_is_base58_of_pubkey() {
    let account = SolAccount::get_keypair_with(PHRASE, 5);
    let expected = solana_sdk::pubkey::Pubkey::new_from_array(account.pubkey()).to_string();
    assert_eq!(account.address(), expected);
}

#[test]
fn test_random_accounts_distinct() {
    let a = SolAccount::random();
    let b = SolAccount::random();
    assert_ne!(a.pubkey(), b.pubkey());
}

#[test]
fn test_keypair_generator_random_has_no_phrase_backing() {
    let a = KeypairGenerator::random();
    let b = SolAccount::get_keypair_with(PHRASE, 1);
    assert_ne!(a.pubkey(), b.pubkey());
}
