use vstd::prelude::*;

verus! {

#[verifier::external_type_specification]
#[verifier::external_body]
pub struct ExKeypair(solana_sdk::signature::Keypair);

/// The 64-byte seed that the standard mnemonic-to-seed function produces from
/// a secret phrase and a passphrase. The function is deterministic, so the
/// result is named rather than spelled out.
pub uninterp spec fn seed_of(phrase: Seq<char>, passphrase: Seq<char>) -> Seq<u8>;

/// The 32 public-key bytes of the keypair derived from a seed along the
/// hardened BIP-44 path for Solana with the given account and change indexes.
pub uninterp spec fn derived_pubkey(seed: Seq<u8>, account: u32, change: u32) -> Seq<u8>;

/// The base58 rendering of a byte string.
pub uninterp spec fn base58_of(bytes: Seq<u8>) -> Seq<char>;

/// The public key derived from a phrase at an index, with an empty passphrase
/// and the change field fixed at zero. This is the whole observable outcome of
/// `SolAccount::get_keypair_with`: a function of phrase and index alone.
pub open spec fn derived_identity(phrase: Seq<char>, index: u32) -> Seq<u8> {
    derived_pubkey(seed_of(phrase, Seq::<char>::empty()), index, 0)
}

/// Relies on solana_sdk's generate_seed_from_seed_phrase_and_passphrase:
/// PBKDF2 over the phrase with the passphrase in the salt, always 64 bytes,
/// a function of the two strings alone; it accepts any strings.
#[verifier::external_body]
fn seed_from_phrase(phrase: &str, passphrase: &str) -> (r: Vec<u8>)
    ensures
        r@ == seed_of(phrase@, passphrase@),
        r@.len() == 64,
{
    solana_sdk::signature::generate_seed_from_seed_phrase_and_passphrase(phrase, passphrase)
}

/// A signing identity: a keypair held for the duration of one operation,
/// together with its public key held as plain bytes. The view of the account
/// is the public-key byte sequence.
pub struct SolAccount {
    keypair: solana_sdk::signature::Keypair,
    pubkey_bytes: [u8; 32],
}

impl View for SolAccount {
    type V = Seq<u8>;

    closed spec fn view(&self) -> Seq<u8> {
        self.pubkey_bytes@
    }
}

/// Relies on solana_sdk's DerivationPath::new_bip44 and
/// keypair_from_seed_and_derivation_path: every index of the path is hardened,
/// so the derivation succeeds for every seed and every pair of indexes, and
/// the resulting key is a function of seed and path alone.
#[verifier::external_body]
fn keypair_from_seed_bip44(seed: &Vec<u8>, account: u32, change: u32) -> (r: SolAccount)
    ensures
        r@ == derived_pubkey(seed@, account, change),
{
    let path = solana_sdk::derivation_path::DerivationPath::new_bip44(
        Some(account),
        Some(change),
    );
    let keypair =
        solana_sdk::signature::keypair_from_seed_and_derivation_path(seed, Some(path))
            .expect("hardened derivation cannot fail");
    let pubkey_bytes = solana_sdk::signer::Signer::pubkey(&keypair).to_bytes();
    SolAccount { keypair, pubkey_bytes }
}

/// Relies on solana_sdk's Keypair::new: a fresh keypair from the system's
/// randomness; nothing is promised of its value.
#[verifier::external_body]
fn random_account() -> (r: SolAccount)
{
    let keypair = solana_sdk::signature::Keypair::new();
    let pubkey_bytes = solana_sdk::signer::Signer::pubkey(&keypair).to_bytes();
    SolAccount { keypair, pubkey_bytes }
}

/// Relies on Pubkey's Display impl: the base58 encoding of the 32 key bytes,
/// a function of the bytes alone.
#[verifier::external_body]
fn base58_string(bytes: &[u8; 32]) -> (r: String)
    ensures
        r@ == base58_of(bytes@),
{
    solana_sdk::pubkey::Pubkey::new_from_array(*bytes).to_string()
}

impl SolAccount {
    /// Derive the identity that the phrase holds at `at_index`: the same
    /// phrase and index always yield the same public key.
    pub fn get_keypair_with(phrase: &str, at_index: u32) -> (r: SolAccount)
        ensures
            r@ == derived_identity(phrase@, at_index),
    {
        let seed = seed_from_phrase(phrase, "");
        proof {
            reveal_strlit("");
            assert(""@ =~= Seq::<char>::empty());
        }
        keypair_from_seed_bip44(&seed, at_index, 0)
    }

    /// A fresh identity with no durable backing phrase.
    pub fn random() -> (r: SolAccount) {
        random_account()
    }

    /// The signing keypair, for handing to a transaction signer.
    pub fn keypair(&self) -> &solana_sdk::signature::Keypair {
        &self.keypair
    }

    /// The public key as base58 text.
    pub fn address(&self) -> (r: String)
        ensures
            r@ == base58_of(self@),
    {
        base58_string(&self.pubkey_bytes)
    }

    /// The public key bytes.
    pub fn pubkey(&self) -> (r: [u8; 32])
        ensures
            r@ == self@,
    {
        self.pubkey_bytes
    }
}

/// Determinism of derivation: any two accounts derived from the same phrase
/// and the same index carry the same public key.
pub proof fn lemma_derive_deterministic(
    a1: SolAccount,
    a2: SolAccount,
    phrase: Seq<char>,
    index: u32,
)
    requires
        a1@ == derived_identity(phrase, index),
        a2@ == derived_identity(phrase, index),
    ensures
        a1@ == a2@,
{
}

} // verus!
