use vstd::prelude::*;

use crate::account::{derived_identity, SolAccount};

verus! {

/// Stateless front door for deterministic keypair derivation.
pub struct KeypairGenerator;

impl KeypairGenerator {
    /// Derive the identity that the phrase holds at `at_index`.
    pub fn get_keypair_with(phrase: &str, at_index: u32) -> (r: SolAccount)
        ensures
            r@ == derived_identity(phrase@, at_index),
    {
        SolAccount::get_keypair_with(phrase, at_index)
    }

    /// A fresh identity with no durable backing phrase.
    pub fn random() -> (r: SolAccount) {
        SolAccount::random()
    }
}

} // verus!
