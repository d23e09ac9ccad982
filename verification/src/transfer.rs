use vstd::prelude::*;

use crate::account::{derived_identity, SolAccount};
use crate::error::EncodingError;
use crate::ops::{
    sum_u64, total_transfer_lamports, transfer_count, ChainOp, TxPlan,
};

verus! {

/// The operations of a SOL batch: one transfer per destination, in order,
/// all funded by `from`.
pub open spec fn sol_transfer_ops(
    from: [u8; 32],
    dests: Seq<[u8; 32]>,
    amounts: Seq<u64>,
) -> Seq<ChainOp> {
    Seq::new(
        dests.len(),
        |i: int| ChainOp::SolTransfer { from: from, to: dests[i], lamports: amounts[i] },
    )
}

/// Batch integrity: a SOL batch over `dests` and `amounts` of equal length
/// holds exactly one transfer per destination, and moves exactly the sum of
/// the amounts.
pub proof fn lemma_batch_integrity(from: [u8; 32], dests: Seq<[u8; 32]>, amounts: Seq<u64>)
    requires
        dests.len() == amounts.len(),
    ensures
        transfer_count(sol_transfer_ops(from, dests, amounts)) == dests.len(),
        total_transfer_lamports(sol_transfer_ops(from, dests, amounts)) == sum_u64(amounts),
    decreases dests.len(),
{
    let ops = sol_transfer_ops(from, dests, amounts);
    if dests.len() == 0 {
        assert(ops =~= Seq::<ChainOp>::empty());
    } else {
        lemma_batch_integrity(from, dests.drop_last(), amounts.drop_last());
        assert(ops.drop_last() =~= sol_transfer_ops(from, dests.drop_last(), amounts.drop_last()));
        assert(ops.last() == (ChainOp::SolTransfer {
            from: from,
            to: dests.last(),
            lamports: amounts.last(),
        }));
    }
}

/// Plan one atomic transaction that moves SOL from `from` to each destination
/// in turn. The destination and amount lists must pair up and must name at
/// least one transfer; a violation is surfaced as a typed error before
/// anything is encoded.
#[verifier::loop_isolation(false)]
pub fn plan_sol_transfers(
    from: [u8; 32],
    to_pubkeys: &Vec<[u8; 32]>,
    amounts: &Vec<u64>,
) -> (r: Result<TxPlan, EncodingError>)
    ensures
        to_pubkeys@.len() != amounts@.len() ==> r == Err::<TxPlan, EncodingError>(
            EncodingError::LengthMismatch,
        ),
        to_pubkeys@.len() == amounts@.len() && to_pubkeys@.len() == 0 ==> r == Err::<
            TxPlan,
            EncodingError,
        >(EncodingError::EmptyBatch),
        to_pubkeys@.len() == amounts@.len() && to_pubkeys@.len() > 0 ==> (r matches Ok(p)
            && p.fee_payer == from
            && p.ops@ == sol_transfer_ops(from, to_pubkeys@, amounts@)
            && transfer_count(p.ops@) == to_pubkeys@.len()
            && total_transfer_lamports(p.ops@) == sum_u64(amounts@)),
{
    if to_pubkeys.len() != amounts.len() {
        return Err(EncodingError::LengthMismatch);
    }
    if to_pubkeys.len() == 0 {
        return Err(EncodingError::EmptyBatch);
    }
    let ghost target = sol_transfer_ops(from, to_pubkeys@, amounts@);
    let mut ops: Vec<ChainOp> = Vec::new();
    let mut i: usize = 0;
    while i < to_pubkeys.len()
        invariant
            i <= to_pubkeys@.len(),
            ops@ =~= target.take(i as int),
        decreases to_pubkeys@.len() - i,
    {
        ops.push(ChainOp::SolTransfer { from: from, to: to_pubkeys[i], lamports: amounts[i] });
        assert(ops@ =~= target.take(i + 1));
        i = i + 1;
    }
    assert(ops@ =~= target);
    proof {
        lemma_batch_integrity(from, to_pubkeys@, amounts@);
    }
    Ok(TxPlan { fee_payer: from, ops })
}

/// Derive the public keys that the phrase holds at each index, in order.
#[verifier::loop_isolation(false)]
pub fn derive_pubkeys(phrase: &str, idxs: &Vec<u32>) -> (r: Vec<[u8; 32]>)
    ensures
        r@.len() == idxs@.len(),
        forall|i: int|
            0 <= i < idxs@.len() ==> (#[trigger] r@[i])@ == derived_identity(phrase@, idxs@[i]),
{
    let mut keys: Vec<[u8; 32]> = Vec::new();
    let mut i: usize = 0;
    while i < idxs.len()
        invariant
            i <= idxs@.len(),
            keys@.len() == i,
            forall|j: int|
                0 <= j < i ==> (#[trigger] keys@[j])@ == derived_identity(phrase@, idxs@[j]),
        decreases idxs@.len() - i,
    {
        let account = SolAccount::get_keypair_with(phrase, idxs[i]);
        keys.push(account.pubkey());
        i = i + 1;
    }
    keys
}

/// Plan one atomic transaction that moves SOL from the identity the phrase
/// holds at `from_idx` to the identities it holds at `idxs`, one amount each.
/// The source account comes back with the plan so a caller can sign with it.
pub fn plan_sol_distribution(
    phrase: &str,
    from_idx: u32,
    idxs: &Vec<u32>,
    amounts: &Vec<u64>,
) -> (r: Result<(SolAccount, TxPlan), EncodingError>)
    ensures
        idxs@.len() != amounts@.len() ==> (r matches Err(e) && e
            == EncodingError::LengthMismatch),
        idxs@.len() == amounts@.len() && idxs@.len() == 0 ==> (r matches Err(e) && e
            == EncodingError::EmptyBatch),
        idxs@.len() == amounts@.len() && idxs@.len() > 0 ==> (r matches Ok(sp)
            && sp.0@ == derived_identity(phrase@, from_idx)
            && sp.1.fee_payer@ == sp.0@
            && sp.1.ops@.len() == idxs@.len()
            && transfer_count(sp.1.ops@) == idxs@.len()
            && total_transfer_lamports(sp.1.ops@) == sum_u64(amounts@)
            && forall|i: int|
                0 <= i < idxs@.len() ==> ((#[trigger] sp.1.ops@[i]) matches ChainOp::SolTransfer {
                    from,
                    to,
                    lamports,
                } && from@ == sp.0@ && to@ == derived_identity(phrase@, idxs@[i]) && lamports
                    == amounts@[i])),
{
    let from_account = SolAccount::get_keypair_with(phrase, from_idx);
    let dests = derive_pubkeys(phrase, idxs);
    let plan = plan_sol_transfers(from_account.pubkey(), &dests, amounts)?;
    Ok((from_account, plan))
}

} // verus!
