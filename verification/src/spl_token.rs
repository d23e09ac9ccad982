use vstd::prelude::*;

use crate::error::EncodingError;
use crate::ops::{
    op_token_amount, sum_u64, token_transfer_count, total_token_amount, ChainOp, TxPlan,
};

verus! {

/// The associated token account address of a wallet for a token mint: a
/// deterministic address derivation, a function of the two keys alone.
pub uninterp spec fn ata_of(wallet: Seq<u8>, mint: Seq<u8>) -> Seq<u8>;

/// The amount field of a token account parsed from raw account data, or
/// nothing when the data does not parse as a token account.
pub uninterp spec fn token_amount_parsed(data: Seq<u8>) -> Option<u64>;

/// Helpers around the token program's deterministic addressing.
pub struct SPLToken;

impl SPLToken {
    /// Relies on spl_associated_token_account's get_associated_token_address:
    /// the associated token account address is a function of the wallet and
    /// the mint alone, and the call never fails.
    #[verifier::external_body]
    pub fn ata_address(token_mint_account: &[u8; 32], account: &[u8; 32]) -> (r: [u8; 32])
        ensures
            r@ == ata_of(account@, token_mint_account@),
    {
        spl_associated_token_account::get_associated_token_address(
            &solana_sdk::pubkey::Pubkey::new_from_array(*account),
            &solana_sdk::pubkey::Pubkey::new_from_array(*token_mint_account),
        )
        .to_bytes()
    }
}

/// Relies on spl_token's Account::unpack: parses the fixed token-account
/// layout; whether the bytes parse, and the amount they carry, are functions
/// of the bytes alone.
#[verifier::external_body]
pub fn unpack_token_amount(data: &Vec<u8>) -> (r: Result<u64, EncodingError>)
    ensures
        r matches Ok(a) ==> token_amount_parsed(data@) == Some(a),
        r is Err ==> token_amount_parsed(data@) is None,
        r matches Err(e) ==> e == EncodingError::InvalidAccountData,
{
    match <spl_token::state::Account as solana_sdk::program_pack::Pack>::unpack(data.as_slice()) {
        Ok(account) => Ok(account.amount),
        Err(_) => Err(EncodingError::InvalidAccountData),
    }
}

/// Whether two public keys hold the same bytes.
#[verifier::loop_isolation(false)]
pub fn same_pubkey(a: &[u8; 32], b: &[u8; 32]) -> (r: bool)
    ensures
        r == (a@ == b@),
{
    let mut i: usize = 0;
    while i < 32
        invariant
            i <= 32,
            forall|j: int| 0 <= j < i ==> a@[j] == b@[j],
        decreases 32 - i,
    {
        if a[i] != b[i] {
            return false;
        }
        i = i + 1;
    }
    proof {
        assert(a@ =~= b@);
    }
    true
}

/// The operation list that makes sure a wallet's associated token account
/// exists: empty when it already does, one creation funded by `funder` when
/// it does not.
pub open spec fn ensure_ata_ops(
    funder: [u8; 32],
    wallet: [u8; 32],
    mint: [u8; 32],
    exists: bool,
) -> Seq<ChainOp> {
    if exists {
        Seq::<ChainOp>::empty()
    } else {
        seq![ChainOp::CreateAta { funder: funder, wallet: wallet, mint: mint }]
    }
}

/// Plan the operations that make sure a wallet's associated token account
/// exists, from the result of an existence check done by the caller.
pub fn plan_ensure_ata(
    funder: [u8; 32],
    wallet: [u8; 32],
    mint: [u8; 32],
    ata_exists: bool,
) -> (p: TxPlan)
    ensures
        p.fee_payer == funder,
        p.ops@ == ensure_ata_ops(funder, wallet, mint, ata_exists),
{
    let mut ops: Vec<ChainOp> = Vec::new();
    if !ata_exists {
        ops.push(ChainOp::CreateAta { funder: funder, wallet: wallet, mint: mint });
    }
    proof {
        assert(ops@ =~= ensure_ata_ops(funder, wallet, mint, ata_exists));
    }
    TxPlan { fee_payer: funder, ops }
}

/// Plan one atomic transaction that creates a token mint: the mint account
/// is created with the rent-exempt balance the caller fetched, then the mint
/// is initialized with the payer as authority and nine decimals. Both the
/// payer and the new mint account must sign.
pub fn plan_create_spl_token(payer: [u8; 32], mint_account: [u8; 32], mint_rent: u64) -> (p:
    TxPlan)
    ensures
        p.fee_payer == payer,
        p.ops@ =~= seq![
            (ChainOp::CreateMintAccount { payer: payer, mint: mint_account, lamports: mint_rent }),
            (ChainOp::InitializeMint { mint: mint_account, authority: payer, decimals: 9 }),
        ],
{
    let mut ops: Vec<ChainOp> = Vec::new();
    ops.push(ChainOp::CreateMintAccount { payer: payer, mint: mint_account, lamports: mint_rent });
    ops.push(ChainOp::InitializeMint { mint: mint_account, authority: payer, decimals: 9 });
    TxPlan { fee_payer: payer, ops }
}

/// Plan one atomic transaction that mints `amount` base units to a wallet's
/// associated token account, creating that account first when the caller's
/// existence check found none.
pub fn plan_mint_spl_token(
    payer: [u8; 32],
    mint_account: [u8; 32],
    to_wallet: [u8; 32],
    ata_exists: bool,
    amount: u64,
) -> (p: TxPlan)
    ensures
        p.fee_payer == payer,
        p.ops@.len() == ensure_ata_ops(payer, to_wallet, mint_account, ata_exists).len() + 1,
        p.ops@.drop_last() == ensure_ata_ops(payer, to_wallet, mint_account, ata_exists),
        (p.ops@.last() matches ChainOp::MintTo { mint, dest_ata, authority, amount: a } && mint
            == mint_account && dest_ata@ == ata_of(to_wallet@, mint_account@) && authority == payer
            && a == amount),
{
    let dest_ata = SPLToken::ata_address(&mint_account, &to_wallet);
    let mut ops: Vec<ChainOp> = Vec::new();
    if !ata_exists {
        ops.push(ChainOp::CreateAta { funder: payer, wallet: to_wallet, mint: mint_account });
    }
    ops.push(ChainOp::MintTo {
        mint: mint_account,
        dest_ata,
        authority: payer,
        amount,
    });
    proof {
        assert(ops@.drop_last() =~= ensure_ata_ops(payer, to_wallet, mint_account, ata_exists));
    }
    TxPlan { fee_payer: payer, ops }
}

/// Plan one atomic transaction that moves `amount` token base units from the
/// source wallet's associated token account to the destination wallet's,
/// creating the destination account first when the caller's existence check
/// found none. The source wallet owns the moved funds; the payer funds the
/// account creation and the fee.
pub fn plan_transfer_spl_token(
    payer: [u8; 32],
    mint_account: [u8; 32],
    src_wallet: [u8; 32],
    to_wallet: [u8; 32],
    to_ata_exists: bool,
    amount: u64,
) -> (p: TxPlan)
    ensures
        p.fee_payer == payer,
        p.ops@.len() == ensure_ata_ops(payer, to_wallet, mint_account, to_ata_exists).len() + 1,
        p.ops@.drop_last() == ensure_ata_ops(payer, to_wallet, mint_account, to_ata_exists),
        (p.ops@.last() matches ChainOp::TokenTransfer { src_ata, dest_ata, owner, payer: py, amount: a }
            && src_ata@ == ata_of(src_wallet@, mint_account@)
            && dest_ata@ == ata_of(to_wallet@, mint_account@)
            && owner == src_wallet && py == payer && a == amount),
{
    let src_ata = SPLToken::ata_address(&mint_account, &src_wallet);
    let dest_ata = SPLToken::ata_address(&mint_account, &to_wallet);
    let mut ops: Vec<ChainOp> = Vec::new();
    if !to_ata_exists {
        ops.push(ChainOp::CreateAta { funder: payer, wallet: to_wallet, mint: mint_account });
    }
    ops.push(ChainOp::TokenTransfer {
        src_ata,
        dest_ata,
        owner: src_wallet,
        payer,
        amount,
    });
    proof {
        assert(ops@.drop_last() =~= ensure_ata_ops(payer, to_wallet, mint_account, to_ata_exists));
    }
    TxPlan { fee_payer: payer, ops }
}

/// Plan one atomic transaction that moves `amount` token base units from the
/// source wallet's associated token account straight to an already-known
/// token account address.
pub fn plan_transfer_spl_token_to_ata(
    payer: [u8; 32],
    mint_account: [u8; 32],
    src_wallet: [u8; 32],
    to_ata: [u8; 32],
    amount: u64,
) -> (p: TxPlan)
    ensures
        p.fee_payer == payer,
        p.ops@.len() == 1,
        (p.ops@[0] matches ChainOp::TokenTransfer { src_ata, dest_ata, owner, payer: py, amount: a }
            && src_ata@ == ata_of(src_wallet@, mint_account@) && dest_ata == to_ata && owner
            == src_wallet && py == payer && a == amount),
{
    let src_ata = SPLToken::ata_address(&mint_account, &src_wallet);
    let mut ops: Vec<ChainOp> = Vec::new();
    ops.push(ChainOp::TokenTransfer {
        src_ata,
        dest_ata: to_ata,
        owner: src_wallet,
        payer,
        amount,
    });
    TxPlan { fee_payer: payer, ops }
}

/// The account-creation prefix of a token distribution: one associated token
/// account creation, funded by `funder`, for each wallet whose account the
/// caller's existence check did not find, in wallet order.
pub open spec fn ata_create_ops(
    funder: [u8; 32],
    wallets: Seq<[u8; 32]>,
    mint: [u8; 32],
    exists: Seq<bool>,
) -> Seq<ChainOp>
    decreases wallets.len(),
{
    if wallets.len() == 0 {
        Seq::<ChainOp>::empty()
    } else {
        ata_create_ops(funder, wallets.drop_last(), mint, exists.drop_last()) + if exists.last() {
            Seq::<ChainOp>::empty()
        } else {
            seq![ChainOp::CreateAta { funder: funder, wallet: wallets.last(), mint: mint }]
        }
    }
}

/// How many existence checks came back empty.
pub open spec fn count_missing(exists: Seq<bool>) -> nat
    decreases exists.len(),
{
    if exists.len() == 0 {
        0
    } else {
        count_missing(exists.drop_last()) + if exists.last() {
            0nat
        } else {
            1nat
        }
    }
}

proof fn lemma_ata_create_ops_len(
    funder: [u8; 32],
    wallets: Seq<[u8; 32]>,
    mint: [u8; 32],
    exists: Seq<bool>,
)
    requires
        wallets.len() == exists.len(),
    ensures
        ata_create_ops(funder, wallets, mint, exists).len() == count_missing(exists),
    decreases wallets.len(),
{
    if wallets.len() > 0 {
        lemma_ata_create_ops_len(funder, wallets.drop_last(), mint, exists.drop_last());
    }
}

proof fn lemma_ata_create_ops_kinds(
    funder: [u8; 32],
    wallets: Seq<[u8; 32]>,
    mint: [u8; 32],
    exists: Seq<bool>,
)
    requires
        wallets.len() == exists.len(),
    ensures
        forall|t: int|
            0 <= t < ata_create_ops(funder, wallets, mint, exists).len() ==> (#[trigger]
            ata_create_ops(funder, wallets, mint, exists)[t]) is CreateAta,
    decreases wallets.len(),
{
    if wallets.len() > 0 {
        lemma_ata_create_ops_kinds(funder, wallets.drop_last(), mint, exists.drop_last());
    }
}

proof fn lemma_ata_create_ops_take(
    funder: [u8; 32],
    wallets: Seq<[u8; 32]>,
    mint: [u8; 32],
    exists: Seq<bool>,
    i: int,
)
    requires
        wallets.len() == exists.len(),
        0 <= i < wallets.len(),
    ensures
        ata_create_ops(funder, wallets.take(i + 1), mint, exists.take(i + 1)) == ata_create_ops(
            funder,
            wallets.take(i),
            mint,
            exists.take(i),
        ) + (if exists[i] {
            Seq::<ChainOp>::empty()
        } else {
            seq![ChainOp::CreateAta { funder: funder, wallet: wallets[i], mint: mint }]
        }),
{
    assert(wallets.take(i + 1).drop_last() =~= wallets.take(i));
    assert(exists.take(i + 1).drop_last() =~= exists.take(i));
    assert(wallets.take(i + 1).last() == wallets[i]);
    assert(exists.take(i + 1).last() == exists[i]);
}

/// Token batch integrity: operations that hold no token transfer in their
/// first `k` places and exactly one token transfer per amount after that
/// move, in total, exactly the sum of the amounts.
pub proof fn lemma_token_batch_integrity(ops: Seq<ChainOp>, k: int, amounts: Seq<u64>)
    requires
        0 <= k,
        ops.len() == k + amounts.len(),
        forall|t: int| 0 <= t < k ==> !((#[trigger] ops[t]) is TokenTransfer),
        forall|t: int|
            0 <= t < amounts.len() ==> ((#[trigger] ops[k + t]) is TokenTransfer
                && op_token_amount(ops[k + t]) == amounts[t]),
    ensures
        token_transfer_count(ops) == amounts.len(),
        total_token_amount(ops) == sum_u64(amounts),
    decreases ops.len(),
{
    if amounts.len() > 0 {
        lemma_token_batch_integrity(ops.drop_last(), k, amounts.drop_last());
        assert(ops.last() == ops[k + (amounts.len() - 1)]);
    } else if k > 0 {
        lemma_token_batch_integrity(ops.drop_last(), k - 1, amounts);
        assert(ops.last() == ops[k - 1]);
    }
}

/// The associated token account address of each wallet for a mint, in order.
#[verifier::loop_isolation(false)]
pub fn ata_addresses(mint_account: &[u8; 32], wallets: &Vec<[u8; 32]>) -> (r: Vec<[u8; 32]>)
    ensures
        r@.len() == wallets@.len(),
        forall|i: int|
            0 <= i < wallets@.len() ==> (#[trigger] r@[i])@ == ata_of(wallets@[i]@, mint_account@),
{
    let mut atas: Vec<[u8; 32]> = Vec::new();
    let mut i: usize = 0;
    while i < wallets.len()
        invariant
            i <= wallets@.len(),
            atas@.len() == i,
            forall|j: int|
                0 <= j < i ==> (#[trigger] atas@[j])@ == ata_of(wallets@[j]@, mint_account@),
        decreases wallets@.len() - i,
    {
        atas.push(SPLToken::ata_address(mint_account, &wallets[i]));
        i = i + 1;
    }
    atas
}

/// Plan one atomic transaction that distributes token base units from the
/// source wallet's associated token account to each destination wallet's:
/// first an account creation for every destination whose associated account
/// the caller's existence check did not find, then one transfer per
/// destination, in order. The wallet, existence and amount lists must pair
/// up and must name at least one transfer.
#[verifier::loop_isolation(false)]
pub fn plan_distribute_spl_token(
    payer: [u8; 32],
    mint_account: [u8; 32],
    src_wallet: [u8; 32],
    to_wallets: &Vec<[u8; 32]>,
    ata_exists: &Vec<bool>,
    amounts: &Vec<u64>,
) -> (r: Result<TxPlan, EncodingError>)
    ensures
        to_wallets@.len() != amounts@.len() || ata_exists@.len() != to_wallets@.len() ==> (
        r matches Err(e) && e == EncodingError::LengthMismatch),
        to_wallets@.len() == amounts@.len() && ata_exists@.len() == to_wallets@.len()
            && to_wallets@.len() == 0 ==> (r matches Err(e) && e == EncodingError::EmptyBatch),
        to_wallets@.len() == amounts@.len() && ata_exists@.len() == to_wallets@.len()
            && to_wallets@.len() > 0 ==> (r matches Ok(p)
            && p.fee_payer == payer
            && p.ops@.len() == count_missing(ata_exists@) + to_wallets@.len()
            && p.ops@.take(count_missing(ata_exists@) as int) == ata_create_ops(
            payer,
            to_wallets@,
            mint_account,
            ata_exists@,
        )
            && token_transfer_count(p.ops@) == to_wallets@.len()
            && total_token_amount(p.ops@) == sum_u64(amounts@)
            && forall|i: int|
                0 <= i < to_wallets@.len() ==> ((#[trigger] p.ops@[count_missing(ata_exists@)
                    + i]) matches ChainOp::TokenTransfer { src_ata, dest_ata, owner, payer: py, amount }
                    && src_ata@ == ata_of(src_wallet@, mint_account@)
                    && dest_ata@ == ata_of(to_wallets@[i]@, mint_account@)
                    && owner == src_wallet && py == payer && amount == amounts@[i])),
{
    if to_wallets.len() != amounts.len() || ata_exists.len() != to_wallets.len() {
        return Err(EncodingError::LengthMismatch);
    }
    if to_wallets.len() == 0 {
        return Err(EncodingError::EmptyBatch);
    }
    let n = to_wallets.len();
    let src_ata = SPLToken::ata_address(&mint_account, &src_wallet);
    let mut atas: Vec<[u8; 32]> = Vec::new();
    let mut ops: Vec<ChainOp> = Vec::new();
    let mut i: usize = 0;
    while i < n
        invariant
            i <= n,
            atas@.len() == i,
            forall|j: int|
                0 <= j < i ==> (#[trigger] atas@[j])@ == ata_of(to_wallets@[j]@, mint_account@),
            ops@ == ata_create_ops(
                payer,
                to_wallets@.take(i as int),
                mint_account,
                ata_exists@.take(i as int),
            ),
        decreases n - i,
    {
        proof {
            lemma_ata_create_ops_take(payer, to_wallets@, mint_account, ata_exists@, i as int);
        }
        atas.push(SPLToken::ata_address(&mint_account, &to_wallets[i]));
        if !ata_exists[i] {
            ops.push(ChainOp::CreateAta {
                funder: payer,
                wallet: to_wallets[i],
                mint: mint_account,
            });
        }
        assert(ops@ =~= ata_create_ops(
            payer,
            to_wallets@.take(i + 1),
            mint_account,
            ata_exists@.take(i + 1),
        ));
        i = i + 1;
    }
    proof {
        assert(to_wallets@.take(n as int) =~= to_wallets@);
        assert(ata_exists@.take(n as int) =~= ata_exists@);
        lemma_ata_create_ops_len(payer, to_wallets@, mint_account, ata_exists@);
    }
    let ghost cm = count_missing(ata_exists@) as int;
    let ghost create_part = ops@;
    let mut j: usize = 0;
    while j < n
        invariant
            j <= n,
            ops@.len() == cm + j,
            ops@.take(cm) == create_part,
            forall|t: int|
                0 <= t < j ==> ((#[trigger] ops@[cm + t]) matches ChainOp::TokenTransfer {
                    src_ata: sa,
                    dest_ata,
                    owner,
                    payer: py,
                    amount,
                } && sa == src_ata && dest_ata == atas@[t] && owner == src_wallet && py == payer
                    && amount == amounts@[t]),
        decreases n - j,
    {
        ops.push(ChainOp::TokenTransfer {
            src_ata,
            dest_ata: atas[j],
            owner: src_wallet,
            payer,
            amount: amounts[j],
        });
        assert(ops@.take(cm) =~= create_part);
        j = j + 1;
    }
    proof {
        lemma_ata_create_ops_kinds(payer, to_wallets@, mint_account, ata_exists@);
        assert(create_part == ata_create_ops(payer, to_wallets@, mint_account, ata_exists@));
        assert forall|t: int| 0 <= t < cm implies !((#[trigger] ops@[t]) is TokenTransfer) by {
            assert(ops@[t] == ops@.take(cm)[t]);
            assert(ops@[t] == ata_create_ops(payer, to_wallets@, mint_account, ata_exists@)[t]);
        }
        assert(forall|t: int|
            0 <= t < n ==> (#[trigger] ops@[cm + t]) is TokenTransfer && op_token_amount(
                ops@[cm + t],
            ) == amounts@[t]);
        lemma_token_batch_integrity(ops@, cm, amounts@);
    }
    Ok(TxPlan { fee_payer: payer, ops })
}

} // verus!
