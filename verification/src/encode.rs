use vstd::prelude::*;

use crate::account::SolAccount;
use crate::error::EncodingError;
use crate::ops::{ChainOp, TxPlan};

verus! {

#[verifier::external_type_specification]
#[verifier::external_body]
pub struct ExInstruction(solana_sdk::instruction::Instruction);

#[verifier::external_type_specification]
#[verifier::external_body]
pub struct ExTransaction(solana_sdk::transaction::Transaction);

#[verifier::external_type_specification]
#[verifier::external_body]
pub struct ExHash(solana_sdk::hash::Hash);

/// Relies on solana_sdk's system_instruction::transfer: encodes one system
/// transfer instruction; it never fails.
#[verifier::external_body]
fn encode_sol_transfer(from: &[u8; 32], to: &[u8; 32], lamports: u64) -> (r:
    solana_sdk::instruction::Instruction)
{
    solana_sdk::system_instruction::transfer(
        &solana_sdk::pubkey::Pubkey::new_from_array(*from),
        &solana_sdk::pubkey::Pubkey::new_from_array(*to),
        lamports,
    )
}

/// Relies on solana_sdk's system_instruction::create_account, called with the
/// token program as owner and the token mint state size as space; it never
/// fails.
#[verifier::external_body]
fn encode_create_mint_account(payer: &[u8; 32], mint: &[u8; 32], lamports: u64) -> (r:
    solana_sdk::instruction::Instruction)
{
    solana_sdk::system_instruction::create_account(
        &solana_sdk::pubkey::Pubkey::new_from_array(*payer),
        &solana_sdk::pubkey::Pubkey::new_from_array(*mint),
        lamports,
        <spl_token::state::Mint as solana_sdk::program_pack::Pack>::LEN as u64,
        &spl_token::id(),
    )
}

/// Relies on spl_token's instruction::initialize_mint, called with the token
/// program's own id and no freeze authority: its only failure is a program-id
/// mismatch, which cannot occur here.
#[verifier::external_body]
fn encode_initialize_mint(mint: &[u8; 32], authority: &[u8; 32], decimals: u8) -> (r:
    solana_sdk::instruction::Instruction)
{
    spl_token::instruction::initialize_mint(
        &spl_token::id(),
        &solana_sdk::pubkey::Pubkey::new_from_array(*mint),
        &solana_sdk::pubkey::Pubkey::new_from_array(*authority),
        None,
        decimals,
    )
    .expect("initialize_mint with the token program id cannot fail")
}

/// Relies on spl_associated_token_account's
/// instruction::create_associated_token_account for the token program; it
/// never fails.
#[verifier::external_body]
fn encode_create_ata(funder: &[u8; 32], wallet: &[u8; 32], mint: &[u8; 32]) -> (r:
    solana_sdk::instruction::Instruction)
{
    spl_associated_token_account::instruction::create_associated_token_account(
        &solana_sdk::pubkey::Pubkey::new_from_array(*funder),
        &solana_sdk::pubkey::Pubkey::new_from_array(*wallet),
        &solana_sdk::pubkey::Pubkey::new_from_array(*mint),
        &spl_token::id(),
    )
}

/// Relies on spl_token's instruction::mint_to, with the mint and the
/// authority as the countersigning set: its only failure is a program-id
/// mismatch, which cannot occur here.
#[verifier::external_body]
fn encode_mint_to(mint: &[u8; 32], dest_ata: &[u8; 32], authority: &[u8; 32], amount: u64) -> (r:
    solana_sdk::instruction::Instruction)
{
    let mint_pk = solana_sdk::pubkey::Pubkey::new_from_array(*mint);
    let authority_pk = solana_sdk::pubkey::Pubkey::new_from_array(*authority);
    spl_token::instruction::mint_to(
        &spl_token::id(),
        &mint_pk,
        &solana_sdk::pubkey::Pubkey::new_from_array(*dest_ata),
        &authority_pk,
        &[&mint_pk, &authority_pk],
        amount,
    )
    .expect("mint_to with the token program id cannot fail")
}

/// Relies on spl_token's instruction::transfer, with the payer and the owner
/// as the countersigning set: its only failure is a program-id mismatch,
/// which cannot occur here.
#[verifier::external_body]
fn encode_token_transfer(
    src_ata: &[u8; 32],
    dest_ata: &[u8; 32],
    owner: &[u8; 32],
    payer: &[u8; 32],
    amount: u64,
) -> (r: solana_sdk::instruction::Instruction)
{
    let owner_pk = solana_sdk::pubkey::Pubkey::new_from_array(*owner);
    let payer_pk = solana_sdk::pubkey::Pubkey::new_from_array(*payer);
    spl_token::instruction::transfer(
        &spl_token::id(),
        &solana_sdk::pubkey::Pubkey::new_from_array(*src_ata),
        &solana_sdk::pubkey::Pubkey::new_from_array(*dest_ata),
        &owner_pk,
        &[&payer_pk, &owner_pk],
        amount,
    )
    .expect("transfer with the token program id cannot fail")
}

/// Relies on solana_sdk's stake::instruction::create_account: it returns
/// exactly two instructions, the account creation and the initialization,
/// and never fails.
#[verifier::external_body]
fn encode_create_stake_account(
    from: &[u8; 32],
    stake_account: &[u8; 32],
    staker: &[u8; 32],
    withdrawer: &[u8; 32],
    custodian: &[u8; 32],
    unix_timestamp: i64,
    epoch: u64,
    lamports: u64,
) -> (r: Vec<solana_sdk::instruction::Instruction>)
    ensures
        r@.len() == 2,
{
    solana_sdk::stake::instruction::create_account(
        &solana_sdk::pubkey::Pubkey::new_from_array(*from),
        &solana_sdk::pubkey::Pubkey::new_from_array(*stake_account),
        &solana_sdk::stake::state::Authorized {
            staker: solana_sdk::pubkey::Pubkey::new_from_array(*staker),
            withdrawer: solana_sdk::pubkey::Pubkey::new_from_array(*withdrawer),
        },
        &solana_sdk::stake::state::Lockup {
            unix_timestamp,
            epoch,
            custodian: solana_sdk::pubkey::Pubkey::new_from_array(*custodian),
        },
        lamports,
    )
}

/// Relies on solana_sdk's stake::instruction::delegate_stake; it never fails.
#[verifier::external_body]
fn encode_delegate_stake(stake_account: &[u8; 32], authority: &[u8; 32], vote_account: &[u8; 32])
    -> (r: solana_sdk::instruction::Instruction)
{
    solana_sdk::stake::instruction::delegate_stake(
        &solana_sdk::pubkey::Pubkey::new_from_array(*stake_account),
        &solana_sdk::pubkey::Pubkey::new_from_array(*authority),
        &solana_sdk::pubkey::Pubkey::new_from_array(*vote_account),
    )
}

/// How many SDK instructions one operation encodes to.
pub open spec fn op_instruction_count(op: ChainOp) -> nat {
    if op is CreateStakeAccount {
        2
    } else {
        1
    }
}

/// How many SDK instructions a sequence of operations encodes to.
pub open spec fn plan_instruction_count(ops: Seq<ChainOp>) -> nat
    decreases ops.len(),
{
    if ops.len() == 0 {
        0
    } else {
        plan_instruction_count(ops.drop_last()) + op_instruction_count(ops.last())
    }
}

proof fn lemma_plan_instruction_count_take(ops: Seq<ChainOp>, i: int)
    requires
        0 <= i < ops.len(),
    ensures
        plan_instruction_count(ops.take(i + 1)) == plan_instruction_count(ops.take(i))
            + op_instruction_count(ops[i]),
    decreases ops.len(),
{
    assert(ops.take(i + 1).drop_last() =~= ops.take(i));
    assert(ops.take(i + 1).last() == ops[i]);
}

/// Encode every operation of the plan into the SDK's instruction type, in
/// order: one instruction per operation, two for a stake account creation.
#[verifier::loop_isolation(false)]
pub fn to_instructions(plan: &TxPlan) -> (r: Vec<solana_sdk::instruction::Instruction>)
    ensures
        r@.len() == plan_instruction_count(plan.ops@),
{
    let mut out: Vec<solana_sdk::instruction::Instruction> = Vec::new();
    let mut i: usize = 0;
    while i < plan.ops.len()
        invariant
            i <= plan.ops@.len(),
            out@.len() == plan_instruction_count(plan.ops@.take(i as int)),
        decreases plan.ops@.len() - i,
    {
        proof {
            lemma_plan_instruction_count_take(plan.ops@, i as int);
        }
        match &plan.ops[i] {
            ChainOp::SolTransfer { from, to, lamports } => {
                out.push(encode_sol_transfer(from, to, *lamports));
            },
            ChainOp::CreateMintAccount { payer, mint, lamports } => {
                out.push(encode_create_mint_account(payer, mint, *lamports));
            },
            ChainOp::InitializeMint { mint, authority, decimals } => {
                out.push(encode_initialize_mint(mint, authority, *decimals));
            },
            ChainOp::CreateAta { funder, wallet, mint } => {
                out.push(encode_create_ata(funder, wallet, mint));
            },
            ChainOp::MintTo { mint, dest_ata, authority, amount } => {
                out.push(encode_mint_to(mint, dest_ata, authority, *amount));
            },
            ChainOp::TokenTransfer { src_ata, dest_ata, owner, payer, amount } => {
                out.push(encode_token_transfer(src_ata, dest_ata, owner, payer, *amount));
            },
            ChainOp::CreateStakeAccount {
                from,
                stake_account,
                staker,
                withdrawer,
                custodian,
                unix_timestamp,
                epoch,
                lamports,
            } => {
                let mut pair = encode_create_stake_account(
                    from,
                    stake_account,
                    staker,
                    withdrawer,
                    custodian,
                    *unix_timestamp,
                    *epoch,
                    *lamports,
                );
                out.append(&mut pair);
            },
            ChainOp::DelegateStake { stake_account, authority, vote_account } => {
                out.push(encode_delegate_stake(stake_account, authority, vote_account));
            },
        }
        assert(plan.ops@.take(i as int).push(plan.ops@[i as int]) =~= plan.ops@.take(i + 1));
        i = i + 1;
    }
    assert(plan.ops@.take(plan.ops@.len() as int) =~= plan.ops@);
    out
}

/// Relies on solana_sdk's Transaction::new_with_payer and
/// Transaction::try_sign: builds the message with the payer's key first and
/// signs it with the given keypairs under the given recent blockhash. Signing
/// reports an error when the handed keypairs do not cover every required
/// signer; nothing else is promised of the opaque transaction.
#[verifier::external_body]
pub fn sign_transaction(
    instructions: &Vec<solana_sdk::instruction::Instruction>,
    payer: &SolAccount,
    co_signer: Option<&SolAccount>,
    recent_blockhash: &solana_sdk::hash::Hash,
) -> (r: Result<solana_sdk::transaction::Transaction, EncodingError>)
    ensures
        r matches Err(e) ==> e == EncodingError::MissingSigner,
{
    let payer_pk = solana_sdk::signer::Signer::pubkey(payer.keypair());
    let mut tx = solana_sdk::transaction::Transaction::new_with_payer(
        instructions.as_slice(),
        Some(&payer_pk),
    );
    let signed = match co_signer {
        None => tx.try_sign(&[payer.keypair()], *recent_blockhash),
        Some(c) => tx.try_sign(&[payer.keypair(), c.keypair()], *recent_blockhash),
    };
    match signed {
        Ok(()) => Ok(tx),
        Err(_) => Err(EncodingError::MissingSigner),
    }
}

} // verus!
