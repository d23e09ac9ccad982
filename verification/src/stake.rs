use vstd::prelude::*;

use crate::error::EncodingError;
use crate::ops::{ChainOp, TxPlan};

verus! {

/// The 32 public-key bytes that a string decodes to as base58, or nothing
/// when it is not the base58 form of exactly 32 bytes. A function of the
/// string alone.
pub uninterp spec fn pubkey_bytes_parsed(s: Seq<char>) -> Option<Seq<u8>>;

/// Relies on Pubkey's FromStr impl: base58 decoding, a function of the
/// string alone; it succeeds exactly on strings that decode to 32 bytes and
/// never panics.
#[verifier::external_body]
pub fn parse_pubkey(s: &str) -> (r: Result<[u8; 32], EncodingError>)
    ensures
        r matches Ok(b) ==> pubkey_bytes_parsed(s@) == Some(b@),
        r is Err ==> pubkey_bytes_parsed(s@) is None,
        r matches Err(e) ==> e == EncodingError::MalformedAddress,
{
    match <solana_sdk::pubkey::Pubkey as std::str::FromStr>::from_str(s) {
        Ok(p) => Ok(p.to_bytes()),
        Err(_) => Err(EncodingError::MalformedAddress),
    }
}

/// Decode every base58 address in the list, in order; one malformed address
/// fails the whole list.
#[verifier::loop_isolation(false)]
pub fn parse_pubkeys(strings: &Vec<String>) -> (r: Result<Vec<[u8; 32]>, EncodingError>)
    ensures
        (r matches Ok(v) ==> v@.len() == strings@.len() && forall|i: int|
            0 <= i < strings@.len() ==> pubkey_bytes_parsed(strings@[i]@) == Some(
                (#[trigger] v@[i])@,
            )),
        (r matches Err(e) ==> e == EncodingError::MalformedAddress && exists|i: int|
            0 <= i < strings@.len() && pubkey_bytes_parsed((#[trigger] strings@[i])@) is None),
{
    let mut keys: Vec<[u8; 32]> = Vec::new();
    let mut i: usize = 0;
    while i < strings.len()
        invariant
            i <= strings@.len(),
            keys@.len() == i,
            forall|j: int|
                0 <= j < i ==> pubkey_bytes_parsed(strings@[j]@) == Some((#[trigger] keys@[j])@),
        decreases strings@.len() - i,
    {
        let key = parse_pubkey(strings[i].as_str())?;
        keys.push(key);
        i = i + 1;
    }
    Ok(keys)
}

/// Split the vote-account lists the caller fetched into a chosen validator
/// and the list of all of them: the chosen one is the first current vote
/// account, and the full list is the delinquent ones followed by the current
/// ones. An empty current list is an error, not a panic.
#[verifier::loop_isolation(false)]
pub fn select_validators(current: &Vec<[u8; 32]>, delinquent: &Vec<[u8; 32]>) -> (r: Result<
    ([u8; 32], Vec<[u8; 32]>),
    EncodingError,
>)
    ensures
        current@.len() == 0 ==> (r matches Err(e) && e == EncodingError::NoVoteAccounts),
        current@.len() > 0 ==> (r matches Ok(p) && p.0 == current@[0] && p.1@ == delinquent@
            + current@),
{
    if current.len() == 0 {
        return Err(EncodingError::NoVoteAccounts);
    }
    let chosen = current[0];
    let mut all: Vec<[u8; 32]> = Vec::new();
    let mut i: usize = 0;
    while i < delinquent.len()
        invariant
            i <= delinquent@.len(),
            all@ =~= delinquent@.take(i as int),
        decreases delinquent@.len() - i,
    {
        all.push(delinquent[i]);
        i = i + 1;
    }
    let mut j: usize = 0;
    while j < current.len()
        invariant
            j <= current@.len(),
            all@ =~= delinquent@ + current@.take(j as int),
        decreases current@.len() - j,
    {
        all.push(current[j]);
        j = j + 1;
    }
    proof {
        assert(all@ =~= delinquent@ + current@);
    }
    Ok((chosen, all))
}

/// Plan one atomic transaction that creates and funds a stake account, with
/// the payer as staker, withdrawer and lockup custodian, as the staking flow
/// sets them. Both the payer and the new stake account must sign.
pub fn plan_create_stake_account(
    payer: [u8; 32],
    stake_account: [u8; 32],
    amount_to_stake: u64,
    withdraw_ts: i64,
    withdraw_epoch: u64,
) -> (p: TxPlan)
    ensures
        p.fee_payer == payer,
        p.ops@ =~= seq![
            (ChainOp::CreateStakeAccount {
                from: payer,
                stake_account: stake_account,
                staker: payer,
                withdrawer: payer,
                custodian: payer,
                unix_timestamp: withdraw_ts,
                epoch: withdraw_epoch,
                lamports: amount_to_stake,
            }),
        ],
{
    let mut ops: Vec<ChainOp> = Vec::new();
    ops.push(ChainOp::CreateStakeAccount {
        from: payer,
        stake_account,
        staker: payer,
        withdrawer: payer,
        custodian: payer,
        unix_timestamp: withdraw_ts,
        epoch: withdraw_epoch,
        lamports: amount_to_stake,
    });
    TxPlan { fee_payer: payer, ops }
}

/// Plan one atomic transaction that delegates the stake account to a
/// validator's vote account, with the payer as stake authority.
pub fn plan_delegate_stake(
    payer: [u8; 32],
    stake_account: [u8; 32],
    validator_vote: [u8; 32],
) -> (p: TxPlan)
    ensures
        p.fee_payer == payer,
        p.ops@ =~= seq![
            (ChainOp::DelegateStake {
                stake_account: stake_account,
                authority: payer,
                vote_account: validator_vote,
            }),
        ],
{
    let mut ops: Vec<ChainOp> = Vec::new();
    ops.push(ChainOp::DelegateStake {
        stake_account,
        authority: payer,
        vote_account: validator_vote,
    });
    TxPlan { fee_payer: payer, ops }
}

} // verus!
