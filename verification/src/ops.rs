use vstd::prelude::*;

verus! {

/// One native chain operation. The planners below produce sequences of these;
/// the encoder turns each into the corresponding SDK instruction. Every field
/// that names an account holds the 32 public-key bytes.
#[derive(Clone, Debug)]
pub enum ChainOp {
    /// Move `lamports` from one system account to another.
    SolTransfer { from: [u8; 32], to: [u8; 32], lamports: u64 },
    /// Create the account that will hold a token mint: funded by `payer`,
    /// sized for the token program's mint state and owned by the token
    /// program.
    CreateMintAccount { payer: [u8; 32], mint: [u8; 32], lamports: u64 },
    /// Initialize a token mint with a mint authority and a number of
    /// decimals, and no freeze authority.
    InitializeMint { mint: [u8; 32], authority: [u8; 32], decimals: u8 },
    /// Create the associated token account of `wallet` for `mint`, funded by
    /// `funder`.
    CreateAta { funder: [u8; 32], wallet: [u8; 32], mint: [u8; 32] },
    /// Mint `amount` base units of `mint` into `dest_ata`; `authority` is the
    /// mint authority.
    MintTo { mint: [u8; 32], dest_ata: [u8; 32], authority: [u8; 32], amount: u64 },
    /// Move `amount` token base units from `src_ata` to `dest_ata`; `owner`
    /// owns the source account and `payer` countersigns.
    TokenTransfer {
        src_ata: [u8; 32],
        dest_ata: [u8; 32],
        owner: [u8; 32],
        payer: [u8; 32],
        amount: u64,
    },
    /// Create and initialize a stake account funded with `lamports`, with the
    /// given authorities and lockup.
    CreateStakeAccount {
        from: [u8; 32],
        stake_account: [u8; 32],
        staker: [u8; 32],
        withdrawer: [u8; 32],
        custodian: [u8; 32],
        unix_timestamp: i64,
        epoch: u64,
        lamports: u64,
    },
    /// Delegate the stake account to a validator's vote account.
    DelegateStake { stake_account: [u8; 32], authority: [u8; 32], vote_account: [u8; 32] },
}

/// The envelope a planner hands back: the operations of one atomic
/// transaction, and the account that pays the fee and signs.
#[derive(Clone, Debug)]
pub struct TxPlan {
    pub fee_payer: [u8; 32],
    pub ops: Vec<ChainOp>,
}

/// How many of the operations are plain SOL transfers.
pub open spec fn transfer_count(ops: Seq<ChainOp>) -> nat
    decreases ops.len(),
{
    if ops.len() == 0 {
        0
    } else {
        transfer_count(ops.drop_last()) + if ops.last() is SolTransfer {
            1nat
        } else {
            0nat
        }
    }
}

/// The lamports a single operation moves as a plain SOL transfer.
pub open spec fn op_transfer_lamports(op: ChainOp) -> int {
    match op {
        ChainOp::SolTransfer { lamports, .. } => lamports as int,
        _ => 0,
    }
}

/// The total lamports the operations move as plain SOL transfers.
pub open spec fn total_transfer_lamports(ops: Seq<ChainOp>) -> int
    decreases ops.len(),
{
    if ops.len() == 0 {
        0
    } else {
        total_transfer_lamports(ops.drop_last()) + op_transfer_lamports(ops.last())
    }
}

/// How many of the operations are token transfers.
pub open spec fn token_transfer_count(ops: Seq<ChainOp>) -> nat
    decreases ops.len(),
{
    if ops.len() == 0 {
        0
    } else {
        token_transfer_count(ops.drop_last()) + if ops.last() is TokenTransfer {
            1nat
        } else {
            0nat
        }
    }
}

/// The token base units a single operation moves as a token transfer.
pub open spec fn op_token_amount(op: ChainOp) -> int {
    match op {
        ChainOp::TokenTransfer { amount, .. } => amount as int,
        _ => 0,
    }
}

/// The total token base units the operations move as token transfers.
pub open spec fn total_token_amount(ops: Seq<ChainOp>) -> int
    decreases ops.len(),
{
    if ops.len() == 0 {
        0
    } else {
        total_token_amount(ops.drop_last()) + op_token_amount(ops.last())
    }
}

/// The sum of a sequence of amounts, as an unbounded integer.
pub open spec fn sum_u64(s: Seq<u64>) -> int
    decreases s.len(),
{
    if s.len() == 0 {
        0
    } else {
        sum_u64(s.drop_last()) + s.last() as int
    }
}

} // verus!
