use sol_rs::encode::to_instructions;
use sol_rs::error::EncodingError;
use sol_rs::ops::ChainOp;
use sol_rs::spl_token::{
    ata_addresses, plan_create_spl_token, plan_distribute_spl_token, plan_ensure_ata,
    plan_mint_spl_token, plan_transfer_spl_token, plan_transfer_spl_token_to_ata, same_pubkey,
    unpack_token_amount, SPLToken,
};
use solana_sdk::program_pack::Pack;
use solana_sdk::pubkey::Pubkey;

fn ata_of(wallet: &Pubkey, mint: &Pubkey) -> [u8; 32] {
    spl_associated_token_account::get_associated_token_address(wallet, mint).to_bytes()
}

#[test]
fn test_ata_address_matches_sdk() {
    let mint = Pubkey::new_unique();
    let wallet = Pubkey::new_unique();
    let got = SPLToken::ata_address(&mint.to_bytes(), &wallet.to_bytes());
    assert_eq!(got, ata_of(&wallet, &mint));
    assert_ne!(got, wallet.to_bytes());
    assert_ne!(got, mint.to_bytes());
}

#[test]
fn test_ata_addresses_in_order() {
    let mint = Pubkey::new_unique();
    let w1 = Pubkey::new_unique();
    let w2 = Pubkey::new_unique();
    let atas = ata_addresses(&mint.to_bytes(), &vec![w1.to_bytes(), w2.to_bytes()]);
    assert_eq!(atas, vec![ata_of(&w1, &mint), ata_of(&w2, &mint)]);
}

#[test]
fn test_same_pubkey() {
    let a = Pubkey::new_unique().to_bytes();
    let mut b = a;
    assert!(same_pubkey(&a, &b));
    b[31] ^= 1;
    assert!(!same_pubkey(&a, &b));
}

#[test]
fn test_plan_create_spl_token_encodes_like_sdk() {
    let payer = Pubkey::new_unique();
    let mint = Pubkey::new_unique();
    let plan = plan_create_spl_token(payer.to_bytes(), mint.to_bytes(), 12345);
    assert_eq!(plan.fee_payer, payer.to_bytes());
    assert_eq!(plan.ops.len(), 2);
    let instructions = to_instructions(&plan);
    assert_eq!(
        instructions,
        vec![
            solana_sdk::system_instruction::create_account(
                &payer,
                &mint,
                12345,
                spl_token::state::Mint::LEN as u64,
                &spl_token::id(),
            ),
            spl_token::instruction::initialize_mint(&spl_token::id(), &mint, &payer, None, 9)
                .unwrap(),
        ]
    );
}

#[test]
fn test_plan_ensure_ata() {
    let payer = Pubkey::new_unique().to_bytes();
    let wallet = Pubkey::new_unique().to_bytes();
    let mint = Pubkey::new_unique().to_bytes();
    let existing = plan_ensure_ata(payer, wallet, mint, true);
    assert_eq!(existing.ops.len(), 0);
    let missing = plan_ensure_ata(payer, wallet, mint, false);
    assert_eq!(missing.ops.len(), 1);
    match &missing.ops[0] {
        ChainOp::CreateAta { funder, wallet: w, mint: m } => {
            assert_eq!(*funder, payer);
            assert_eq!(*w, wallet);
            assert_eq!(*m, mint);
        }
        _ => panic!("expected an account creation"),
    }
}

#[test]
fn test_plan_mint_creates_missing_ata() {
    let payer = Pubkey::new_unique();
    let mint = Pubkey::new_unique();
    let wallet = Pubkey::new_unique();
    let plan = plan_mint_spl_token(payer.to_bytes(), mint.to_bytes(), wallet.to_bytes(), false, 500);
    assert_eq!(plan.ops.len(), 2);
    assert!(matches!(plan.ops[0], ChainOp::CreateAta { .. }));
    match &plan.ops[1] {
        ChainOp::MintTo { mint: m, dest_ata, authority, amount } => {
            assert_eq!(*m, mint.to_bytes());
            assert_eq!(*dest_ata, ata_of(&wallet, &mint));
            assert_eq!(*authority, payer.to_bytes());
            assert_eq!(*amount, 500);
        }
        _ => panic!("expected a mint"),
    }
    let plan = plan_mint_spl_token(payer.to_bytes(), mint.to_bytes(), wallet.to_bytes(), true, 500);
    assert_eq!(plan.ops.len(), 1);
    assert!(matches!(plan.ops[0], ChainOp::MintTo { .. }));
}

#[test]
fn test_mint_encodes_like_sdk() {
    let payer = Pubkey::new_unique();
    let mint = Pubkey::new_unique();
    let wallet = Pubkey::new_unique();
    let plan = plan_mint_spl_token(payer.to_bytes(), mint.to_bytes(), wallet.to_bytes(), true, 77);
    let instructions = to_instructions(&plan);
    let ata = spl_associated_token_account::get_associated_token_address(&wallet, &mint);
    assert_eq!(
        instructions,
        vec![spl_token::instruction::mint_to(
            &spl_token::id(),
            &mint,
            &ata,
            &payer,
            &[&mint, &payer],
            77,
        )
        .unwrap()]
    );
}

#[test]
fn test_plan_transfer_spl_token() {
    let payer = Pubkey::new_unique();
    let mint = Pubkey::new_unique();
    let src = Pubkey::new_unique();
    let dest = Pubkey::new_unique();
    let plan = plan_transfer_spl_token(
        payer.to_bytes(),
        mint.to_bytes(),
        src.to_bytes(),
        dest.to_bytes(),
        false,
        900,
    );
    assert_eq!(plan.ops.len(), 2);
    assert!(matches!(plan.ops[0], ChainOp::CreateAta { .. }));
    match &plan.ops[1] {
        ChainOp::TokenTransfer { src_ata, dest_ata, owner, payer: py, amount } => {
            assert_eq!(*src_ata, ata_of(&src, &mint));
            assert_eq!(*dest_ata, ata_of(&dest, &mint));
            assert_eq!(*owner, src.to_bytes());
            assert_eq!(*py, payer.to_bytes());
            assert_eq!(*amount, 900);
        }
        _ => panic!("expected a token transfer"),
    }
    let instructions = to_instructions(&plan);
    assert_eq!(instructions.len(), 2);
    assert_eq!(
        instructions[0],
        spl_associated_token_account::instruction::create_associated_token_account(
            &payer,
            &dest,
            &mint,
            &spl_token::id(),
        )
    );
    assert_eq!(
        instructions[1],
        spl_token::instruction::transfer(
            &spl_token::id(),
            &spl_associated_token_account::get_associated_token_address(&src, &mint),
            &spl_associated_token_account::get_associated_token_address(&dest, &mint),
            &src,
            &[&payer, &src],
            900,
        )
        .unwrap()
    );
}

#[test]
fn test_plan_transfer_to_known_ata() {
    let payer = Pubkey::new_unique();
    let mint = Pubkey::new_unique();
    let src = Pubkey::new_unique();
    let dest_ata = Pubkey::new_unique().to_bytes();
    let plan = plan_transfer_spl_token_to_ata(
        payer.to_bytes(),
        mint.to_bytes(),
        src.to_bytes(),
        dest_ata,
        11,
    );
    assert_eq!(plan.ops.len(), 1);
    match &plan.ops[0] {
        ChainOp::TokenTransfer { src_ata, dest_ata: d, owner, payer: py, amount } => {
            assert_eq!(*src_ata, ata_of(&src, &mint));
            assert_eq!(*d, dest_ata);
            assert_eq!(*owner, src.to_bytes());
            assert_eq!(*py, payer.to_bytes());
            assert_eq!(*amount, 11);
        }
        _ => panic!("expected a token transfer"),
    }
}

#[test]
fn test_plan_distribute_creates_then_transfers() {
    let payer = Pubkey::new_unique();
    let mint = Pubkey::new_unique();
    let src = Pubkey::new_unique();
    let w1 = Pubkey::new_unique();
    let w2 = Pubkey::new_unique();
    let w3 = Pubkey::new_unique();
    let wallets = vec![w1.to_bytes(), w2.to_bytes(), w3.to_bytes()];
    let exists = vec![true, false, true];
    let amounts = vec![1, 2, 3];
    let plan = plan_distribute_spl_token(
        payer.to_bytes(),
        mint.to_bytes(),
        src.to_bytes(),
        &wallets,
        &exists,
        &amounts,
    )
    .unwrap();
    assert_eq!(plan.fee_payer, payer.to_bytes());
    assert_eq!(plan.ops.len(), 4);
    match &plan.ops[0] {
        ChainOp::CreateAta { funder, wallet, mint: m } => {
            assert_eq!(*funder, payer.to_bytes());
            assert_eq!(*wallet, w2.to_bytes());
            assert_eq!(*m, mint.to_bytes());
        }
        _ => panic!("expected the one missing account creation first"),
    }
    let expected = [(w1, 1u64), (w2, 2), (w3, 3)];
    for (i, (wallet, want)) in expected.iter().enumerate() {
        match &plan.ops[1 + i] {
            ChainOp::TokenTransfer { src_ata, dest_ata, owner, payer: py, amount } => {
                assert_eq!(*src_ata, ata_of(&src, &mint));
                assert_eq!(*dest_ata, ata_of(wallet, &mint));
                assert_eq!(*owner, src.to_bytes());
                assert_eq!(*py, payer.to_bytes());
                assert_eq!(*amount, *want);
            }
            _ => panic!("expected a token transfer"),
        }
    }
    assert_eq!(to_instructions(&plan).len(), 4);
}

#[test]
fn test_plan_distribute_length_mismatch() {
    let key = Pubkey::new_unique().to_bytes();
    let r = plan_distribute_spl_token(key, key, key, &vec![key], &vec![true], &vec![1, 2]);
    assert_eq!(r.unwrap_err(), EncodingError::LengthMismatch);
    let r = plan_distribute_spl_token(key, key, key, &vec![key], &vec![], &vec![1]);
    assert_eq!(r.unwrap_err(), EncodingError::LengthMismatch);
    let r = plan_distribute_spl_token(key, key, key, &vec![], &vec![], &vec![]);
    assert_eq!(r.unwrap_err(), EncodingError::EmptyBatch);
}

#[test]
fn test_unpack_token_amount() {
    let account = spl_token::state::Account {
        mint: Pubkey::new_unique(),
        owner: Pubkey::new_unique(),
        amount: 42,
        state: spl_token::state::AccountState::Initialized,
        ..Default::default()
    };
    let mut data = vec![0u8; spl_token::state::Account::LEN];
    spl_token::state::Account::pack(account, &mut data).unwrap();
    assert_eq!(unpack_token_amount(&data).unwrap(), 42);

    let uninitialized = vec![0u8; spl_token::state::Account::LEN];
    assert_eq!(
        unpack_token_amount(&uninitialized).unwrap_err(),
        EncodingError::InvalidAccountData
    );
    let short = vec![0u8; 3];
    assert_eq!(unpack_token_amount(&short).unwrap_err(), EncodingError::InvalidAccountData);
}
