use wallet_fleet::collecting::{collect, per_wallet_amount};
use wallet_fleet::errors::ErrorKind;
use wallet_fleet::wallet::{generate_wallet, Wallet};

fn sources(n: usize) -> Vec<Wallet> {
    let mut v = Vec::new();
    for _ in 0..n {
        v.push(generate_wallet(false));
    }
    v
}

#[test]
fn share_is_floor_division() {
    assert_eq!(per_wallet_amount(300, 3), 100);
    assert_eq!(per_wallet_amount(301, 3), 100);
    assert_eq!(per_wallet_amount(299, 3), 99);
    assert_eq!(per_wallet_amount(2, 3), 0);
}

#[test]
fn collect_builds_one_transfer_per_source() {
    let wallets = sources(3);
    let destination = vec![7u8; 32];
    let blockhash = vec![9u8; 32];
    let balances = vec![100, 100, 100];
    let txns = collect(&wallets, &destination, &blockhash, &balances, 300).unwrap();
    assert_eq!(txns.len(), 3);
    // Distinct signers give distinct transactions and signatures.
    assert_ne!(txns[0].transaction, txns[1].transaction);
    assert_ne!(txns[0].signature, txns[1].signature);
}

#[test]
fn collect_drops_the_remainder() {
    // With 301 requested from 3 sources each owes 100; balances of exactly
    // 100 still suffice because the remainder of 1 is not collected.
    let wallets = sources(3);
    let destination = vec![7u8; 32];
    let blockhash = vec![9u8; 32];
    let balances = vec![100, 100, 100];
    let txns = collect(&wallets, &destination, &blockhash, &balances, 301).unwrap();
    assert_eq!(txns.len(), 3);
}

#[test]
fn collect_fails_fast_on_any_shortfall() {
    // The second source is one lamport short; nothing is built even though
    // the others have surplus.
    let wallets = sources(3);
    let destination = vec![7u8; 32];
    let blockhash = vec![9u8; 32];
    let balances = vec![1_000_000, 99, 1_000_000];
    let err = collect(&wallets, &destination, &blockhash, &balances, 300).unwrap_err();
    assert!(matches!(err.kind(), ErrorKind::InsufficientSol));
}

#[test]
fn collect_rejects_no_sources() {
    let err = collect(&Vec::new(), &vec![7u8; 32], &vec![9u8; 32], &Vec::new(), 300).unwrap_err();
    assert!(matches!(err.kind(), ErrorKind::Usage));
}

#[test]
fn built_transfer_matches_direct_construction() {
    // The library's builder must produce byte-for-byte what building and
    // signing the same transfer by hand produces.
    let wallet = generate_wallet(false);
    let destination = vec![3u8; 32];
    let blockhash = vec![5u8; 32];
    let txns = collect(&vec![wallet.duplicate()], &destination, &blockhash, &vec![100], 100)
        .unwrap();

    let keypair = solana_sdk::signature::Keypair::new_from_array(wallet.secret_key);
    let payer = solana_sdk::signer::Signer::pubkey(&keypair);
    let to = solana_sdk::pubkey::Pubkey::new_from_array([3u8; 32]);
    let hash = solana_sdk::hash::Hash::new_from_array([5u8; 32]);
    let ix = solana_system_interface::instruction::transfer(&payer, &to, 100);
    let mut expected =
        solana_sdk::transaction::Transaction::new_with_payer(&[ix], Some(&payer));
    expected.sign(&[&keypair], hash);
    let expected_sig = expected.signatures[0].to_string();
    let expected_txn = bs58::encode(bincode::serialize(&expected).unwrap()).into_string();

    assert_eq!(txns[0].signature, expected_sig);
    assert_eq!(txns[0].transaction, expected_txn);
}

#[test]
fn built_transfer_is_deterministic() {
    let wallet = generate_wallet(false);
    let destination = vec![3u8; 32];
    let blockhash = vec![5u8; 32];
    let a = wallet_fleet::txn::build_sol_transfer(&wallet, 42, &destination, &blockhash);
    let b = wallet_fleet::txn::build_sol_transfer(&wallet, 42, &destination, &blockhash);
    assert_eq!(a.transaction, b.transaction);
    assert_eq!(a.signature, b.signature);
}
