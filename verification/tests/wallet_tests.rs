use wallet_fleet::numeric::{format_u128, format_u64, parse_u64};
use wallet_fleet::rpc::{account_balances, RpcAccount};
use wallet_fleet::storage::{wallets_by_pubkey_sql, LocalWalletStorage};
use wallet_fleet::txn::decode_address;
use wallet_fleet::wallet::{derive_wallets, generate_wallet, get_wallet};

#[test]
fn derivation_is_deterministic() {
    let seed = vec![7u8; 24];
    let a = get_wallet(&seed, 5);
    let b = get_wallet(&seed, 5);
    assert_eq!(a.secret_key, b.secret_key);
    assert_eq!(a.pubkey_bytes, b.pubkey_bytes);
    assert_eq!(a.pubkey, b.pubkey);
    assert_eq!(a.tag, b.tag);
}

#[test]
fn distinct_indices_give_distinct_wallets_under_a_short_seed() {
    // With a 24-byte seed the whole 8-byte index lies inside the 32 bytes
    // the keypair routine keeps, so secrets and addresses differ.
    let seed = vec![7u8; 24];
    let a = get_wallet(&seed, 0);
    let b = get_wallet(&seed, 1);
    assert_ne!(a.secret_key, b.secret_key);
    assert_ne!(a.pubkey, b.pubkey);
}

#[test]
fn a_long_seed_pushes_the_index_out_of_the_secret() {
    // The keypair routine reads only the first 32 bytes of the combined
    // entropy: under a 32-byte seed the index no longer reaches the secret,
    // so distinct indices collide. This documents the derivation's limit.
    let seed = vec![7u8; 32];
    let a = get_wallet(&seed, 0);
    let b = get_wallet(&seed, 1);
    assert_eq!(a.secret_key, b.secret_key);
    assert_eq!(a.pubkey, b.pubkey);
}

#[test]
fn derived_wallet_address_matches_the_sdk() {
    let seed = vec![1u8; 24];
    let w = get_wallet(&seed, 3);
    let mut entropy = seed.clone();
    entropy.extend_from_slice(&3u64.to_be_bytes());
    let keypair = solana_sdk::signature::keypair_from_seed(&entropy).unwrap();
    let expected = solana_sdk::signer::Signer::pubkey(&keypair).to_string();
    assert_eq!(w.pubkey, expected);
    assert_eq!(w.secret_key, *keypair.secret_bytes());
}

#[test]
fn generated_wallets_are_internally_consistent() {
    let w = generate_wallet(false);
    assert_ne!(w.pubkey_bytes, w.secret_key);
    assert_eq!(w.pubkey, bs58::encode(w.pubkey_bytes).into_string());
    let keypair = solana_sdk::signature::Keypair::new_from_array(w.secret_key);
    assert_eq!(
        solana_sdk::signer::Signer::pubkey(&keypair).to_bytes(),
        w.pubkey_bytes
    );
}

#[test]
fn wallet_tags_abbreviate_the_address() {
    let w = generate_wallet(false);
    assert_eq!(w.tag[..4], w.pubkey[..4]);
    assert!(w.tag.contains("..."));
    assert_eq!(w.grind_job_id, "");
}

#[test]
fn batch_derivation_follows_the_indices() {
    let seed = vec![2u8; 24];
    let ws = derive_wallets(&seed, &vec![0, 1, 0]);
    assert_eq!(ws.len(), 3);
    assert_eq!(ws[0].pubkey, ws[2].pubkey);
    assert_ne!(ws[0].pubkey, ws[1].pubkey);
}

#[test]
fn decimal_rendering_is_exact() {
    assert_eq!(format_u64(0), "0");
    assert_eq!(format_u64(7), "7");
    assert_eq!(format_u64(12_345), "12345");
    assert_eq!(format_u64(u64::MAX), "18446744073709551615");
    assert_eq!(format_u128(340_282_366_920_938_463_463_374_607_431_768_211_455), "340282366920938463463374607431768211455");
}

#[test]
fn decimal_parsing_is_exact_and_total() {
    assert_eq!(parse_u64("0").unwrap(), 0);
    assert_eq!(parse_u64("301").unwrap(), 301);
    assert_eq!(parse_u64("18446744073709551615").unwrap(), u64::MAX);
    assert!(parse_u64("").is_err());
    assert!(parse_u64("12a").is_err());
    assert!(parse_u64("-3").is_err());
    assert!(parse_u64("18446744073709551616").is_err());
}

#[test]
fn addresses_decode_to_32_bytes_or_are_rejected() {
    // Thirty-two '1' characters are the base58 of thirty-two zero bytes.
    let bytes = decode_address("11111111111111111111111111111111").unwrap();
    assert_eq!(bytes, vec![0u8; 32]);
    // '0' is not in the alphabet.
    assert!(decode_address("0IOl").is_err());
    // Valid characters, wrong length.
    assert!(decode_address("abc").is_err());
}

#[test]
fn absent_accounts_count_as_zero_balance() {
    let accounts = vec![Some(RpcAccount { lamports: 12 }), None, Some(RpcAccount { lamports: 7 })];
    assert_eq!(account_balances(&accounts), vec![12, 0, 7]);
}

#[test]
fn storage_round_trips_wallets() {
    let mut store = LocalWalletStorage::new();
    let w0 = generate_wallet(false);
    let w1 = generate_wallet(false);
    let p0 = w0.pubkey.clone();
    let p1 = w1.pubkey.clone();
    store.store_new_wallet(w0);
    store.store_new_wallet(w1);

    let all = store.get_all_wallets(1, 999);
    assert_eq!(all.len(), 2);
    assert_eq!(all[0].pubkey, p0);
    assert_eq!(all[1].pubkey, p1);

    // Lookup matches position by position.
    let found = store.get_wallets_by_pubkey(&vec![p0.clone(), p0.clone()]);
    assert_eq!(found.len(), 1);
    assert_eq!(found[0].pubkey, p0);
    let found = store.get_wallets_by_pubkey(&vec![p0, p1]);
    assert_eq!(found.len(), 2);
}

#[test]
fn the_lookup_query_lists_quoted_addresses() {
    let sql = wallets_by_pubkey_sql(&vec![String::from("aa"), String::from("bb")]);
    assert_eq!(sql, "SELECT seed FROM wallets WHERE pubkey IN ('aa', 'bb');");
    let sql = wallets_by_pubkey_sql(&Vec::new());
    assert_eq!(sql, "SELECT seed FROM wallets WHERE pubkey IN ();");
}
