use wallet_fleet::cli::{
    add_wallet, find_wallet, get_pubkey_preview, grind_matches, parse_args, str_ends_with,
    str_starts_with, wallet_full_secret,
};
use wallet_fleet::wallet::{generate_wallet, to_base58, Wallet};

fn wallet_with_tag(tag: &str) -> Wallet {
    let mut w = generate_wallet(false);
    w.tag = String::from(tag);
    w
}

#[test]
fn preview_abbreviates_the_address() {
    assert_eq!(get_pubkey_preview(&String::from("ABCDEFGH")), "ABCD...EFGH");
    // A four-character address repeats itself around the ellipsis.
    assert_eq!(get_pubkey_preview(&String::from("abcd")), "abcd...abcd");
}

#[test]
fn parse_args_splits_flags_names_and_parameters() {
    let args = parse_args("--start abc --count 3");
    assert_eq!(args.len(), 2);
    assert_eq!(args[0].arg_name, "start");
    assert_eq!(args[0].parameters, vec![String::from("abc")]);
    assert_eq!(args[1].arg_name, "count");
    assert_eq!(args[1].parameters, vec![String::from("3")]);
}

#[test]
fn parse_args_flag_without_parameters_carries_one_empty_parameter() {
    let args = parse_args("--list");
    assert_eq!(args.len(), 1);
    assert_eq!(args[0].arg_name, "list");
    assert_eq!(args[0].parameters, vec![String::new()]);
}

#[test]
fn parse_args_multiple_parameters_split_on_spaces() {
    let args = parse_args("--set a b c");
    assert_eq!(args.len(), 1);
    assert_eq!(args[0].parameters, vec![
        String::from("a"),
        String::from("b"),
        String::from("c"),
    ]);
}

#[test]
fn parse_args_stops_a_flag_at_the_next_dash() {
    let args = parse_args("--a-b");
    assert_eq!(args.len(), 1);
    assert_eq!(args[0].arg_name, "a");
}

#[test]
fn parse_args_of_plain_text_is_empty() {
    assert_eq!(parse_args("").len(), 0);
    assert_eq!(parse_args("no flags here").len(), 0);
    assert_eq!(parse_args("-single -dashes").len(), 0);
}

#[test]
fn base58_encoding_matches_the_known_vector() {
    let r = to_base58(b"hello world");
    assert_eq!(r, "StV1DL6CwTryKyV");
    assert_ne!(to_base58(b"abc"), "abc");
}

#[test]
fn prefix_and_suffix_checks() {
    assert!(str_starts_with("ABCDEF", "ABC"));
    assert!(!str_starts_with("ABCDEF", "BCD"));
    assert!(!str_starts_with("AB", "ABC"));
    assert!(str_ends_with("ABCDEF", "DEF"));
    assert!(!str_ends_with("ABCDEF", "CDE"));
    assert!(!str_ends_with("EF", "DEF"));
}

#[test]
fn grind_conditions_combine() {
    assert!(grind_matches("AXXB", "A", "B"));
    assert!(!grind_matches("AXXB", "A", "C"));
    assert!(!grind_matches("AXXB", "C", "B"));
    assert!(grind_matches("AXXB", "", "B"));
    assert!(grind_matches("AXXB", "A", ""));
    assert!(grind_matches("AXXB", "", ""));
}

#[test]
fn duplicate_tags_are_rejected() {
    let mut wallets: Vec<Wallet> = Vec::new();
    assert!(add_wallet(&mut wallets, wallet_with_tag("aaaa...zzzz")));
    assert!(add_wallet(&mut wallets, wallet_with_tag("bbbb...zzzz")));
    assert!(!add_wallet(&mut wallets, wallet_with_tag("aaaa...zzzz")));
    assert_eq!(wallets.len(), 2);
}

#[test]
fn wallets_are_found_by_tag_or_address() {
    let mut wallets: Vec<Wallet> = Vec::new();
    wallets.push(wallet_with_tag("tag0"));
    wallets.push(wallet_with_tag("tag1"));
    assert_eq!(find_wallet(&wallets, "tag1"), Some(1));
    let pubkey = wallets[0].pubkey.clone();
    assert_eq!(find_wallet(&wallets, pubkey.as_str()), Some(0));
    assert_eq!(find_wallet(&wallets, "absent"), None);
}

#[test]
fn full_secret_is_secret_then_pubkey_bytes() {
    let w = generate_wallet(true);
    assert!(w.was_grinded);
    let full = wallet_full_secret(&w);
    assert_eq!(full.len(), 64);
    assert_eq!(&full[..32], &w.secret_key[..]);
    assert_eq!(&full[32..], &w.pubkey_bytes[..]);
}
