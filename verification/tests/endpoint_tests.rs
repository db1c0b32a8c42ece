use wallet_fleet::endpoints::{
    build_wallet_listing, initiate_funding_response, validate_collect_request, CollectSolRequest,
    ListWalletsRequest,
};
use wallet_fleet::errors::{Error, ErrorKind};
use wallet_fleet::funding::{FundingJob, LocalFunding};
use wallet_fleet::rpc::RpcAccount;
use wallet_fleet::wallet::generate_wallet;

#[test]
fn collect_requests_are_validated_before_any_io() {
    let good = CollectSolRequest {
        lamports: String::from("300"),
        source_pubkeys: vec![String::from("a")],
        destination: String::from("11111111111111111111111111111111"),
    };
    let (lamports, destination) = validate_collect_request(&good).unwrap();
    assert_eq!(lamports, 300);
    assert_eq!(destination, vec![0u8; 32]);

    let bad_amount = CollectSolRequest {
        lamports: String::from("3OO"),
        source_pubkeys: Vec::new(),
        destination: String::from("11111111111111111111111111111111"),
    };
    assert!(matches!(
        validate_collect_request(&bad_amount).unwrap_err().kind(),
        ErrorKind::Usage
    ));

    let bad_destination = CollectSolRequest {
        lamports: String::from("300"),
        source_pubkeys: Vec::new(),
        destination: String::from("not-base58!"),
    };
    assert!(matches!(
        validate_collect_request(&bad_destination).unwrap_err().kind(),
        ErrorKind::Usage
    ));
}

#[test]
fn listings_pair_addresses_with_rendered_balances() {
    let pubkeys = vec![String::from("pk0"), String::from("pk1"), String::from("pk2")];
    let accounts = vec![Some(RpcAccount { lamports: 5 }), None];
    let listing = build_wallet_listing(&pubkeys, &accounts);
    assert_eq!(listing.len(), 2);
    assert_eq!(listing[0].pubkey, "pk0");
    assert_eq!(listing[0].sol_lamports, "5");
    assert_eq!(listing[1].pubkey, "pk1");
    assert_eq!(listing[1].sol_lamports, "0");
}

#[test]
fn initiation_answers_with_the_exact_total() {
    let mut funding = LocalFunding::new();
    let distro = generate_wallet(false);
    let distro_pubkey = distro.pubkey.clone();
    funding
        .initiate_funding_job(distro, vec![String::from("t")], 1000, 890_880)
        .unwrap();
    let job = FundingJob {
        distro_wallet: {
            let mut w = generate_wallet(false);
            w.pubkey = distro_pubkey.clone();
            w
        },
        target_pubkeys: vec![String::from("t")],
        lamports_per_wallet: 1000,
        total_funding_lamports: 896_880,
    };
    let response = initiate_funding_response(&job);
    assert_eq!(response.job.funding_wallet_pubkey, distro_pubkey);
    assert_eq!(response.job.total_funding_lamports, "896880");
}

#[test]
fn listing_defaults_ask_for_everything() {
    let d = ListWalletsRequest::default();
    assert_eq!(d.page, 1);
    assert_eq!(d.page_size, 999);
}

#[test]
fn errors_carry_their_kind_and_message() {
    let e = Error::new(ErrorKind::Rpc, String::from("http 500"));
    assert!(matches!(e.kind(), ErrorKind::Rpc));
    assert_eq!(e.message(), "http 500");
    let e = Error::new(ErrorKind::Signer, String::from("bad keypair"));
    assert!(matches!(e.kind(), ErrorKind::Signer));
}
