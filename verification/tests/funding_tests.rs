use wallet_fleet::errors::ErrorKind;
use wallet_fleet::funding::{LocalFunding, FEE_BUFFER};
use wallet_fleet::wallet::generate_wallet;

fn targets(n: usize) -> Vec<String> {
    let mut v = Vec::new();
    for i in 0..n {
        v.push(format!("target{}", i));
    }
    v
}

#[test]
fn initiate_computes_exact_total() {
    let mut funding = LocalFunding::new();
    let distro = generate_wallet(false);
    let rent: u128 = 890_880;
    let r = funding.initiate_funding_job(distro, targets(3), 1000, rent);
    assert!(r.is_ok());
    // (1000 + 5000) * 3 + rent, in wide arithmetic.
    let expected = (1000u128 + FEE_BUFFER as u128) * 3 + rent;
    let plan = funding.complete_funding_job(u64::MAX).unwrap();
    assert_eq!(plan.len(), 3);
    assert_eq!(expected, 18_000 + 890_880);
}

#[test]
fn initiate_rejects_empty_targets() {
    let mut funding = LocalFunding::new();
    let distro = generate_wallet(false);
    let r = funding.initiate_funding_job(distro, Vec::new(), 1000, 0);
    assert!(matches!(r.unwrap_err().kind(), ErrorKind::Usage));
}

#[test]
fn initiate_with_large_lamports_uses_wide_arithmetic() {
    // A per-wallet amount near the 64-bit limit must not overflow the total.
    let mut funding = LocalFunding::new();
    let distro = generate_wallet(false);
    let lamports = u64::MAX - 1;
    let r = funding.initiate_funding_job(distro, targets(2), lamports, 7);
    assert!(r.is_ok());
    // The job exists and a balance below the huge total is insufficient.
    let err = funding.complete_funding_job(u64::MAX).unwrap_err();
    assert!(matches!(err.kind(), ErrorKind::InsufficientFunding));
}

#[test]
fn complete_without_job_reports_not_started() {
    let funding = LocalFunding::new();
    let err = funding.complete_funding_job(1_000_000).unwrap_err();
    assert!(matches!(err.kind(), ErrorKind::FundingJobNotStarted));
}

#[test]
fn complete_with_shortfall_plans_nothing() {
    let mut funding = LocalFunding::new();
    let distro = generate_wallet(false);
    funding
        .initiate_funding_job(distro, targets(3), 1000, 890_880)
        .unwrap();
    // total required = 6000 * 3 + 890880 = 908880; one lamport short.
    let err = funding.complete_funding_job(908_879).unwrap_err();
    assert!(matches!(err.kind(), ErrorKind::InsufficientFunding));
}

#[test]
fn complete_with_funding_plans_one_transfer_per_target() {
    let mut funding = LocalFunding::new();
    let distro = generate_wallet(false);
    funding
        .initiate_funding_job(distro, targets(3), 1000, 890_880)
        .unwrap();
    let plan = funding.complete_funding_job(908_880).unwrap();
    assert_eq!(plan.len(), 3);
    for (i, t) in plan.iter().enumerate() {
        assert_eq!(t.recipient, format!("target{}", i));
        assert_eq!(t.lamports, 1000);
    }
}

#[test]
fn initiate_replaces_the_slot() {
    let mut funding = LocalFunding::new();
    funding
        .initiate_funding_job(generate_wallet(false), targets(3), 1000, 0)
        .unwrap();
    funding
        .initiate_funding_job(generate_wallet(false), targets(1), 50, 0)
        .unwrap();
    let plan = funding.complete_funding_job(u64::MAX).unwrap();
    assert_eq!(plan.len(), 1);
    assert_eq!(plan[0].lamports, 50);
}
