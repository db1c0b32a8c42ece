use wallet_fleet::dispatch::Dispatcher;
use wallet_fleet::funding::PlannedTransfer;

fn plan(n: usize) -> Vec<PlannedTransfer> {
    let mut v = Vec::new();
    for i in 0..n {
        v.push(PlannedTransfer { recipient: format!("target{}", i), lamports: 1000 });
    }
    v
}

#[test]
fn job_completes_despite_one_failed_unit() {
    // Five targets; the broadcast for target number three (index 2) fails.
    let mut d = Dispatcher::new(plan(5));
    assert_eq!(d.len(), 5);

    for i in 0..5 {
        d.record_registered(i, i as u64);
    }
    for i in 0..5 {
        if i == 2 {
            d.record_failed(i, String::from("broadcast refused"));
        } else {
            d.record_sent(i);
        }
    }
    for i in 0..5 {
        if i != 2 {
            d.record_confirmed(i);
        }
    }

    // The job still reports completion; the other four were sent exactly
    // once each (a unit can only be sent from the registered phase, which
    // it leaves in the same step).
    let report = d.summarize();
    assert_eq!(report.sent, 4);
    assert_eq!(report.confirmed, 4);
    assert_eq!(report.failed, 1);
}

#[test]
fn units_mirror_the_plan() {
    let d = Dispatcher::new(plan(3));
    assert_eq!(d.len(), 3);
    for i in 0..3 {
        assert_eq!(d.recipient(i), &format!("target{}", i));
        assert_eq!(d.lamports(i), 1000);
    }
    let report = d.summarize();
    assert_eq!(report.sent, 0);
    assert_eq!(report.confirmed, 0);
    assert_eq!(report.failed, 0);
}

#[test]
fn a_unit_may_fail_before_registration() {
    // A unit whose transaction cannot even be built fails while planned.
    let mut d = Dispatcher::new(plan(2));
    d.record_failed(0, String::from("could not build"));
    d.record_registered(1, 9);
    d.record_sent(1);
    let report = d.summarize();
    assert_eq!(report.sent, 1);
    assert_eq!(report.confirmed, 0);
    assert_eq!(report.failed, 1);
}
