use neonswap::address::{predict, Address};
use neonswap::deployer::{
    deadline_after_window, Action, Arg, ArgSource, CallFn, Deployer, Fault, Phase, Receipt, Step,
    StepKind,
};
use neonswap::paths::Artifact;
use neonswap::plan::neonswap_plan;
use neonswap::token::parse_address;

fn signer() -> Address {
    parse_address("0x6ac7ea33f8831ea9dcc53393aaa88b25a785dbf0").unwrap()
}

fn three_steps() -> Vec<Step> {
    vec![
        Step { kind: StepKind::Deploy(Artifact::Uni), args: vec![] },
        Step { kind: StepKind::Deploy(Artifact::Timelock), args: vec![ArgSource::SlotAddress(0)] },
        Step { kind: StepKind::Deploy(Artifact::GovernorAlpha), args: vec![ArgSource::SlotAddress(1)] },
    ]
}

fn ok_deploy(a: Address) -> Receipt {
    Receipt { success: true, contract_address: Some(a) }
}

/// Drives a run against a chain that puts every contract where predicted;
/// returns the slots skipped and the slots executed.
fn drive(plan: Vec<Step>, tx_count: u64) -> (Vec<u64>, Vec<u64>) {
    let s = signer();
    let mut d = Deployer::new(plan, s, tx_count, 0);
    let mut skipped = Vec::new();
    let mut executed = Vec::new();
    loop {
        match d.next_action() {
            Action::Skip { slot, address } => {
                assert_eq!(address, predict(&s, slot));
                skipped.push(slot);
            }
            Action::Deploy { slot, .. } => {
                executed.push(slot);
                d.on_receipt(ok_deploy(predict(&s, slot))).unwrap();
            }
            Action::Call { slot, .. } => {
                executed.push(slot);
                d.on_receipt(Receipt { success: true, contract_address: None }).unwrap();
            }
            Action::Finish => break,
            Action::Abort(f) => panic!("unexpected fault {:?}", f),
        }
    }
    (skipped, executed)
}

#[test]
fn resume_skips_first_k_steps() {
    for k in 0..=18u64 {
        let (skipped, executed) = drive(neonswap_plan(), k);
        assert_eq!(skipped, (0..k).collect::<Vec<u64>>());
        assert_eq!(executed, (k..18).collect::<Vec<u64>>());
    }
}

#[test]
fn count_beyond_plan_skips_everything() {
    let (skipped, executed) = drive(three_steps(), 7);
    assert_eq!(skipped, vec![0, 1, 2]);
    assert!(executed.is_empty());
}

#[test]
fn fresh_signer_runs_all_three_with_confirmed_addresses() {
    let s = signer();
    let mut d = Deployer::new(three_steps(), s, 0, 0);
    let a_addr = predict(&s, 0);
    match d.next_action() {
        Action::Deploy { slot: 0, artifact: Artifact::Uni, args } => assert!(args.is_empty()),
        other => panic!("{:?}", other),
    }
    assert_eq!(d.on_receipt(ok_deploy(a_addr)).unwrap(), a_addr);
    let b_addr = predict(&s, 1);
    match d.next_action() {
        Action::Deploy { slot: 1, artifact: Artifact::Timelock, args } => {
            assert_eq!(args.len(), 1);
            match args[0] {
                Arg::Addr(x) => assert_eq!(x, d.resolved()[0]),
                _ => panic!("address expected"),
            }
            assert_eq!(d.resolved()[0], a_addr);
        }
        other => panic!("{:?}", other),
    }
    assert_eq!(d.on_receipt(ok_deploy(b_addr)).unwrap(), b_addr);
    match d.next_action() {
        Action::Deploy { slot: 2, artifact: Artifact::GovernorAlpha, args } => match args[0] {
            Arg::Addr(x) => assert_eq!(x, b_addr),
            _ => panic!("address expected"),
        },
        other => panic!("{:?}", other),
    }
    d.on_receipt(ok_deploy(predict(&s, 2))).unwrap();
    assert!(matches!(d.next_action(), Action::Finish));
    assert_eq!(d.phase(), Phase::Finished);
    assert_eq!(d.cursor(), 3);
}

#[test]
fn count_two_runs_only_the_third_step() {
    let s = signer();
    let mut d = Deployer::new(three_steps(), s, 2, 0);
    match d.next_action() {
        Action::Skip { slot: 0, address } => assert_eq!(address, predict(&s, 0)),
        other => panic!("{:?}", other),
    }
    match d.next_action() {
        Action::Skip { slot: 1, address } => assert_eq!(address, predict(&s, 1)),
        other => panic!("{:?}", other),
    }
    match d.next_action() {
        Action::Deploy { slot: 2, args, .. } => match args[0] {
            Arg::Addr(x) => assert_eq!(x, predict(&s, 1)),
            _ => panic!("address expected"),
        },
        other => panic!("{:?}", other),
    }
    d.on_receipt(ok_deploy(predict(&s, 2))).unwrap();
    assert!(matches!(d.next_action(), Action::Finish));
}

#[test]
fn mismatch_stops_the_run() {
    let s = signer();
    let mut d = Deployer::new(three_steps(), s, 0, 0);
    d.next_action();
    d.on_receipt(ok_deploy(predict(&s, 0))).unwrap();
    d.next_action();
    let wrong = predict(&s, 5);
    match d.on_receipt(ok_deploy(wrong)) {
        Err(Fault::Mismatch { slot, predicted, actual }) => {
            assert_eq!(slot, 1);
            assert_eq!(predicted, predict(&s, 1));
            assert_eq!(actual, wrong);
        }
        other => panic!("{:?}", other),
    }
    assert_eq!(d.phase(), Phase::Faulted);
    for _ in 0..3 {
        assert!(matches!(d.next_action(), Action::Abort(Fault::Mismatch { slot: 1, .. })));
    }
    assert_eq!(d.cursor(), 1);
}

#[test]
fn rejected_receipt_faults() {
    let s = signer();
    let mut d = Deployer::new(three_steps(), s, 0, 0);
    d.next_action();
    assert!(matches!(
        d.on_receipt(Receipt { success: false, contract_address: Some(predict(&s, 0)) }),
        Err(Fault::Rejected { slot: 0 })
    ));
    assert!(matches!(d.next_action(), Action::Abort(Fault::Rejected { slot: 0 })));
    assert!(d.fault().is_some());
}

#[test]
fn missing_address_faults() {
    let s = signer();
    let mut d = Deployer::new(three_steps(), s, 0, 0);
    d.next_action();
    assert!(matches!(
        d.on_receipt(Receipt { success: true, contract_address: None }),
        Err(Fault::NoAddress { slot: 0 })
    ));
}

#[test]
fn plan_resolves_forward_references_and_calls() {
    let s = signer();
    let mut d = Deployer::new(neonswap_plan(), s, 0, 1000);
    match d.next_action() {
        Action::Deploy { slot: 0, artifact: Artifact::Uni, args } => {
            assert_eq!(args.len(), 3);
            assert!(matches!(args[0], Arg::Addr(x) if x == s));
            assert!(matches!(args[1], Arg::Addr(x) if x == predict(&s, 1)));
            assert!(matches!(args[2], Arg::Uint(v) if v == 4_600));
        }
        other => panic!("{:?}", other),
    }
    let mut d = Deployer::new(neonswap_plan(), s, 6, 0);
    for _ in 0..6 {
        d.next_action();
    }
    match d.next_action() {
        Action::Call { slot: 6, target, artifact: Artifact::UniswapV1Factory, function: CallFn::InitializeFactory, args } => {
            assert_eq!(target, predict(&s, 4));
            assert!(matches!(args[0], Arg::Addr(x) if x == predict(&s, 5)));
        }
        other => panic!("{:?}", other),
    }
    assert_eq!(CallFn::InitializeFactory.name(), "initializeFactory");
    assert_eq!(CallFn::CreateExchange.name(), "createExchange");
}

#[test]
fn deadline_is_one_hour_in_seconds() {
    assert_eq!(deadline_after_window(0), 3_600);
    assert_eq!(deadline_after_window(1_700_000_000), 1_700_003_600);
    assert_eq!(deadline_after_window(u64::MAX), u64::MAX as u128 + 3600);
}
