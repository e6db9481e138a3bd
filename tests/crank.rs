use governance_rewards_crank::address::Address;
use governance_rewards_crank::batch::{Batch, Step};
use governance_rewards_crank::failure::{filter_account_result, Failure, RemoteError};
use governance_rewards_crank::instructions::claim::build_claim;
use governance_rewards_crank::instructions::reclaim::{
    build_reclaim, is_already_claimed_err, reclaim_outcome,
};
use governance_rewards_crank::instructions::register::build_register;
use governance_rewards_crank::instructions::{BuildError, Instruction};
use governance_rewards_crank::scan::{
    claim_data_filter, collect_scan, voter_filter, MemcmpFilter, ScannedAccount,
    CLAIM_DATA_DISTRIBUTION_OFFSET, VOTER_REGISTRAR_OFFSET,
};
use governance_rewards_crank::state::{
    payout_address, ClaimData, Distribution, DistributionInfo, DistributionOption, UserPreferences,
};

const ALREADY_RECLAIMED: u32 = 3;

fn addr(b: u8) -> Address {
    Address::new([b; 32])
}

fn distribution() -> DistributionInfo {
    DistributionInfo {
        address: addr(1),
        account: Distribution {
            realm: addr(2),
            registrar: Some(addr(3)),
            distribution_options: vec![
                Some(DistributionOption { mint: addr(10), wallet: addr(11) }),
                None,
                Some(DistributionOption { mint: addr(20), wallet: addr(21) }),
            ],
        },
    }
}

/// Account data holding `key` at `offset`, padded with `fill`.
fn data_with(offset: usize, key: &Address, fill: u8) -> Vec<u8> {
    let mut d = vec![fill; offset];
    d.extend_from_slice(&key.bytes);
    d.extend_from_slice(&[fill; 8]);
    d
}

#[test]
fn classification_of_each_error() {
    assert_eq!(Failure::from(RemoteError::AccountNotFound), Failure::Skip);
    assert_eq!(
        Failure::from(RemoteError::AnchorError { code: Some(6001) }),
        Failure::Fatal(RemoteError::AnchorError { code: Some(6001) })
    );
    assert_eq!(Failure::from(RemoteError::ProgramError), Failure::Fatal(RemoteError::ProgramError));
    assert_eq!(Failure::from(RemoteError::LogParse), Failure::Fatal(RemoteError::LogParse));
    assert_eq!(
        Failure::from(RemoteError::ClientTransport),
        Failure::PossibleDegradation(RemoteError::ClientTransport)
    );
    assert_eq!(
        Failure::from(RemoteError::PubsubTransport),
        Failure::PossibleDegradation(RemoteError::PubsubTransport)
    );
}

#[test]
fn assess_counts_and_propagates() {
    assert_eq!(Failure::assess::<u8>(Ok(7)), Ok(0));
    assert_eq!(Failure::assess::<()>(Err(RemoteError::AccountNotFound)), Ok(0));
    assert_eq!(Failure::assess::<()>(Err(RemoteError::ClientTransport)), Ok(1));
    assert_eq!(Failure::assess::<()>(Err(RemoteError::PubsubTransport)), Ok(1));
    assert_eq!(
        Failure::assess::<()>(Err(RemoteError::ProgramError)),
        Err(Failure::Fatal(RemoteError::ProgramError))
    );
}

#[test]
fn must_succeed_makes_every_error_fatal() {
    assert_eq!(Failure::<RemoteError>::must_succeed::<u8>(Ok(4)), Ok(4));
    assert_eq!(
        Failure::must_succeed::<u8>(Err(RemoteError::ClientTransport)),
        Err(Failure::Fatal(RemoteError::ClientTransport))
    );
    assert_eq!(
        Failure::must_succeed::<u8>(Err(RemoteError::AccountNotFound)),
        Err(Failure::Fatal(RemoteError::AccountNotFound))
    );
}

#[test]
fn filter_account_result_drops_only_vanished_accounts() {
    assert_eq!(filter_account_result::<u8>(Err(RemoteError::AccountNotFound)), None);
    assert_eq!(filter_account_result::<u8>(Ok(5)), Some(Ok(5)));
    assert_eq!(
        filter_account_result::<u8>(Err(RemoteError::ClientTransport)),
        Some(Err(RemoteError::ClientTransport))
    );
}

#[test]
fn fatal_outcome_stops_the_batch() {
    let mut batch = Batch::new();
    batch.record(Ok(()));
    batch.record(Err(RemoteError::ClientTransport));
    assert!(batch.may_continue());
    batch.record(Err(RemoteError::LogParse));
    assert!(!batch.may_continue());
    assert_eq!(batch.status(), Err(Failure::Fatal(RemoteError::LogParse)));
}

#[test]
fn degradation_count_equals_degraded_outcomes() {
    let mut batch = Batch::new();
    let outcomes = vec![
        Err(RemoteError::ClientTransport),
        Err(RemoteError::AccountNotFound),
        Ok(()),
        Err(RemoteError::PubsubTransport),
        Err(RemoteError::AccountNotFound),
        Err(RemoteError::ClientTransport),
    ];
    for o in outcomes {
        assert!(batch.may_continue());
        batch.record(o);
    }
    assert_eq!(batch.status(), Ok(3));
}

#[test]
fn empty_batch_succeeds_with_no_degradation() {
    let batch = Batch::new();
    assert!(batch.may_continue());
    assert_eq!(batch.status(), Ok(0));
}

#[test]
fn filter_matches_only_the_key_at_its_offset() {
    let key = addr(9);
    let f = claim_data_filter(&key);
    assert_eq!(f.offset, CLAIM_DATA_DISTRIBUTION_OFFSET);
    assert_eq!(f.offset, 16);
    assert_eq!(f.bytes, vec![9u8; 32]);
    assert!(f.matches(&data_with(16, &key, 0)));
    assert!(!f.matches(&data_with(16, &addr(8), 0)));
    assert!(!f.matches(&data_with(15, &key, 0)));
    assert!(!f.matches(&vec![9u8; 40]));
    let v = voter_filter(&key);
    assert_eq!(v.offset, VOTER_REGISTRAR_OFFSET);
    assert_eq!(v.offset, 40);
    assert!(v.matches(&data_with(40, &key, 1)));
    assert!(!v.matches(&data_with(16, &key, 1)));
    let empty = MemcmpFilter { offset: 3, bytes: vec![] };
    assert!(empty.matches(&vec![0u8; 3]));
    assert!(!empty.matches(&vec![0u8; 2]));
}

#[test]
fn scan_yields_only_matching_entities() {
    let key = addr(1);
    let f = claim_data_filter(&key);
    let entries = vec![
        Ok(ScannedAccount { address: addr(30), data: data_with(16, &key, 0), account: 0u8 }),
        Ok(ScannedAccount { address: addr(31), data: data_with(16, &addr(2), 0), account: 1u8 }),
        Ok(ScannedAccount { address: addr(32), data: data_with(16, &key, 5), account: 2u8 }),
    ];
    let kept = collect_scan(&f, entries).unwrap();
    let addresses: Vec<Address> = kept.iter().map(|a| a.address).collect();
    assert_eq!(addresses, vec![addr(30), addr(32)]);
}

#[test]
fn scan_propagates_the_first_other_error() {
    let key = addr(1);
    let f = claim_data_filter(&key);
    let entries: Vec<Result<ScannedAccount<u8>, RemoteError>> = vec![
        Ok(ScannedAccount { address: addr(30), data: data_with(16, &key, 0), account: 0u8 }),
        Err(RemoteError::ClientTransport),
        Err(RemoteError::LogParse),
    ];
    assert_eq!(collect_scan(&f, entries).err(), Some(RemoteError::ClientTransport));
}

#[test]
fn missing_account_mid_scan_is_dropped() {
    let key = addr(1);
    let f = claim_data_filter(&key);
    let entries = vec![
        Ok(ScannedAccount { address: addr(40), data: data_with(16, &key, 0), account: ClaimData { chosen_option: 0 } }),
        Err(RemoteError::AccountNotFound),
        Ok(ScannedAccount { address: addr(42), data: data_with(16, &key, 0), account: ClaimData { chosen_option: 2 } }),
    ];
    let kept = collect_scan(&f, entries).unwrap();
    assert_eq!(kept.len(), 2);
    assert_eq!(kept[0].address, addr(40));
    assert_eq!(kept[1].address, addr(42));
    let d = distribution();
    let mut batch = Batch::new();
    for entity in kept.iter() {
        let tx = build_claim(&entity.address, &d, &addr(7), &None, &addr(60), &entity.account).unwrap();
        assert_eq!(tx.instructions.len(), 1);
        batch.record(Ok(()));
    }
    assert_eq!(batch.status(), Ok(0));
}

#[test]
fn happy_path_claim_uses_default_payout() {
    let d = distribution();
    let user = addr(40);
    let payer = addr(7);
    let default_payout = addr(60);
    let tx = build_claim(&user, &d, &payer, &None, &default_payout, &ClaimData { chosen_option: 2 })
        .unwrap();
    assert_eq!(
        tx.instructions,
        vec![Instruction::Claim {
            user,
            distribution: addr(1),
            realm: addr(2),
            wallet: addr(21),
            payout: default_payout,
            payer,
        }]
    );
    assert_eq!(tx.signers, vec![payer]);
    let mut batch = Batch::new();
    batch.record(Ok(()));
    assert_eq!(batch.status(), Ok(0));
}

#[test]
fn claim_uses_the_preferred_wallet() {
    let d = distribution();
    let prefs = Some(UserPreferences { payout_wallet: addr(70) });
    let tx = build_claim(&addr(40), &d, &addr(7), &prefs, &addr(60), &ClaimData { chosen_option: 0 })
        .unwrap();
    match tx.instructions[0] {
        Instruction::Claim { payout, wallet, .. } => {
            assert_eq!(payout, addr(70));
            assert_eq!(wallet, addr(11));
        }
        _ => panic!("expected a claim instruction"),
    }
    assert_eq!(payout_address(&prefs, &addr(60)), addr(70));
    assert_eq!(payout_address(&None, &addr(60)), addr(60));
}

#[test]
fn claim_of_an_empty_or_missing_slot_fails() {
    let d = distribution();
    for i in [1u8, 3, 255] {
        assert_eq!(
            build_claim(&addr(40), &d, &addr(7), &None, &addr(60), &ClaimData { chosen_option: i }),
            Err(BuildError::MissingOption)
        );
    }
}

#[test]
fn claim_build_is_deterministic() {
    let d = distribution();
    let a = build_claim(&addr(40), &d, &addr(7), &None, &addr(60), &ClaimData { chosen_option: 0 });
    let b = build_claim(&addr(40), &d, &addr(7), &None, &addr(60), &ClaimData { chosen_option: 0 });
    assert_eq!(a, b);
}

#[test]
fn transport_flake_counts_and_continues() {
    let mut batch = Batch::new();
    batch.record(Err(RemoteError::ClientTransport));
    assert_eq!(batch.status(), Ok(1));
    assert!(batch.may_continue());
    batch.record(Ok(()));
    assert_eq!(batch.status(), Ok(1));
}

#[test]
fn program_rejection_aborts_before_next_entity() {
    let mut batch = Batch::new();
    batch.record(Err(RemoteError::AnchorError { code: Some(6010) }));
    assert!(!batch.may_continue());
    assert_eq!(batch.status(), Err(Failure::Fatal(RemoteError::AnchorError { code: Some(6010) })));
}

#[test]
fn already_reclaimed_is_not_an_error() {
    let code = 6000 + ALREADY_RECLAIMED;
    assert!(is_already_claimed_err(&RemoteError::AnchorError { code: Some(code) }, ALREADY_RECLAIMED));
    assert!(!is_already_claimed_err(&RemoteError::AnchorError { code: Some(code + 1) }, ALREADY_RECLAIMED));
    assert!(!is_already_claimed_err(&RemoteError::AnchorError { code: Some(ALREADY_RECLAIMED) }, ALREADY_RECLAIMED));
    assert!(!is_already_claimed_err(&RemoteError::ProgramError, ALREADY_RECLAIMED));
    assert!(!is_already_claimed_err(&RemoteError::AnchorError { code: None }, ALREADY_RECLAIMED));
    let d = distribution();
    let options = d.account.options();
    assert_eq!(options.len(), 2);
    let results = vec![Err(RemoteError::AnchorError { code: Some(code) }), Ok(())];
    let mut degradations = 0;
    for (_, r) in options.iter().zip(results) {
        degradations += reclaim_outcome(r, ALREADY_RECLAIMED).unwrap();
    }
    assert_eq!(degradations, 0);
    assert_eq!(reclaim_outcome(Ok(()), ALREADY_RECLAIMED), Ok(0));
}

#[test]
fn reclaim_classifies_other_errors() {
    assert_eq!(reclaim_outcome(Err(RemoteError::ClientTransport), ALREADY_RECLAIMED), Ok(1));
    assert_eq!(reclaim_outcome(Err(RemoteError::PubsubTransport), ALREADY_RECLAIMED), Ok(1));
    assert_eq!(reclaim_outcome(Err(RemoteError::AccountNotFound), ALREADY_RECLAIMED), Ok(0));
    assert_eq!(
        reclaim_outcome(Err(RemoteError::AnchorError { code: Some(6000 + ALREADY_RECLAIMED + 1) }), ALREADY_RECLAIMED),
        Err(Failure::Fatal(RemoteError::AnchorError { code: Some(6000 + ALREADY_RECLAIMED + 1) }))
    );
    assert_eq!(
        reclaim_outcome(Err(RemoteError::ProgramError), ALREADY_RECLAIMED),
        Err(Failure::Fatal(RemoteError::ProgramError))
    );
}

#[test]
fn reclaim_transport_flake_still_sweeps_next_option() {
    let d = distribution();
    let options = d.account.options();
    let results = vec![Err(RemoteError::ClientTransport), Ok(())];
    let mut degradations = 0;
    let mut sent = 0;
    for (_, r) in options.iter().zip(results) {
        sent += 1;
        degradations += reclaim_outcome(r, ALREADY_RECLAIMED).unwrap();
    }
    assert_eq!(sent, 2);
    assert_eq!(degradations, 1);
}

#[test]
fn reclaim_pays_the_admin_token_account() {
    let d = distribution();
    let admin = addr(50);
    let option = d.account.options()[0];
    let tx = build_reclaim(&admin, &option, &d);
    assert_eq!(tx.signers, vec![admin]);
    match tx.instructions[0] {
        Instruction::ReclaimFunds { distribution, admin: a, wallet, to } => {
            assert_eq!(distribution, addr(1));
            assert_eq!(a, admin);
            assert_eq!(wallet, addr(11));
            assert_ne!(to, admin);
            assert_ne!(to, option.mint);
            let again = build_reclaim(&admin, &option, &d);
            assert_eq!(again, tx);
        }
        _ => panic!("expected a reclaim instruction"),
    }
}

#[test]
fn register_refreshes_weight_then_registers() {
    let d = distribution();
    let user = addr(40);
    let payer = addr(7);
    let program = addr(80);
    let tx = build_register(&user, &d, &d.account.realm, &payer, &program).unwrap();
    assert_eq!(tx.signers, vec![payer]);
    assert_eq!(tx.instructions.len(), 2);
    let (voter, vwr) = match tx.instructions[0] {
        Instruction::UpdateVoterWeightRecord { registrar, voter, voter_weight_record } => {
            assert_eq!(registrar, addr(3));
            (voter, voter_weight_record)
        }
        _ => panic!("expected a weight refresh first"),
    };
    assert_ne!(vwr, voter);
    assert_ne!(vwr, addr(3));
    assert_ne!(vwr, user);
    assert_eq!(
        tx.instructions[1],
        Instruction::Register { user, distribution: addr(1), realm: addr(2), voter_weight_record: vwr, payer }
    );
}

#[test]
fn register_without_registrar_fails() {
    let mut d = distribution();
    d.account.registrar = None;
    assert_eq!(
        build_register(&addr(40), &d, &d.account.realm, &addr(7), &addr(80)),
        Err(BuildError::MissingRegistrar)
    );
}

#[test]
fn options_skip_empty_slots() {
    let d = distribution();
    let o = d.account.options();
    assert_eq!(o, vec![
        DistributionOption { mint: addr(10), wallet: addr(11) },
        DistributionOption { mint: addr(20), wallet: addr(21) },
    ]);
    assert_eq!(ClaimData { chosen_option: 1 }.chosen_option(&d.account), None);
    assert_eq!(ClaimData { chosen_option: 0 }.chosen_option(&d.account), Some(o[0]));
}

#[test]
fn next_step_walks_entities_in_order_until_done() {
    let mut batch = Batch::new();
    assert_eq!(batch.next_step(3), Step::Process(0));
    batch.record(Err(RemoteError::ClientTransport));
    assert_eq!(batch.next_step(3), Step::Process(1));
    batch.record(Err(RemoteError::AccountNotFound));
    assert_eq!(batch.next_step(3), Step::Process(2));
    batch.record(Ok(()));
    assert_eq!(batch.next_step(3), Step::Done(Ok(1)));
    assert_eq!(Batch::new().next_step(0), Step::Done(Ok(0)));
}

#[test]
fn next_step_after_fatal_skips_remaining_entities() {
    let mut batch = Batch::new();
    batch.record(Ok(()));
    batch.record(Err(RemoteError::ProgramError));
    assert_eq!(batch.next_step(5), Step::Done(Err(Failure::Fatal(RemoteError::ProgramError))));
}

#[test]
fn skipped_entity_does_not_stop_or_count() {
    let mut batch = Batch::new();
    batch.skip();
    assert_eq!(batch.next_step(2), Step::Process(1));
    batch.record(Ok(()));
    assert_eq!(batch.next_step(2), Step::Done(Ok(0)));
}
