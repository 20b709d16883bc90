use manifest::account::AccountRecord;
use manifest::context::KnownPrograms;
use manifest::errors::LifecycleError;
use manifest::lifecycle::{
    complete_commit_market, complete_delegate_market, complete_undelegate_market,
    process_commit_market, process_delegate_market, process_undelegate_market, MarketEvent,
};
use manifest::market::MarketHeader;
use manifest::params::DelegateMarketParams;

const PAYER: u8 = 1;
const SYSTEM: u8 = 2;
const MARKET: u8 = 3;
const BASE_LAYER: u8 = 4;
const BASE_VAULT: u8 = 5;
const QUOTE_VAULT: u8 = 6;
const BASE_MINT: u8 = 7;
const QUOTE_MINT: u8 = 8;
const DELEGATION_PROGRAM: u8 = 18;
const COORDINATION_CONTEXT: u8 = 20;
const COORDINATION_PROGRAM: u8 = 21;
const BASE_VAULT_BUMP: u8 = 254;
const QUOTE_VAULT_BUMP: u8 = 253;

fn key(tag: u8) -> Vec<u8> {
    vec![tag; 32]
}

fn record(tag: u8, owner_tag: u8, is_signer: bool, is_writable: bool) -> AccountRecord {
    AccountRecord {
        key: key(tag),
        owner: key(owner_tag),
        is_signer,
        is_writable,
        data_len: 0,
    }
}

fn programs() -> KnownPrograms {
    KnownPrograms {
        system_program: key(SYSTEM),
        base_layer_program: key(BASE_LAYER),
        token_program: key(30),
        token_2022_program: key(31),
    }
}

fn header() -> MarketHeader {
    MarketHeader {
        base_vault: key(BASE_VAULT),
        quote_vault: key(QUOTE_VAULT),
        base_vault_bump: BASE_VAULT_BUMP,
        quote_vault_bump: QUOTE_VAULT_BUMP,
    }
}

fn delegate_accounts() -> Vec<AccountRecord> {
    vec![
        record(PAYER, 0, true, true),
        record(SYSTEM, 0, false, false),
        record(MARKET, BASE_LAYER, false, true),
        record(BASE_LAYER, 0, false, false),
        record(BASE_VAULT, BASE_LAYER, false, true),
        record(QUOTE_VAULT, BASE_LAYER, false, true),
        record(BASE_MINT, 0, false, false),
        record(QUOTE_MINT, 0, false, false),
        record(9, 0, false, true),
        record(10, 0, false, true),
        record(11, 0, false, true),
        record(12, 0, false, true),
        record(13, 0, false, true),
        record(14, 0, false, true),
        record(15, 0, false, true),
        record(16, 0, false, true),
        record(17, 0, false, true),
        record(DELEGATION_PROGRAM, 0, false, false),
    ]
}

fn snapshot_accounts() -> Vec<AccountRecord> {
    vec![
        record(PAYER, 0, true, false),
        record(MARKET, DELEGATION_PROGRAM, false, true),
        record(BASE_VAULT, DELEGATION_PROGRAM, false, true),
        record(QUOTE_VAULT, DELEGATION_PROGRAM, false, true),
        record(COORDINATION_CONTEXT, 0, false, true),
        record(COORDINATION_PROGRAM, 0, false, false),
    ]
}

fn delegate_data(update_frequency_ms: u32, time_limit: u64) -> Vec<u8> {
    DelegateMarketParams {
        update_frequency_ms,
        time_limit,
    }
    .encode()
}

#[test]
fn test_delegate_plan_requests() {
    // A well-formed delegate invocation issues exactly three delegation
    // requests with the documented derivation seeds.
    let plan = process_delegate_market(
        &delegate_accounts(),
        &header(),
        &delegate_data(5000, 0),
        &programs(),
    )
    .unwrap();

    assert_eq!(plan.market, key(MARKET));
    assert_eq!(plan.requests.len(), 3);

    let market_request = &plan.requests[0];
    assert_eq!(market_request.target, key(MARKET));
    assert_eq!(market_request.payer, key(PAYER));
    assert_eq!(market_request.owner_program, key(BASE_LAYER));
    assert_eq!(market_request.buffer, key(9));
    assert_eq!(market_request.record, key(10));
    assert_eq!(market_request.metadata, key(11));
    assert_eq!(market_request.delegation_program, key(DELEGATION_PROGRAM));
    assert!(market_request.seeds.is_empty());
    assert_eq!(market_request.sync_interval_ms, 5000);

    let base_request = &plan.requests[1];
    assert_eq!(base_request.target, key(BASE_VAULT));
    assert_eq!(base_request.buffer, key(12));
    assert_eq!(base_request.record, key(13));
    assert_eq!(base_request.metadata, key(14));
    assert_eq!(
        base_request.seeds,
        vec![
            b"vault".to_vec(),
            key(MARKET),
            key(BASE_MINT),
            vec![BASE_VAULT_BUMP],
        ]
    );
    assert_eq!(base_request.sync_interval_ms, 5000);

    let quote_request = &plan.requests[2];
    assert_eq!(quote_request.target, key(QUOTE_VAULT));
    assert_eq!(quote_request.buffer, key(15));
    assert_eq!(quote_request.record, key(16));
    assert_eq!(quote_request.metadata, key(17));
    assert_eq!(
        quote_request.seeds,
        vec![
            b"vault".to_vec(),
            key(MARKET),
            key(QUOTE_MINT),
            vec![QUOTE_VAULT_BUMP],
        ]
    );
    assert_eq!(quote_request.sync_interval_ms, 5000);
}

#[test]
fn test_delegate_event_values() {
    // End-to-end: delegate with update_frequency_ms 5000 and time_limit 0;
    // the emitted event carries exactly those values.
    let plan = process_delegate_market(
        &delegate_accounts(),
        &header(),
        &delegate_data(5000, 0),
        &programs(),
    )
    .unwrap();
    let event = complete_delegate_market(&plan, &vec![true, true, true]).unwrap();
    match event {
        MarketEvent::DelegationStarted {
            market,
            sync_interval_ms,
            time_limit,
        } => {
            assert_eq!(market, key(MARKET));
            assert_eq!(sync_interval_ms, 5000);
            assert_eq!(time_limit, 0);
        }
        other => panic!("expected DelegationStarted, got {:?}", other),
    }
}

#[test]
fn test_commit_succeeds_with_matching_vaults() {
    // End-to-end: a market whose header records the supplied vault addresses
    // commits successfully and produces one StateCommitted event.
    let plan = process_commit_market(&snapshot_accounts(), &header()).unwrap();
    assert_eq!(plan.market, key(MARKET));
    assert_eq!(
        plan.request.accounts,
        vec![key(MARKET), key(BASE_VAULT), key(QUOTE_VAULT)]
    );
    assert_eq!(plan.request.payer, key(PAYER));
    assert_eq!(plan.request.coordination_context, key(COORDINATION_CONTEXT));
    assert_eq!(plan.request.coordination_program, key(COORDINATION_PROGRAM));
    assert!(!plan.request.release_ownership);

    let event = complete_commit_market(&plan, true).unwrap();
    match event {
        MarketEvent::StateCommitted { market } => assert_eq!(market, key(MARKET)),
        other => panic!("expected StateCommitted, got {:?}", other),
    }
}

#[test]
fn test_commit_rejects_swapped_vault() {
    // End-to-end: the same market with a foreign address in place of the base
    // vault fails with the invalid-account-data condition; no plan and hence
    // no external call and no event is ever produced.
    let mut accounts = snapshot_accounts();
    accounts[2] = record(99, DELEGATION_PROGRAM, false, true);
    let result = process_commit_market(&accounts, &header());
    assert_eq!(
        result.unwrap_err(),
        LifecycleError::InvalidOrMismatchedAccountData
    );
}

#[test]
fn test_undelegate_external_rejection() {
    // End-to-end: undelegating a market the mirroring service does not hold
    // is rejected by the service; the invocation fails with
    // ExternalServiceFailure and no event is produced.
    let plan = process_undelegate_market(&snapshot_accounts(), &header()).unwrap();
    assert!(plan.request.release_ownership);
    let outcome = complete_undelegate_market(&plan, false);
    assert_eq!(outcome.unwrap_err(), LifecycleError::ExternalServiceFailure);
}

#[test]
fn test_undelegate_event() {
    let plan = process_undelegate_market(&snapshot_accounts(), &header()).unwrap();
    let event = complete_undelegate_market(&plan, true).unwrap();
    match event {
        MarketEvent::DelegationEnded { market } => assert_eq!(market, key(MARKET)),
        other => panic!("expected DelegationEnded, got {:?}", other),
    }
}

#[test]
fn test_vault_mismatch_rejected_by_all_protocols() {
    // The vault consistency check guards every protocol, for either vault.
    let mut delegate_bad_base = delegate_accounts();
    delegate_bad_base[4] = record(99, BASE_LAYER, false, true);
    let mut delegate_bad_quote = delegate_accounts();
    delegate_bad_quote[5] = record(98, BASE_LAYER, false, true);
    for accounts in [delegate_bad_base, delegate_bad_quote] {
        let result =
            process_delegate_market(&accounts, &header(), &delegate_data(5000, 0), &programs());
        assert_eq!(
            result.unwrap_err(),
            LifecycleError::InvalidOrMismatchedAccountData
        );
    }

    let mut snapshot_bad_base = snapshot_accounts();
    snapshot_bad_base[2] = record(99, DELEGATION_PROGRAM, false, true);
    let mut snapshot_bad_quote = snapshot_accounts();
    snapshot_bad_quote[3] = record(98, DELEGATION_PROGRAM, false, true);
    for accounts in [snapshot_bad_base, snapshot_bad_quote] {
        let commit = process_commit_market(&accounts, &header());
        assert_eq!(
            commit.unwrap_err(),
            LifecycleError::InvalidOrMismatchedAccountData
        );
        let undelegate = process_undelegate_market(&accounts, &header());
        assert_eq!(
            undelegate.unwrap_err(),
            LifecycleError::InvalidOrMismatchedAccountData
        );
    }
}

#[test]
fn test_unsigned_payer_rejected() {
    // Commit or undelegate with a payer that is not a signer fails with
    // MissingSignature before any external call is planned.
    let mut accounts = snapshot_accounts();
    accounts[0] = record(PAYER, 0, false, false);
    let commit = process_commit_market(&accounts, &header());
    assert_eq!(commit.unwrap_err(), LifecycleError::MissingSignature);
    let undelegate = process_undelegate_market(&accounts, &header());
    assert_eq!(undelegate.unwrap_err(), LifecycleError::MissingSignature);
}

#[test]
fn test_nonwritable_payer_rejected() {
    // Delegate with a non-writable payer fails with NotWritable.
    let mut accounts = delegate_accounts();
    accounts[0] = record(PAYER, 0, true, false);
    let result =
        process_delegate_market(&accounts, &header(), &delegate_data(5000, 0), &programs());
    assert_eq!(result.unwrap_err(), LifecycleError::NotWritable);
}

#[test]
fn test_delegate_wrong_system_program() {
    let mut accounts = delegate_accounts();
    accounts[1] = record(77, 0, false, false);
    let result =
        process_delegate_market(&accounts, &header(), &delegate_data(5000, 0), &programs());
    assert_eq!(result.unwrap_err(), LifecycleError::WrongProgramIdentity);
}

#[test]
fn test_delegate_wrong_market_owner() {
    let mut accounts = delegate_accounts();
    accounts[2] = record(MARKET, 66, false, true);
    let result =
        process_delegate_market(&accounts, &header(), &delegate_data(5000, 0), &programs());
    assert_eq!(result.unwrap_err(), LifecycleError::IllegalOwner);
}

#[test]
fn test_delegate_wrong_owner_program() {
    let mut accounts = delegate_accounts();
    accounts[3] = record(55, 0, false, false);
    let result =
        process_delegate_market(&accounts, &header(), &delegate_data(5000, 0), &programs());
    assert_eq!(result.unwrap_err(), LifecycleError::WrongProgramIdentity);
}

#[test]
fn test_wrong_account_arity_rejected() {
    let mut too_short = delegate_accounts();
    too_short.pop();
    let result =
        process_delegate_market(&too_short, &header(), &delegate_data(5000, 0), &programs());
    assert_eq!(
        result.unwrap_err(),
        LifecycleError::InvalidOrMismatchedAccountData
    );

    let empty: Vec<AccountRecord> = vec![];
    let commit = process_commit_market(&empty, &header());
    assert_eq!(
        commit.unwrap_err(),
        LifecycleError::InvalidOrMismatchedAccountData
    );
}

#[test]
fn test_delegate_malformed_params() {
    // The parameter record is examined first; a malformed record is rejected
    // even when every account is in order.
    let result = process_delegate_market(
        &delegate_accounts(),
        &header(),
        &vec![1, 2, 3],
        &programs(),
    );
    assert_eq!(
        result.unwrap_err(),
        LifecycleError::InvalidOrMismatchedAccountData
    );
}

#[test]
fn test_complete_delegate_requires_every_request_to_succeed() {
    let plan = process_delegate_market(
        &delegate_accounts(),
        &header(),
        &delegate_data(1000, 3600),
        &programs(),
    )
    .unwrap();

    let partial = complete_delegate_market(&plan, &vec![true, false, true]);
    assert_eq!(partial.unwrap_err(), LifecycleError::ExternalServiceFailure);

    let missing = complete_delegate_market(&plan, &vec![true, true]);
    assert_eq!(missing.unwrap_err(), LifecycleError::ExternalServiceFailure);

    let event = complete_delegate_market(&plan, &vec![true, true, true]).unwrap();
    match event {
        MarketEvent::DelegationStarted {
            market,
            sync_interval_ms,
            time_limit,
        } => {
            assert_eq!(market, key(MARKET));
            assert_eq!(sync_interval_ms, 1000);
            assert_eq!(time_limit, 3600);
        }
        other => panic!("expected DelegationStarted, got {:?}", other),
    }
}

#[test]
fn test_commit_external_rejection() {
    let plan = process_commit_market(&snapshot_accounts(), &header()).unwrap();
    let outcome = complete_commit_market(&plan, false);
    assert_eq!(outcome.unwrap_err(), LifecycleError::ExternalServiceFailure);
}
