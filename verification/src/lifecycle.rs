//! The three delegation-lifecycle transition protocols.
//!
//! Each protocol loads its typed context, checks vault consistency, and plans
//! the calls the external mirroring service must perform, all before any
//! externally visible effect. The embedding runtime performs the planned
//! requests as one atomic unit and hands the results back to the completion
//! functions, which decide between the event to emit and the terminal error.

use vstd::prelude::*;

use crate::account::{copy_bytes, AccountRecord};
use crate::context::{
    delegate_load_error, snapshot_load_error, CommitMarketContext, DelegateMarketContext,
    KnownPrograms, UndelegateMarketContext,
};
use crate::errors::LifecycleError;
use crate::market::{check_vault_consistency, vaults_consistent, MarketHeader};
use crate::params::{parsed_params, DelegateMarketParams};

verus! {

/// One delegation request for the external mirroring service: hand ownership
/// of `target` to the service, with the bookkeeping accounts supplied for it.
/// No validator preference is carried: the service default is used.
#[derive(Debug)]
pub struct DelegationRequest {
    pub payer: Vec<u8>,
    pub target: Vec<u8>,
    pub owner_program: Vec<u8>,
    pub buffer: Vec<u8>,
    pub record: Vec<u8>,
    pub metadata: Vec<u8>,
    pub delegation_program: Vec<u8>,
    /// Derivation seeds of `target`: empty when the target is not a derived
    /// address.
    pub seeds: Vec<Vec<u8>>,
    /// How often the service snapshots state back to the base layer.
    pub sync_interval_ms: u32,
}

/// One snapshot request for the external mirroring service: write the current
/// state of `accounts` back to the base layer, and additionally return their
/// ownership to the base-layer program when `release_ownership` is set.
#[derive(Debug)]
pub struct SnapshotRequest {
    pub payer: Vec<u8>,
    /// Market, base vault and quote vault, in that order.
    pub accounts: Vec<Vec<u8>>,
    pub coordination_context: Vec<u8>,
    pub coordination_program: Vec<u8>,
    pub release_ownership: bool,
}

/// The planned effect of a valid delegate invocation: three delegation
/// requests, to be performed as one atomic unit.
#[derive(Debug)]
pub struct DelegatePlan {
    pub market: Vec<u8>,
    pub params: DelegateMarketParams,
    pub requests: Vec<DelegationRequest>,
}

/// The planned effect of a valid commit or undelegate invocation: one
/// snapshot request.
#[derive(Debug)]
pub struct SnapshotPlan {
    pub market: Vec<u8>,
    pub request: SnapshotRequest,
}

/// The structured fact recorded once a transition completes.
#[derive(Debug)]
pub enum MarketEvent {
    DelegationStarted { market: Vec<u8>, sync_interval_ms: u64, time_limit: u64 },
    StateCommitted { market: Vec<u8> },
    DelegationEnded { market: Vec<u8> },
}

/// The fixed first derivation seed of a vault: the bytes of the ASCII tag
/// `vault`.
pub open spec fn vault_seed_prefix() -> Seq<u8> {
    seq![118u8, 97u8, 117u8, 108u8, 116u8]
}

/// The derivation seeds of a vault: the fixed tag, the market address, the
/// mint address, and the stored bump.
pub open spec fn vault_seeds(market: Seq<u8>, mint: Seq<u8>, bump: u8) -> Seq<Seq<u8>> {
    seq![vault_seed_prefix(), market, mint, seq![bump]]
}

/// Field-wise description of one delegation request.
pub open spec fn request_matches(
    r: DelegationRequest,
    payer: Seq<u8>,
    target: Seq<u8>,
    owner: Seq<u8>,
    buffer: Seq<u8>,
    record: Seq<u8>,
    metadata: Seq<u8>,
    delegation_program: Seq<u8>,
    seeds: Seq<Seq<u8>>,
    sync_interval_ms: u32,
) -> bool {
    &&& r.payer@ == payer
    &&& r.target@ == target
    &&& r.owner_program@ == owner
    &&& r.buffer@ == buffer
    &&& r.record@ == record
    &&& r.metadata@ == metadata
    &&& r.delegation_program@ == delegation_program
    &&& r.seeds@.len() == seeds.len()
    &&& (forall|i: int| 0 <= i < seeds.len() ==> r.seeds@[i]@ == seeds[i])
    &&& r.sync_interval_ms == sync_interval_ms
}

/// The plan a valid delegate invocation over the account list `s`, header `h`
/// and parameters `p` must produce: one request for the market (no seeds) and
/// one per vault (tag, market address, mint address, stored bump), each
/// carrying the same synchronization interval.
pub open spec fn delegate_plan_matches(
    plan: DelegatePlan,
    s: Seq<AccountRecord>,
    h: MarketHeader,
    p: DelegateMarketParams,
) -> bool {
    &&& plan.market@ == s[2].key@
    &&& plan.params == p
    &&& plan.requests@.len() == 3
    &&& request_matches(
        plan.requests@[0],
        s[0].key@,
        s[2].key@,
        s[3].key@,
        s[8].key@,
        s[9].key@,
        s[10].key@,
        s[17].key@,
        Seq::<Seq<u8>>::empty(),
        p.update_frequency_ms,
    )
    &&& request_matches(
        plan.requests@[1],
        s[0].key@,
        s[4].key@,
        s[3].key@,
        s[11].key@,
        s[12].key@,
        s[13].key@,
        s[17].key@,
        vault_seeds(s[2].key@, s[6].key@, h.base_vault_bump),
        p.update_frequency_ms,
    )
    &&& request_matches(
        plan.requests@[2],
        s[0].key@,
        s[5].key@,
        s[3].key@,
        s[14].key@,
        s[15].key@,
        s[16].key@,
        s[17].key@,
        vault_seeds(s[2].key@, s[7].key@, h.quote_vault_bump),
        p.update_frequency_ms,
    )
}

/// The plan a valid commit (`release_ownership` false) or undelegate
/// (`release_ownership` true) invocation over the account list `s` must
/// produce.
pub open spec fn snapshot_plan_matches(plan: SnapshotPlan, s: Seq<AccountRecord>, release: bool) -> bool {
    &&& plan.market@ == s[1].key@
    &&& plan.request.payer@ == s[0].key@
    &&& plan.request.accounts@.len() == 3
    &&& plan.request.accounts@[0]@ == s[1].key@
    &&& plan.request.accounts@[1]@ == s[2].key@
    &&& plan.request.accounts@[2]@ == s[3].key@
    &&& plan.request.coordination_context@ == s[4].key@
    &&& plan.request.coordination_program@ == s[5].key@
    &&& plan.request.release_ownership == release
}

/// The first check a delegate invocation fails on, or `None` when it is
/// valid: the parameter record is decoded first, then the context is loaded,
/// then vault consistency is checked.
pub open spec fn delegate_outcome_error(
    s: Seq<AccountRecord>,
    h: MarketHeader,
    data: Seq<u8>,
    cfg: KnownPrograms,
) -> Option<LifecycleError> {
    if parsed_params(data) is None {
        Some(LifecycleError::InvalidOrMismatchedAccountData)
    } else if delegate_load_error(s, cfg) is Some {
        delegate_load_error(s, cfg)
    } else if !vaults_consistent(h, s[4].key@, s[5].key@) {
        Some(LifecycleError::InvalidOrMismatchedAccountData)
    } else {
        None
    }
}

/// The first check a commit or undelegate invocation fails on, or `None`
/// when it is valid: the context is loaded, then vault consistency is
/// checked.
pub open spec fn snapshot_outcome_error(s: Seq<AccountRecord>, h: MarketHeader) -> Option<
    LifecycleError,
> {
    if snapshot_load_error(s) is Some {
        snapshot_load_error(s)
    } else if !vaults_consistent(h, s[2].key@, s[3].key@) {
        Some(LifecycleError::InvalidOrMismatchedAccountData)
    } else {
        None
    }
}

/// Build the derivation seeds of one vault.
fn build_vault_seeds(market: &Vec<u8>, mint: &Vec<u8>, bump: u8) -> (r: Vec<Vec<u8>>)
    ensures
        r@.len() == 4,
        r@[0]@ == vault_seed_prefix(),
        r@[1]@ == market@,
        r@[2]@ == mint@,
        r@[3]@ == seq![bump],
{
    // The ASCII bytes of the tag `vault`.
    let mut prefix: Vec<u8> = Vec::new();
    prefix.push(118);
    prefix.push(97);
    prefix.push(117);
    prefix.push(108);
    prefix.push(116);
    proof {
        assert(prefix@ =~= vault_seed_prefix());
    }
    let mut bump_seed: Vec<u8> = Vec::new();
    bump_seed.push(bump);
    proof {
        assert(bump_seed@ =~= seq![bump]);
    }
    let mut r: Vec<Vec<u8>> = Vec::new();
    r.push(prefix);
    r.push(copy_bytes(market));
    r.push(copy_bytes(mint));
    r.push(bump_seed);
    r
}

/// Validate a delegate invocation and plan its three delegation requests:
/// market (no derivation seeds), base vault, and quote vault, each carrying
/// the caller's synchronization interval and no validator preference. All
/// checks run before anything externally visible; the requests must then all
/// succeed within one atomic unit (`complete_delegate_market`).
pub fn process_delegate_market(
    accounts: &Vec<AccountRecord>,
    header: &MarketHeader,
    data: &Vec<u8>,
    programs: &KnownPrograms,
) -> (r: Result<DelegatePlan, LifecycleError>)
    ensures
        r is Ok <==> delegate_outcome_error(accounts@, *header, data@, *programs) is None,
        r is Err ==> r->Err_0 == delegate_outcome_error(accounts@, *header, data@, *programs)->0,
        r is Ok ==> delegate_plan_matches(r->Ok_0, accounts@, *header, parsed_params(data@)->0),
{
    let params = match DelegateMarketParams::decode(data) {
        Ok(p) => p,
        Err(e) => {
            return Err(e);
        },
    };
    let ctx = match DelegateMarketContext::load(accounts, programs) {
        Ok(c) => c,
        Err(e) => {
            return Err(e);
        },
    };
    match check_vault_consistency(header, &ctx.base_vault, &ctx.quote_vault) {
        Ok(u) => u,
        Err(e) => {
            return Err(e);
        },
    };
    let mut requests: Vec<DelegationRequest> = Vec::new();
    requests.push(
        DelegationRequest {
            payer: copy_bytes(&ctx.payer.record.key),
            target: copy_bytes(&ctx.market.record.key),
            owner_program: copy_bytes(&ctx.owner_program.record.key),
            buffer: copy_bytes(&ctx.market_delegation_buffer.record.key),
            record: copy_bytes(&ctx.market_delegation_record.record.key),
            metadata: copy_bytes(&ctx.market_delegation_metadata.record.key),
            delegation_program: copy_bytes(&ctx.delegation_program.record.key),
            seeds: Vec::new(),
            sync_interval_ms: params.update_frequency_ms,
        },
    );
    requests.push(
        DelegationRequest {
            payer: copy_bytes(&ctx.payer.record.key),
            target: copy_bytes(&ctx.base_vault.record.key),
            owner_program: copy_bytes(&ctx.owner_program.record.key),
            buffer: copy_bytes(&ctx.base_vault_delegation_buffer.record.key),
            record: copy_bytes(&ctx.base_vault_delegation_record.record.key),
            metadata: copy_bytes(&ctx.base_vault_delegation_metadata.record.key),
            delegation_program: copy_bytes(&ctx.delegation_program.record.key),
            seeds: build_vault_seeds(
                &ctx.market.record.key,
                &ctx.base_mint.record.key,
                header.base_vault_bump,
            ),
            sync_interval_ms: params.update_frequency_ms,
        },
    );
    requests.push(
        DelegationRequest {
            payer: copy_bytes(&ctx.payer.record.key),
            target: copy_bytes(&ctx.quote_vault.record.key),
            owner_program: copy_bytes(&ctx.owner_program.record.key),
            buffer: copy_bytes(&ctx.quote_vault_delegation_buffer.record.key),
            record: copy_bytes(&ctx.quote_vault_delegation_record.record.key),
            metadata: copy_bytes(&ctx.quote_vault_delegation_metadata.record.key),
            delegation_program: copy_bytes(&ctx.delegation_program.record.key),
            seeds: build_vault_seeds(
                &ctx.market.record.key,
                &ctx.quote_mint.record.key,
                header.quote_vault_bump,
            ),
            sync_interval_ms: params.update_frequency_ms,
        },
    );
    Ok(DelegatePlan { market: copy_bytes(&ctx.market.record.key), params, requests })
}

/// Validate a commit invocation and plan its single snapshot request, which
/// writes the state of {market, base vault, quote vault} back to the base
/// layer without changing ownership.
pub fn process_commit_market(accounts: &Vec<AccountRecord>, header: &MarketHeader) -> (r: Result<
    SnapshotPlan,
    LifecycleError,
>)
    ensures
        r is Ok <==> snapshot_outcome_error(accounts@, *header) is None,
        r is Err ==> r->Err_0 == snapshot_outcome_error(accounts@, *header)->0,
        r is Ok ==> snapshot_plan_matches(r->Ok_0, accounts@, false),
{
    let ctx = match CommitMarketContext::load(accounts) {
        Ok(c) => c,
        Err(e) => {
            return Err(e);
        },
    };
    match check_vault_consistency(header, &ctx.base_vault, &ctx.quote_vault) {
        Ok(u) => u,
        Err(e) => {
            return Err(e);
        },
    };
    let mut listed: Vec<Vec<u8>> = Vec::new();
    listed.push(copy_bytes(&ctx.market.record.key));
    listed.push(copy_bytes(&ctx.base_vault.record.key));
    listed.push(copy_bytes(&ctx.quote_vault.record.key));
    Ok(
        SnapshotPlan {
            market: copy_bytes(&ctx.market.record.key),
            request: SnapshotRequest {
                payer: copy_bytes(&ctx.payer.record.key),
                accounts: listed,
                coordination_context: copy_bytes(&ctx.coordination_context.record.key),
                coordination_program: copy_bytes(&ctx.coordination_program.record.key),
                release_ownership: false,
            },
        },
    )
}

/// Validate an undelegate invocation and plan its single snapshot request,
/// which writes the state of {market, base vault, quote vault} back to the
/// base layer and returns their ownership to the base-layer program. Whether
/// the market is currently delegated is judged by the external service, not
/// locally.
pub fn process_undelegate_market(accounts: &Vec<AccountRecord>, header: &MarketHeader) -> (r:
    Result<SnapshotPlan, LifecycleError>)
    ensures
        r is Ok <==> snapshot_outcome_error(accounts@, *header) is None,
        r is Err ==> r->Err_0 == snapshot_outcome_error(accounts@, *header)->0,
        r is Ok ==> snapshot_plan_matches(r->Ok_0, accounts@, true),
{
    let ctx = match UndelegateMarketContext::load(accounts) {
        Ok(c) => c,
        Err(e) => {
            return Err(e);
        },
    };
    match check_vault_consistency(header, &ctx.base_vault, &ctx.quote_vault) {
        Ok(u) => u,
        Err(e) => {
            return Err(e);
        },
    };
    let mut listed: Vec<Vec<u8>> = Vec::new();
    listed.push(copy_bytes(&ctx.market.record.key));
    listed.push(copy_bytes(&ctx.base_vault.record.key));
    listed.push(copy_bytes(&ctx.quote_vault.record.key));
    Ok(
        SnapshotPlan {
            market: copy_bytes(&ctx.market.record.key),
            request: SnapshotRequest {
                payer: copy_bytes(&ctx.payer.record.key),
                accounts: listed,
                coordination_context: copy_bytes(&ctx.coordination_context.record.key),
                coordination_program: copy_bytes(&ctx.coordination_program.record.key),
                release_ownership: true,
            },
        },
    )
}

/// Decide the outcome of a delegate invocation once the runtime has performed
/// the planned requests: the delegation event exactly when every request
/// succeeded, the external-service failure otherwise (the enclosing atomic
/// unit then rolls every effect back).
pub fn complete_delegate_market(plan: &DelegatePlan, request_results: &Vec<bool>) -> (r: Result<
    MarketEvent,
    LifecycleError,
>)
    ensures
        r is Ok <==> (request_results@.len() == plan.requests@.len() && (forall|i: int|
            0 <= i < request_results@.len() ==> request_results@[i])),
        r is Ok ==> (r->Ok_0 matches MarketEvent::DelegationStarted {
            market,
            sync_interval_ms,
            time_limit,
        } && market@ == plan.market@ && sync_interval_ms == plan.params.update_frequency_ms as u64
            && time_limit == plan.params.time_limit),
        r is Err ==> r->Err_0 == LifecycleError::ExternalServiceFailure,
{
    if request_results.len() != plan.requests.len() {
        return Err(LifecycleError::ExternalServiceFailure);
    }
    let mut i: usize = 0;
    while i < request_results.len()
        invariant
            i <= request_results@.len(),
            forall|j: int| 0 <= j < i ==> request_results@[j],
        decreases request_results@.len() - i,
    {
        if !request_results[i] {
            return Err(LifecycleError::ExternalServiceFailure);
        }
        i += 1;
    }
    Ok(
        MarketEvent::DelegationStarted {
            market: copy_bytes(&plan.market),
            sync_interval_ms: plan.params.update_frequency_ms as u64,
            time_limit: plan.params.time_limit,
        },
    )
}

/// Decide the outcome of a commit invocation once the runtime has performed
/// the snapshot request: the commit event exactly when the call succeeded.
pub fn complete_commit_market(plan: &SnapshotPlan, call_succeeded: bool) -> (r: Result<
    MarketEvent,
    LifecycleError,
>)
    ensures
        r is Ok <==> call_succeeded,
        r is Ok ==> (r->Ok_0 matches MarketEvent::StateCommitted { market } && market@
            == plan.market@),
        r is Err ==> r->Err_0 == LifecycleError::ExternalServiceFailure,
{
    if call_succeeded {
        Ok(MarketEvent::StateCommitted { market: copy_bytes(&plan.market) })
    } else {
        Err(LifecycleError::ExternalServiceFailure)
    }
}

/// Decide the outcome of an undelegate invocation once the runtime has
/// performed the snapshot request: the end-of-delegation event exactly when
/// the call succeeded.
pub fn complete_undelegate_market(plan: &SnapshotPlan, call_succeeded: bool) -> (r: Result<
    MarketEvent,
    LifecycleError,
>)
    ensures
        r is Ok <==> call_succeeded,
        r is Ok ==> (r->Ok_0 matches MarketEvent::DelegationEnded { market } && market@
            == plan.market@),
        r is Err ==> r->Err_0 == LifecycleError::ExternalServiceFailure,
{
    if call_succeeded {
        Ok(MarketEvent::DelegationEnded { market: copy_bytes(&plan.market) })
    } else {
        Err(LifecycleError::ExternalServiceFailure)
    }
}

/// For every market, a delegate invocation whose supplied base-vault or
/// quote-vault address differs from the one stored in the market header is
/// rejected; when every earlier check passes, the rejection is the
/// invalid-account-data condition of the vault consistency check.
pub proof fn lemma_delegate_rejects_vault_mismatch(
    s: Seq<AccountRecord>,
    h: MarketHeader,
    data: Seq<u8>,
    cfg: KnownPrograms,
)
    requires
        s.len() == 18,
        s[4].key@ != h.base_vault@ || s[5].key@ != h.quote_vault@,
    ensures
        delegate_outcome_error(s, h, data, cfg) is Some,
        parsed_params(data) is Some && delegate_load_error(s, cfg) is None
            ==> delegate_outcome_error(s, h, data, cfg) == Some(
            LifecycleError::InvalidOrMismatchedAccountData,
        ),
{
}

/// For every market, a commit or undelegate invocation whose supplied
/// base-vault or quote-vault address differs from the one stored in the
/// market header is rejected; when the context loads, the rejection is the
/// invalid-account-data condition of the vault consistency check. Both
/// protocols share this outcome function.
pub proof fn lemma_snapshot_rejects_vault_mismatch(s: Seq<AccountRecord>, h: MarketHeader)
    requires
        s.len() == 6,
        s[2].key@ != h.base_vault@ || s[3].key@ != h.quote_vault@,
    ensures
        snapshot_outcome_error(s, h) is Some,
        snapshot_load_error(s) is None ==> snapshot_outcome_error(s, h) == Some(
            LifecycleError::InvalidOrMismatchedAccountData,
        ),
{
}

/// A commit or undelegate invocation whose payer is not a signer fails with
/// the missing-signature condition; no plan, and hence no external call, is
/// ever produced for it.
pub proof fn lemma_unsigned_payer_rejected(s: Seq<AccountRecord>, h: MarketHeader)
    requires
        s.len() == 6,
        !s[0].is_signer,
    ensures
        snapshot_outcome_error(s, h) == Some(LifecycleError::MissingSignature),
{
}

/// A delegate invocation with a well-formed parameter record whose payer is
/// not writable fails with the not-writable condition.
pub proof fn lemma_nonwritable_payer_rejected(
    s: Seq<AccountRecord>,
    h: MarketHeader,
    data: Seq<u8>,
    cfg: KnownPrograms,
)
    requires
        s.len() == 18,
        !s[0].is_writable,
        parsed_params(data) is Some,
    ensures
        delegate_outcome_error(s, h, data, cfg) == Some(LifecycleError::NotWritable),
{
}

/// A well-formed delegate invocation issues exactly three delegation
/// requests — market, base vault, quote vault — where the market request has
/// no derivation seeds and each vault request carries the seeds {tag, market
/// address, mint address, stored bump}, all with the caller's
/// synchronization interval.
pub proof fn lemma_delegate_issues_three_requests(
    plan: DelegatePlan,
    s: Seq<AccountRecord>,
    h: MarketHeader,
    p: DelegateMarketParams,
)
    requires
        delegate_plan_matches(plan, s, h, p),
    ensures
        plan.requests@.len() == 3,
        plan.requests@[0].target@ == s[2].key@,
        plan.requests@[0].seeds@.len() == 0,
        plan.requests@[1].target@ == s[4].key@,
        plan.requests@[1].seeds@.len() == 4,
        plan.requests@[1].seeds@[0]@ == vault_seed_prefix(),
        plan.requests@[1].seeds@[1]@ == s[2].key@,
        plan.requests@[1].seeds@[2]@ == s[6].key@,
        plan.requests@[1].seeds@[3]@ == seq![h.base_vault_bump],
        plan.requests@[2].target@ == s[5].key@,
        plan.requests@[2].seeds@.len() == 4,
        plan.requests@[2].seeds@[0]@ == vault_seed_prefix(),
        plan.requests@[2].seeds@[1]@ == s[2].key@,
        plan.requests@[2].seeds@[2]@ == s[7].key@,
        plan.requests@[2].seeds@[3]@ == seq![h.quote_vault_bump],
        plan.requests@[0].sync_interval_ms == p.update_frequency_ms,
        plan.requests@[1].sync_interval_ms == p.update_frequency_ms,
        plan.requests@[2].sync_interval_ms == p.update_frequency_ms,
{
}

} // verus!
