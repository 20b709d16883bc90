//! One context loader per operation.
//!
//! Each loader consumes the raw account list in a fixed, position-dependent
//! order (position is the sole role indicator), applies the capability checks
//! the position requires, and produces a struct exposing only typed views.
//! Loading is strictly sequential and fails on the first violated capability;
//! no partial context is ever exposed.

use vstd::prelude::*;

use crate::account::{
    copy_bytes, record_matches, validate_account, AccountRecord, RequiredCapabilities,
    TypedAccountView,
};
use crate::errors::LifecycleError;

verus! {

/// The well-known program identities one invocation runs against, injected at
/// construction rather than compiled in, so embeddings and tests can supply
/// their own.
#[derive(Debug, Clone)]
pub struct KnownPrograms {
    /// The generic system-level program that owns uninitialized accounts.
    pub system_program: Vec<u8>,
    /// The base-layer program that owns the market while it is not delegated.
    pub base_layer_program: Vec<u8>,
    /// The recognized token program.
    pub token_program: Vec<u8>,
    /// The extended recognized token program.
    pub token_2022_program: Vec<u8>,
}

/// The fully-typed, validated context for the delegate operation, one typed
/// view per position of its eighteen-entry account list.
pub struct DelegateMarketContext {
    pub payer: TypedAccountView,
    pub system_program: TypedAccountView,
    pub market: TypedAccountView,
    pub owner_program: TypedAccountView,
    pub base_vault: TypedAccountView,
    pub quote_vault: TypedAccountView,
    pub base_mint: TypedAccountView,
    pub quote_mint: TypedAccountView,
    pub market_delegation_buffer: TypedAccountView,
    pub market_delegation_record: TypedAccountView,
    pub market_delegation_metadata: TypedAccountView,
    pub base_vault_delegation_buffer: TypedAccountView,
    pub base_vault_delegation_record: TypedAccountView,
    pub base_vault_delegation_metadata: TypedAccountView,
    pub quote_vault_delegation_buffer: TypedAccountView,
    pub quote_vault_delegation_record: TypedAccountView,
    pub quote_vault_delegation_metadata: TypedAccountView,
    pub delegation_program: TypedAccountView,
}

/// The fully-typed, validated context for the commit operation.
pub struct CommitMarketContext {
    pub payer: TypedAccountView,
    pub market: TypedAccountView,
    pub base_vault: TypedAccountView,
    pub quote_vault: TypedAccountView,
    pub coordination_context: TypedAccountView,
    pub coordination_program: TypedAccountView,
}

/// The fully-typed, validated context for the undelegate operation.
pub struct UndelegateMarketContext {
    pub payer: TypedAccountView,
    pub market: TypedAccountView,
    pub base_vault: TypedAccountView,
    pub quote_vault: TypedAccountView,
    pub coordination_context: TypedAccountView,
    pub coordination_program: TypedAccountView,
}

/// The first check the delegate loader fails on, or `None` when the list
/// loads. Positions: payer, system program, market, owner program, base
/// vault, quote vault, base mint, quote mint, the market's three delegation
/// bookkeeping accounts, the base vault's three, the quote vault's three,
/// and the delegation program.
pub open spec fn delegate_load_error(s: Seq<AccountRecord>, cfg: KnownPrograms) -> Option<
    LifecycleError,
> {
    if s.len() != 18 {
        Some(LifecycleError::InvalidOrMismatchedAccountData)
    } else if !s[0].is_writable {
        Some(LifecycleError::NotWritable)
    } else if !s[0].is_signer {
        Some(LifecycleError::MissingSignature)
    } else if s[1].key@ != cfg.system_program@ {
        Some(LifecycleError::WrongProgramIdentity)
    } else if s[2].owner@ != cfg.base_layer_program@ {
        Some(LifecycleError::IllegalOwner)
    } else if s[3].key@ != cfg.base_layer_program@ {
        Some(LifecycleError::WrongProgramIdentity)
    } else {
        None
    }
}

/// The first check the commit and undelegate loaders fail on, or `None` when
/// the list loads. Positions: payer, market, base vault, quote vault,
/// coordination context, coordination program.
pub open spec fn snapshot_load_error(s: Seq<AccountRecord>) -> Option<LifecycleError> {
    if s.len() != 6 {
        Some(LifecycleError::InvalidOrMismatchedAccountData)
    } else if !s[0].is_signer {
        Some(LifecycleError::MissingSignature)
    } else {
        None
    }
}

/// Each typed view of a delegate context holds the record supplied at its
/// position.
pub open spec fn delegate_context_matches(ctx: DelegateMarketContext, s: Seq<AccountRecord>) -> bool {
    &&& record_matches(ctx.payer.record, s[0])
    &&& record_matches(ctx.system_program.record, s[1])
    &&& record_matches(ctx.market.record, s[2])
    &&& record_matches(ctx.owner_program.record, s[3])
    &&& record_matches(ctx.base_vault.record, s[4])
    &&& record_matches(ctx.quote_vault.record, s[5])
    &&& record_matches(ctx.base_mint.record, s[6])
    &&& record_matches(ctx.quote_mint.record, s[7])
    &&& record_matches(ctx.market_delegation_buffer.record, s[8])
    &&& record_matches(ctx.market_delegation_record.record, s[9])
    &&& record_matches(ctx.market_delegation_metadata.record, s[10])
    &&& record_matches(ctx.base_vault_delegation_buffer.record, s[11])
    &&& record_matches(ctx.base_vault_delegation_record.record, s[12])
    &&& record_matches(ctx.base_vault_delegation_metadata.record, s[13])
    &&& record_matches(ctx.quote_vault_delegation_buffer.record, s[14])
    &&& record_matches(ctx.quote_vault_delegation_record.record, s[15])
    &&& record_matches(ctx.quote_vault_delegation_metadata.record, s[16])
    &&& record_matches(ctx.delegation_program.record, s[17])
}

/// Each typed view of a commit context holds the record supplied at its
/// position.
pub open spec fn commit_context_matches(ctx: CommitMarketContext, s: Seq<AccountRecord>) -> bool {
    &&& record_matches(ctx.payer.record, s[0])
    &&& record_matches(ctx.market.record, s[1])
    &&& record_matches(ctx.base_vault.record, s[2])
    &&& record_matches(ctx.quote_vault.record, s[3])
    &&& record_matches(ctx.coordination_context.record, s[4])
    &&& record_matches(ctx.coordination_program.record, s[5])
}

/// Each typed view of an undelegate context holds the record supplied at its
/// position.
pub open spec fn undelegate_context_matches(
    ctx: UndelegateMarketContext,
    s: Seq<AccountRecord>,
) -> bool {
    &&& record_matches(ctx.payer.record, s[0])
    &&& record_matches(ctx.market.record, s[1])
    &&& record_matches(ctx.base_vault.record, s[2])
    &&& record_matches(ctx.quote_vault.record, s[3])
    &&& record_matches(ctx.coordination_context.record, s[4])
    &&& record_matches(ctx.coordination_program.record, s[5])
}

impl DelegateMarketContext {
    /// Load and type-check the eighteen accounts of a delegate invocation,
    /// strictly in order, failing on the first violated capability.
    pub fn load(accounts: &Vec<AccountRecord>, programs: &KnownPrograms) -> (r: Result<
        DelegateMarketContext,
        LifecycleError,
    >)
        ensures
            r is Ok <==> delegate_load_error(accounts@, *programs) is None,
            r is Err ==> r->Err_0 == delegate_load_error(accounts@, *programs)->0,
            r is Ok ==> delegate_context_matches(r->Ok_0, accounts@),
    {
        if accounts.len() != 18 {
            return Err(LifecycleError::InvalidOrMismatchedAccountData);
        }
        let payer = match validate_account(&accounts[0], &RequiredCapabilities::writable_payer()) {
            Ok(v) => v,
            Err(e) => return Err(e),
        };
        let system_program_caps = RequiredCapabilities::pinned_program(
            copy_bytes(&programs.system_program),
        );
        let system_program = match validate_account(&accounts[1], &system_program_caps) {
            Ok(v) => v,
            Err(e) => return Err(e),
        };
        let market_caps = RequiredCapabilities::owned_by(copy_bytes(&programs.base_layer_program));
        let market = match validate_account(&accounts[2], &market_caps) {
            Ok(v) => v,
            Err(e) => return Err(e),
        };
        let owner_program_caps = RequiredCapabilities::pinned_program(
            copy_bytes(&programs.base_layer_program),
        );
        let owner_program = match validate_account(&accounts[3], &owner_program_caps) {
            Ok(v) => v,
            Err(e) => return Err(e),
        };
        let pass = RequiredCapabilities::unchecked();
        let base_vault = match validate_account(&accounts[4], &pass) {
            Ok(v) => v,
            Err(e) => return Err(e),
        };
        let quote_vault = match validate_account(&accounts[5], &pass) {
            Ok(v) => v,
            Err(e) => return Err(e),
        };
        let base_mint = match validate_account(&accounts[6], &pass) {
            Ok(v) => v,
            Err(e) => return Err(e),
        };
        let quote_mint = match validate_account(&accounts[7], &pass) {
            Ok(v) => v,
            Err(e) => return Err(e),
        };
        let market_delegation_buffer = match validate_account(&accounts[8], &pass) {
            Ok(v) => v,
            Err(e) => return Err(e),
        };
        let market_delegation_record = match validate_account(&accounts[9], &pass) {
            Ok(v) => v,
            Err(e) => return Err(e),
        };
        let market_delegation_metadata = match validate_account(&accounts[10], &pass) {
            Ok(v) => v,
            Err(e) => return Err(e),
        };
        let base_vault_delegation_buffer = match validate_account(&accounts[11], &pass) {
            Ok(v) => v,
            Err(e) => return Err(e),
        };
        let base_vault_delegation_record = match validate_account(&accounts[12], &pass) {
            Ok(v) => v,
            Err(e) => return Err(e),
        };
        let base_vault_delegation_metadata = match validate_account(&accounts[13], &pass) {
            Ok(v) => v,
            Err(e) => return Err(e),
        };
        let quote_vault_delegation_buffer = match validate_account(&accounts[14], &pass) {
            Ok(v) => v,
            Err(e) => return Err(e),
        };
        let quote_vault_delegation_record = match validate_account(&accounts[15], &pass) {
            Ok(v) => v,
            Err(e) => return Err(e),
        };
        let quote_vault_delegation_metadata = match validate_account(&accounts[16], &pass) {
            Ok(v) => v,
            Err(e) => return Err(e),
        };
        let delegation_program = match validate_account(&accounts[17], &pass) {
            Ok(v) => v,
            Err(e) => return Err(e),
        };
        Ok(
            DelegateMarketContext {
                payer,
                system_program,
                market,
                owner_program,
                base_vault,
                quote_vault,
                base_mint,
                quote_mint,
                market_delegation_buffer,
                market_delegation_record,
                market_delegation_metadata,
                base_vault_delegation_buffer,
                base_vault_delegation_record,
                base_vault_delegation_metadata,
                quote_vault_delegation_buffer,
                quote_vault_delegation_record,
                quote_vault_delegation_metadata,
                delegation_program,
            },
        )
    }
}

impl CommitMarketContext {
    /// Load and type-check the six accounts of a commit invocation.
    pub fn load(accounts: &Vec<AccountRecord>) -> (r: Result<
        CommitMarketContext,
        LifecycleError,
    >)
        ensures
            r is Ok <==> snapshot_load_error(accounts@) is None,
            r is Err ==> r->Err_0 == snapshot_load_error(accounts@)->0,
            r is Ok ==> commit_context_matches(r->Ok_0, accounts@),
    {
        if accounts.len() != 6 {
            return Err(LifecycleError::InvalidOrMismatchedAccountData);
        }
        let payer = match validate_account(&accounts[0], &RequiredCapabilities::signer()) {
            Ok(v) => v,
            Err(e) => return Err(e),
        };
        let pass = RequiredCapabilities::unchecked();
        let market = match validate_account(&accounts[1], &pass) {
            Ok(v) => v,
            Err(e) => return Err(e),
        };
        let base_vault = match validate_account(&accounts[2], &pass) {
            Ok(v) => v,
            Err(e) => return Err(e),
        };
        let quote_vault = match validate_account(&accounts[3], &pass) {
            Ok(v) => v,
            Err(e) => return Err(e),
        };
        let coordination_context = match validate_account(&accounts[4], &pass) {
            Ok(v) => v,
            Err(e) => return Err(e),
        };
        let coordination_program = match validate_account(&accounts[5], &pass) {
            Ok(v) => v,
            Err(e) => return Err(e),
        };
        Ok(
            CommitMarketContext {
                payer,
                market,
                base_vault,
                quote_vault,
                coordination_context,
                coordination_program,
            },
        )
    }
}

impl UndelegateMarketContext {
    /// Load and type-check the six accounts of an undelegate invocation.
    pub fn load(accounts: &Vec<AccountRecord>) -> (r: Result<
        UndelegateMarketContext,
        LifecycleError,
    >)
        ensures
            r is Ok <==> snapshot_load_error(accounts@) is None,
            r is Err ==> r->Err_0 == snapshot_load_error(accounts@)->0,
            r is Ok ==> undelegate_context_matches(r->Ok_0, accounts@),
    {
        if accounts.len() != 6 {
            return Err(LifecycleError::InvalidOrMismatchedAccountData);
        }
        let payer = match validate_account(&accounts[0], &RequiredCapabilities::signer()) {
            Ok(v) => v,
            Err(e) => return Err(e),
        };
        let pass = RequiredCapabilities::unchecked();
        let market = match validate_account(&accounts[1], &pass) {
            Ok(v) => v,
            Err(e) => return Err(e),
        };
        let base_vault = match validate_account(&accounts[2], &pass) {
            Ok(v) => v,
            Err(e) => return Err(e),
        };
        let quote_vault = match validate_account(&accounts[3], &pass) {
            Ok(v) => v,
            Err(e) => return Err(e),
        };
        let coordination_context = match validate_account(&accounts[4], &pass) {
            Ok(v) => v,
            Err(e) => return Err(e),
        };
        let coordination_program = match validate_account(&accounts[5], &pass) {
            Ok(v) => v,
            Err(e) => return Err(e),
        };
        Ok(
            UndelegateMarketContext {
                payer,
                market,
                base_vault,
                quote_vault,
                coordination_context,
                coordination_program,
            },
        )
    }
}

} // verus!
