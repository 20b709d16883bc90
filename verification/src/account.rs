//! Capability-checked account views.
//!
//! A raw account record is attacker-controlled: any address, any owner, any
//! signer bit. Before an operation touches an account it validates the record
//! against the capability set its role requires; construction of the typed
//! view fails closed with a specific violation kind.

use vstd::prelude::*;

use crate::errors::LifecycleError;

verus! {

/// A raw on-ledger account record as supplied to one invocation: its address,
/// its current owner program, the two transaction flags, and how many bytes
/// of account data it holds.
#[derive(Debug, Clone)]
pub struct AccountRecord {
    pub key: Vec<u8>,
    pub owner: Vec<u8>,
    pub is_signer: bool,
    pub is_writable: bool,
    pub data_len: u64,
}

/// Field-wise agreement of two account records.
pub open spec fn record_matches(a: AccountRecord, b: AccountRecord) -> bool {
    &&& a.key@ == b.key@
    &&& a.owner@ == b.owner@
    &&& a.is_signer == b.is_signer
    &&& a.is_writable == b.is_writable
    &&& a.data_len == b.data_len
}

/// The capability set a position in an account list demands. The checks are
/// independently composable; every demanded one must hold for a typed view to
/// be produced.
pub struct RequiredCapabilities {
    /// The transaction author must have signed for this account.
    pub require_signer: bool,
    /// The account must be writable (demanded together with `require_signer`
    /// for the fee/rent payer).
    pub require_writable: bool,
    /// The address must equal one of these expected program addresses;
    /// `None` defers trust to the caller's explicit approval of the account.
    pub expected_ids: Option<Vec<Vec<u8>>>,
    /// The record's current owner program must equal this address.
    pub expected_owner: Option<Vec<u8>>,
    /// The record must hold no data (used before an account first becomes a
    /// derived account of known type).
    pub require_uninitialized: bool,
}

/// Whether the record's address passes the pinned-address check.
pub open spec fn address_accepted(r: AccountRecord, c: RequiredCapabilities) -> bool {
    match c.expected_ids {
        Option::None => true,
        Option::Some(ids) => exists|j: int| 0 <= j < ids@.len() && ids@[j]@ == r.key@,
    }
}

/// Whether the record's owner passes the expected-owner check.
pub open spec fn owner_accepted(r: AccountRecord, c: RequiredCapabilities) -> bool {
    match c.expected_owner {
        Option::None => true,
        Option::Some(o) => o@ == r.owner@,
    }
}

/// The first violated capability, in the fixed order the checks run, or
/// `None` when the record satisfies the whole set.
pub open spec fn capability_violation(r: AccountRecord, c: RequiredCapabilities) -> Option<
    LifecycleError,
> {
    if c.require_writable && !r.is_writable {
        Some(LifecycleError::NotWritable)
    } else if c.require_signer && !r.is_signer {
        Some(LifecycleError::MissingSignature)
    } else if !address_accepted(r, c) {
        Some(LifecycleError::WrongProgramIdentity)
    } else if c.require_uninitialized && r.data_len != 0 {
        Some(LifecycleError::InvalidOrMismatchedAccountData)
    } else if !owner_accepted(r, c) {
        Some(LifecycleError::IllegalOwner)
    } else {
        None
    }
}

/// An account record together with the statically-declared capabilities it
/// was verified against at construction time.
#[derive(Debug)]
pub struct TypedAccountView {
    pub record: AccountRecord,
}

/// Copy a byte string.
pub fn copy_bytes(v: &Vec<u8>) -> (r: Vec<u8>)
    ensures
        r@ == v@,
{
    let r = v.clone();
    proof {
        assert forall|i: int| 0 <= i < v@.len() implies r@[i] == v@[i] by {
            assert(cloned::<u8>(v@[i], r@[i]));
        }
        assert(r@ =~= v@);
    }
    r
}

/// Whether two byte strings hold the same bytes.
pub fn bytes_eq(a: &Vec<u8>, b: &Vec<u8>) -> (r: bool)
    ensures
        r == (a@ == b@),
{
    if a.len() != b.len() {
        return false;
    }
    let mut i: usize = 0;
    while i < a.len()
        invariant
            i <= a@.len(),
            a@.len() == b@.len(),
            forall|j: int| 0 <= j < i ==> a@[j] == b@[j],
        decreases a@.len() - i,
    {
        if a[i] != b[i] {
            return false;
        }
        i += 1;
    }
    proof {
        assert(a@ =~= b@);
    }
    true
}

/// Copy an account record field by field.
pub fn duplicate_record(r: &AccountRecord) -> (d: AccountRecord)
    ensures
        record_matches(d, *r),
{
    AccountRecord {
        key: copy_bytes(&r.key),
        owner: copy_bytes(&r.owner),
        is_signer: r.is_signer,
        is_writable: r.is_writable,
        data_len: r.data_len,
    }
}

/// Produce a typed view if and only if the record satisfies every demanded
/// capability; otherwise fail with the first violation, before any other
/// account is inspected.
pub fn validate_account(record: &AccountRecord, caps: &RequiredCapabilities) -> (r: Result<
    TypedAccountView,
    LifecycleError,
>)
    ensures
        r is Ok <==> capability_violation(*record, *caps) is None,
        r is Ok ==> record_matches(r->Ok_0.record, *record),
        r is Err ==> r->Err_0 == capability_violation(*record, *caps)->0,
{
    if caps.require_writable && !record.is_writable {
        return Err(LifecycleError::NotWritable);
    }
    if caps.require_signer && !record.is_signer {
        return Err(LifecycleError::MissingSignature);
    }
    match &caps.expected_ids {
        Option::Some(ids) => {
            let mut found = false;
            let mut i: usize = 0;
            while i < ids.len()
                invariant
                    i <= ids@.len(),
                    found == exists|j: int| 0 <= j < i && ids@[j]@ == record.key@,
                decreases ids@.len() - i,
            {
                if bytes_eq(&ids[i], &record.key) {
                    found = true;
                }
                i += 1;
            }
            if !found {
                return Err(LifecycleError::WrongProgramIdentity);
            }
        },
        Option::None => {},
    }
    if caps.require_uninitialized && record.data_len != 0 {
        return Err(LifecycleError::InvalidOrMismatchedAccountData);
    }
    match &caps.expected_owner {
        Option::Some(o) => {
            if !bytes_eq(o, &record.owner) {
                return Err(LifecycleError::IllegalOwner);
            }
        },
        Option::None => {},
    }
    Ok(TypedAccountView { record: duplicate_record(record) })
}

/// Typed view of a token-program account: its address must equal one of the
/// two recognized token program identities, injected by the caller.
pub fn validate_token_program(
    record: &AccountRecord,
    token_id: &Vec<u8>,
    token_2022_id: &Vec<u8>,
) -> (r: Result<TypedAccountView, LifecycleError>)
    ensures
        r is Ok <==> (record.key@ == token_id@ || record.key@ == token_2022_id@),
        r is Ok ==> record_matches(r->Ok_0.record, *record),
        r is Err ==> r->Err_0 == LifecycleError::WrongProgramIdentity,
{
    if bytes_eq(&record.key, token_id) || bytes_eq(&record.key, token_2022_id) {
        Ok(TypedAccountView { record: duplicate_record(record) })
    } else {
        Err(LifecycleError::WrongProgramIdentity)
    }
}

impl RequiredCapabilities {
    /// No capability demanded: trust is deferred to the explicit approval of
    /// using the account in the instruction itself.
    pub fn unchecked() -> (c: RequiredCapabilities)
        ensures
            !c.require_signer,
            !c.require_writable,
            c.expected_ids is None,
            c.expected_owner is None,
            !c.require_uninitialized,
    {
        RequiredCapabilities {
            require_signer: false,
            require_writable: false,
            expected_ids: None,
            expected_owner: None,
            require_uninitialized: false,
        }
    }

    /// The transaction author must have authorized this account.
    pub fn signer() -> (c: RequiredCapabilities)
        ensures
            c.require_signer,
            !c.require_writable,
            c.expected_ids is None,
            c.expected_owner is None,
            !c.require_uninitialized,
    {
        RequiredCapabilities { require_signer: true, ..Self::unchecked() }
    }

    /// Both a signer and writable: the fee/rent payer.
    pub fn writable_payer() -> (c: RequiredCapabilities)
        ensures
            c.require_signer,
            c.require_writable,
            c.expected_ids is None,
            c.expected_owner is None,
            !c.require_uninitialized,
    {
        RequiredCapabilities { require_signer: true, require_writable: true, ..Self::unchecked() }
    }

    /// The address must equal one expected program address exactly.
    pub fn pinned_program(id: Vec<u8>) -> (c: RequiredCapabilities)
        ensures
            !c.require_signer,
            !c.require_writable,
            c.expected_ids matches Some(ids) && ids@.len() == 1 && ids@[0]@ == id@,
            c.expected_owner is None,
            !c.require_uninitialized,
    {
        let mut ids: Vec<Vec<u8>> = Vec::new();
        ids.push(id);
        RequiredCapabilities { expected_ids: Some(ids), ..Self::unchecked() }
    }

    /// The record's current owner program must equal the given address.
    pub fn owned_by(owner: Vec<u8>) -> (c: RequiredCapabilities)
        ensures
            !c.require_signer,
            !c.require_writable,
            c.expected_ids is None,
            c.expected_owner matches Some(o) && o@ == owner@,
            !c.require_uninitialized,
    {
        RequiredCapabilities { expected_owner: Some(owner), ..Self::unchecked() }
    }

    /// The record must hold no data and be owned by the generic system-level
    /// program, whose address the caller injects.
    pub fn uninitialized_account(system_program_id: Vec<u8>) -> (c: RequiredCapabilities)
        ensures
            !c.require_signer,
            !c.require_writable,
            c.expected_ids is None,
            c.expected_owner matches Some(o) && o@ == system_program_id@,
            c.require_uninitialized,
    {
        RequiredCapabilities {
            expected_owner: Some(system_program_id),
            require_uninitialized: true,
            ..Self::unchecked()
        }
    }
}

} // verus!
