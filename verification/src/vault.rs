//! The vault's three state transitions and their laws.
//!
//! Each transition is a pure function from the accounts a request touches
//! (identities and balances, as plain values) to either the resulting
//! balances and records or a distinct error. The host ledger runtime is the
//! caller: it resolves and authenticates the accounts, hands their contents
//! in, and applies the returned balances atomically — or applies nothing
//! when a transition reports an error.

use vstd::prelude::*;
use crate::keys::Pubkey;

verus! {

/// Why a request was rejected. Every precondition violation maps to its own
/// variant, so a caller can tell a wrong signer from a short balance from a
/// repeated initialization.
#[derive(Clone, Copy, PartialEq, Eq, Structural, Debug)]
pub enum VaultError {
    /// `initialize` ran although the vault state record already exists.
    AlreadyInitialized,
    /// The withdrawal's co-signer is not the stored authority.
    Unauthorized,
    /// A balance is too small for the requested movement.
    InsufficientFunds,
}

/// The singleton persistent record of the vault: it stores nothing but the
/// identity of the one account allowed to withdraw. Created exactly once;
/// the authority is immutable thereafter.
pub struct VaultState {
    pub authority: Pubkey,
}

/// Mathematical model of a [`VaultState`]: the authority as a byte sequence.
#[verifier::ext_equal]
pub struct VaultStateV {
    pub authority: Seq<u8>,
}

impl View for VaultState {
    type V = VaultStateV;

    open spec fn view(&self) -> VaultStateV {
        VaultStateV { authority: self.authority@ }
    }
}

impl VaultState {
    /// A state record is well formed when its authority is a well-formed
    /// 32-byte identity.
    pub open spec fn wf(&self) -> bool {
        self.authority.wf()
    }
}

/// Emitted on every successful deposit, for external indexing only: the
/// program never reads it back.
pub struct DepositEvent {
    pub user: Pubkey,
    pub amount: u64,
    pub timestamp: i64,
}

/// Mathematical model of a [`DepositEvent`].
#[verifier::ext_equal]
pub struct DepositEventV {
    pub user: Seq<u8>,
    pub amount: u64,
    pub timestamp: i64,
}

impl View for DepositEvent {
    type V = DepositEventV;

    open spec fn view(&self) -> DepositEventV {
        DepositEventV { user: self.user@, amount: self.amount, timestamp: self.timestamp }
    }
}

/// The accounts an `initialize` request touches: the vault state record as
/// the runtime found it (`None` when it does not exist yet), and the caller
/// who co-signs and pays for the record's creation.
pub struct Initialize {
    pub existing: Option<VaultState>,
    pub authority: Pubkey,
    pub authority_balance: u64,
}

/// The accounts a `deposit` request touches: the depositor, who co-signs,
/// and the current balances of the depositor's account and of the vault.
pub struct Deposit {
    pub depositor: Pubkey,
    pub depositor_balance: u64,
    pub vault_balance: u64,
}

/// The accounts a `withdraw` request touches: the stored vault state, the
/// co-signer claiming to be the authority, the vault's balance, and the
/// recipient — any account at all — with its balance.
pub struct Withdraw {
    pub vault_state: VaultState,
    pub authority: Pubkey,
    pub vault_balance: u64,
    pub recipient: Pubkey,
    pub recipient_balance: u64,
}

/// The view of an optional state record.
pub open spec fn opt_state_view(o: Option<VaultState>) -> Option<VaultStateV> {
    match o {
        Some(s) => Some(s@),
        None => None,
    }
}

/// What `initialize` returns: on success, the newly created state record —
/// bound to the caller's identity — and the caller's balance after paying
/// the record-creation cost. Creation may succeed at most once: any
/// existing record is reported as `AlreadyInitialized` and left untouched.
pub open spec fn initialize_spec(
    existing: Option<VaultStateV>,
    authority: Seq<u8>,
    authority_balance: u64,
    creation_cost: u64,
) -> Result<(VaultStateV, u64), VaultError> {
    if existing is Some {
        Err(VaultError::AlreadyInitialized)
    } else if authority_balance < creation_cost {
        Err(VaultError::InsufficientFunds)
    } else {
        Ok((VaultStateV { authority }, (authority_balance - creation_cost) as u64))
    }
}

/// What `deposit` returns: on success, the depositor's and the vault's new
/// balances — exactly `amount` moved from the one to the other — and the
/// event to emit. A depositor whose balance is short of `amount` is
/// rejected with `InsufficientFunds`.
pub open spec fn deposit_spec(
    depositor: Seq<u8>,
    depositor_balance: u64,
    vault_balance: u64,
    amount: u64,
    now: i64,
) -> Result<(u64, u64, DepositEventV), VaultError> {
    if depositor_balance < amount {
        Err(VaultError::InsufficientFunds)
    } else {
        Ok((
            (depositor_balance - amount) as u64,
            (vault_balance + amount) as u64,
            DepositEventV { user: depositor, amount: amount, timestamp: now },
        ))
    }
}

/// What `withdraw` returns: on success, the vault's and the recipient's new
/// balances — exactly `amount` moved from the one to the other. A co-signer
/// other than the stored authority is rejected with `Unauthorized` before
/// anything else is looked at; a vault balance short of `amount` is
/// rejected with `InsufficientFunds`. An error moves nothing.
pub open spec fn withdraw_spec(
    stored_authority: Seq<u8>,
    cosigner: Seq<u8>,
    vault_balance: u64,
    recipient_balance: u64,
    amount: u64,
) -> Result<(u64, u64), VaultError> {
    if cosigner != stored_authority {
        Err(VaultError::Unauthorized)
    } else if vault_balance < amount {
        Err(VaultError::InsufficientFunds)
    } else {
        Ok(((vault_balance - amount) as u64, (recipient_balance + amount) as u64))
    }
}

/// Whether an executable `initialize` result realizes its model: same error,
/// or a well-formed state record and balance that match the model's.
pub open spec fn init_result_matches(
    r: Result<(VaultState, u64), VaultError>,
    s: Result<(VaultStateV, u64), VaultError>,
) -> bool {
    match (r, s) {
        (Ok(a), Ok(b)) => a.0.wf() && a.0@ == b.0 && a.1 == b.1,
        (Err(e1), Err(e2)) => e1 == e2,
        _ => false,
    }
}

/// Whether an executable `deposit` result realizes its model.
pub open spec fn deposit_result_matches(
    r: Result<(u64, u64, DepositEvent), VaultError>,
    s: Result<(u64, u64, DepositEventV), VaultError>,
) -> bool {
    match (r, s) {
        (Ok(a), Ok(b)) => a.0 == b.0 && a.1 == b.1 && a.2.user.wf() && a.2@ == b.2,
        (Err(e1), Err(e2)) => e1 == e2,
        _ => false,
    }
}

/// Creates the singleton vault state record, binding it to the caller.
///
/// Fails with `AlreadyInitialized` if the record already exists — the
/// stored authority is then left untouched — and with `InsufficientFunds`
/// if the caller cannot cover the record-creation cost.
pub fn initialize(ctx: &Initialize, creation_cost: u64) -> (r: Result<(VaultState, u64), VaultError>)
    requires
        ctx.authority.wf(),
    ensures
        init_result_matches(
            r,
            initialize_spec(
                opt_state_view(ctx.existing),
                ctx.authority@,
                ctx.authority_balance,
                creation_cost,
            ),
        ),
{
    match &ctx.existing {
        Some(_) => Err(VaultError::AlreadyInitialized),
        None => {
            if ctx.authority_balance < creation_cost {
                Err(VaultError::InsufficientFunds)
            } else {
                let state = VaultState { authority: ctx.authority.clone() };
                Ok((state, ctx.authority_balance - creation_cost))
            }
        },
    }
}

/// Moves `amount` units from the depositor's account into the vault.
///
/// Fails with `InsufficientFunds` when the depositor's balance is short of
/// `amount`; an error moves nothing. On success the returned event names
/// the depositor, the amount, and the ledger timestamp `now`.
pub fn deposit(ctx: Deposit, amount: u64, now: i64) -> (r: Result<(u64, u64, DepositEvent), VaultError>)
    requires
        ctx.depositor.wf(),
        ctx.depositor_balance >= amount ==> ctx.vault_balance + amount <= u64::MAX,
    ensures
        deposit_result_matches(
            r,
            deposit_spec(ctx.depositor@, ctx.depositor_balance, ctx.vault_balance, amount, now),
        ),
{
    if ctx.depositor_balance < amount {
        Err(VaultError::InsufficientFunds)
    } else {
        let event = DepositEvent { user: ctx.depositor, amount: amount, timestamp: now };
        Ok((ctx.depositor_balance - amount, ctx.vault_balance + amount, event))
    }
}

/// Moves `amount` units from the vault to the recipient, authorized solely
/// by the stored authority.
///
/// Fails with `Unauthorized` — before anything else is looked at — when the
/// co-signer is not the stored authority, and with `InsufficientFunds` when
/// the vault's balance is short of `amount`; an error moves nothing.
pub fn withdraw(ctx: &Withdraw, amount: u64) -> (r: Result<(u64, u64), VaultError>)
    requires
        (ctx.authority@ == ctx.vault_state.authority@ && amount <= ctx.vault_balance)
            ==> ctx.recipient_balance + amount <= u64::MAX,
    ensures
        r == withdraw_spec(
            ctx.vault_state.authority@,
            ctx.authority@,
            ctx.vault_balance,
            ctx.recipient_balance,
            amount,
        ),
{
    if !ctx.authority.eq_key(&ctx.vault_state.authority) {
        Err(VaultError::Unauthorized)
    } else if ctx.vault_balance < amount {
        Err(VaultError::InsufficientFunds)
    } else {
        Ok((ctx.vault_balance - amount, ctx.recipient_balance + amount))
    }
}

/// Conservation: a deposit that goes through moves exactly `amount` — the
/// vault gains what the depositor loses, their sum is unchanged — and the
/// emitted event records the depositor, the amount and the timestamp.
pub proof fn lemma_deposit_conserves(
    depositor: Seq<u8>,
    depositor_balance: u64,
    vault_balance: u64,
    amount: u64,
    now: i64,
)
    requires
        depositor_balance >= amount,
        vault_balance + amount <= u64::MAX,
    ensures
        deposit_spec(depositor, depositor_balance, vault_balance, amount, now) is Ok,
        ({
            let o = deposit_spec(depositor, depositor_balance, vault_balance, amount, now)->Ok_0;
            o.0 == depositor_balance - amount
                && o.1 == vault_balance + amount
                && o.0 + o.1 == depositor_balance + vault_balance
                && o.2 == (DepositEventV { user: depositor, amount: amount, timestamp: now })
        }),
{
}

/// A withdrawal whose co-signer differs from the stored authority fails
/// with `Unauthorized`, whatever the balances and the amount; no balance
/// changes.
pub proof fn lemma_withdraw_unauthorized(
    stored_authority: Seq<u8>,
    cosigner: Seq<u8>,
    vault_balance: u64,
    recipient_balance: u64,
    amount: u64,
)
    requires
        cosigner != stored_authority,
    ensures
        withdraw_spec(stored_authority, cosigner, vault_balance, recipient_balance, amount)
            == Err::<(u64, u64), VaultError>(VaultError::Unauthorized),
{
}

/// A withdrawal by the rightful authority of more than the vault holds
/// fails with `InsufficientFunds`; no balance changes. (A wrong co-signer
/// is turned away as `Unauthorized` before the balance is looked at.)
pub proof fn lemma_withdraw_insufficient(
    stored_authority: Seq<u8>,
    vault_balance: u64,
    recipient_balance: u64,
    amount: u64,
)
    requires
        amount > vault_balance,
    ensures
        withdraw_spec(stored_authority, stored_authority, vault_balance, recipient_balance, amount)
            == Err::<(u64, u64), VaultError>(VaultError::InsufficientFunds),
{
}

/// Initialization succeeds at most once: as soon as some state record
/// exists, every further `initialize` — whoever calls it, with whatever
/// balance — fails with `AlreadyInitialized`, and the existing record is
/// not touched.
pub proof fn lemma_initialize_only_once(
    existing: VaultStateV,
    caller: Seq<u8>,
    caller_balance: u64,
    creation_cost: u64,
)
    ensures
        initialize_spec(Some(existing), caller, caller_balance, creation_cost)
            == Err::<(VaultStateV, u64), VaultError>(VaultError::AlreadyInitialized),
{
}

/// Withdraw is a strict inverse of deposit on the vault's balance: a
/// deposit of `amount` followed by an authorized withdrawal of `amount`
/// returns the vault to its prior balance, and the recipient gains exactly
/// `amount`.
pub proof fn lemma_withdraw_inverts_deposit(
    stored_authority: Seq<u8>,
    depositor: Seq<u8>,
    depositor_balance: u64,
    vault_balance: u64,
    recipient_balance: u64,
    amount: u64,
    now: i64,
)
    requires
        depositor_balance >= amount,
        vault_balance + amount <= u64::MAX,
        recipient_balance + amount <= u64::MAX,
    ensures
        deposit_spec(depositor, depositor_balance, vault_balance, amount, now) is Ok,
        ({
            let vault_after = deposit_spec(depositor, depositor_balance, vault_balance, amount, now)->Ok_0.1;
            let w = withdraw_spec(stored_authority, stored_authority, vault_after, recipient_balance, amount);
            w is Ok && w->Ok_0.0 == vault_balance && w->Ok_0.1 == recipient_balance + amount
        }),
{
}

} // verus!
