//! The vault protocol: a single-owner custody account with `initialize`,
//! `deposit`, `withdraw` and `close`. The owner is not stored in the record:
//! the record's own address is derived from the owner's identity, so only the
//! identity used at `initialize` can ever re-derive a matching record address.

use vstd::prelude::*;
use crate::derivation::{
    create_address, create_address_of, find_address, find_address_of, lemma_find_address_of_creates,
    state_seed, state_seed_bytes, vault_seed, vault_seed_bytes, with_bump, Address,
};
use crate::ledger::{transfer, Account, Authorization};

verus! {

/// Why a vault operation was rejected.
#[derive(Clone, Copy, Debug, PartialEq, Eq, Structural)]
pub enum VaultError {
    InvalidAmount,
    VaultEmpty,
    InsufficientFunds,
    AddressMismatch,
}

/// The persisted vault record: only the two bump nonces that complete the
/// derivations of the record address and the funds address. Both are set at
/// creation and never updated.
#[derive(Clone, Copy, Debug, PartialEq, Eq, Structural)]
pub struct VaultState {
    pub vault_bump: u8,
    pub state_bump: u8,
}

/// The vault record together with the ledger account that stores it: its
/// derived address and the storage deposit that keeps it alive.
#[derive(Clone, Copy, Debug)]
pub struct VaultStateAccount {
    pub address: Address,
    pub lamports: u64,
    pub state: VaultState,
}

/// Accounts for `initialize`: the signing owner-to-be.
#[derive(Clone, Copy, Debug)]
pub struct Initialize {
    pub user: Account,
}

/// Accounts for `deposit`: the signing caller, the funds address and the
/// vault record.
#[derive(Clone, Copy, Debug)]
pub struct Deposit {
    pub user: Account,
    pub vault: Account,
    pub vault_state: VaultStateAccount,
}

/// Accounts for `withdraw`: the signing owner, the funds address and the
/// vault record.
#[derive(Clone, Copy, Debug)]
pub struct Withdraw {
    pub user: Account,
    pub vault: Account,
    pub vault_state: VaultStateAccount,
}

/// Accounts for `close`: the signing owner, the funds address and the vault
/// record.
#[derive(Clone, Copy, Debug)]
pub struct Close {
    pub user: Account,
    pub vault: Account,
    pub vault_state: VaultStateAccount,
}

/// Seeds of a vault record address: the state literal and the owner identity.
pub open spec fn vault_state_seeds(owner: Seq<u8>) -> Seq<Seq<u8>> {
    seq![state_seed(), owner]
}

/// Seeds of a vault funds address: the vault literal and the record's own
/// address, binding the funds to one record instance rather than to the owner.
pub open spec fn vault_funds_seeds(record: Seq<u8>) -> Seq<Seq<u8>> {
    seq![vault_seed(), record]
}

/// The supplied funds account re-derives from the record address and the
/// stored funds bump. This is all `deposit` validates: depositing carries no
/// ownership check, so the caller's identity plays no part in it.
pub open spec fn vault_funds_match(
    vault: Account,
    state: VaultStateAccount,
    program_id: Seq<u8>,
) -> bool {
    create_address_of(
        with_bump(vault_funds_seeds(state.address@), state.state.vault_bump),
        program_id,
    ) == Some(vault.address@)
}

/// The supplied accounts re-derive: the record address from the caller's
/// identity and the stored record bump, and the funds address from the record
/// address and the stored funds bump. Checked before any domain logic runs.
pub open spec fn vault_accounts_match(
    user: Account,
    vault: Account,
    state: VaultStateAccount,
    program_id: Seq<u8>,
) -> bool {
    &&& create_address_of(
        with_bump(vault_state_seeds(user.address@), state.state.state_bump),
        program_id,
    ) == Some(state.address@)
    &&& vault_funds_match(vault, state, program_id)
}

/// Both downward bump searches for a fresh vault owned by `owner`: the record
/// derivation, then the funds derivation seeded with the record address.
pub open spec fn vault_derivation(owner: Seq<u8>, program_id: Seq<u8>) -> Option<
    ((Seq<u8>, u8), (Seq<u8>, u8)),
> {
    match find_address_of(vault_state_seeds(owner), program_id, 255) {
        Some(sp) => match find_address_of(vault_funds_seeds(sp.0), program_id, 255) {
            Some(vp) => Some((sp, vp)),
            None => None,
        },
        None => None,
    }
}

fn vault_state_seed_vec(owner: &Address) -> (r: Vec<Vec<u8>>)
    ensures
        r.deep_view() == vault_state_seeds(owner@),
{
    let mut v: Vec<Vec<u8>> = Vec::new();
    v.push(state_seed_bytes());
    v.push(owner.to_seed());
    proof {
        assert(v.deep_view() =~~= vault_state_seeds(owner@));
    }
    v
}

fn vault_funds_seed_vec(record: &Address) -> (r: Vec<Vec<u8>>)
    ensures
        r.deep_view() == vault_funds_seeds(record@),
{
    let mut v: Vec<Vec<u8>> = Vec::new();
    v.push(vault_seed_bytes());
    v.push(record.to_seed());
    proof {
        assert(v.deep_view() =~~= vault_funds_seeds(record@));
    }
    v
}

fn check_vault_funds(vault: &Account, state: &VaultStateAccount, program_id: &Address) -> (r:
    bool)
    ensures
        r == vault_funds_match(*vault, *state, program_id@),
{
    let vseeds = vault_funds_seed_vec(&state.address);
    match create_address(&vseeds, state.state.vault_bump, program_id) {
        Some(a) => a.eq_addr(&vault.address),
        None => false,
    }
}

fn check_vault_accounts(
    user: &Account,
    vault: &Account,
    state: &VaultStateAccount,
    program_id: &Address,
) -> (r: bool)
    ensures
        r == vault_accounts_match(*user, *vault, *state, program_id@),
{
    let sseeds = vault_state_seed_vec(&user.address);
    let ok = match create_address(&sseeds, state.state.state_bump, program_id) {
        Some(a) => a.eq_addr(&state.address),
        None => false,
    };
    if !ok {
        return false;
    }
    check_vault_funds(vault, state, program_id)
}

/// The outcome of `deposit`: the caller's and the funds account after the
/// call, and the result. Deposits are not owner-gated: any solvent caller who
/// can name the vault's accounts may pay in.
pub open spec fn deposit_spec(
    user: Account,
    vault: Account,
    state: VaultStateAccount,
    amount: u64,
    program_id: Seq<u8>,
) -> (Account, Account, Result<(), VaultError>) {
    if !vault_funds_match(vault, state, program_id) {
        (user, vault, Err(VaultError::AddressMismatch))
    } else if amount == 0 {
        (user, vault, Err(VaultError::InvalidAmount))
    } else if user.lamports < amount {
        (user, vault, Err(VaultError::InsufficientFunds))
    } else {
        (
            Account { lamports: (user.lamports - amount) as u64, ..user },
            Account { lamports: (vault.lamports + amount) as u64, ..vault },
            Ok(()),
        )
    }
}

/// The outcome of `withdraw`.
pub open spec fn withdraw_spec(
    user: Account,
    vault: Account,
    state: VaultStateAccount,
    amount: u64,
    program_id: Seq<u8>,
) -> (Account, Account, Result<(), VaultError>) {
    if !vault_accounts_match(user, vault, state, program_id) {
        (user, vault, Err(VaultError::AddressMismatch))
    } else if amount == 0 {
        (user, vault, Err(VaultError::InvalidAmount))
    } else if vault.lamports < amount {
        (user, vault, Err(VaultError::InsufficientFunds))
    } else {
        (
            Account { lamports: (user.lamports + amount) as u64, ..user },
            Account { lamports: (vault.lamports - amount) as u64, ..vault },
            Ok(()),
        )
    }
}

/// The outcome of `close`: on success the whole funds balance and the
/// record's storage deposit go to the caller and the record is destroyed; on
/// failure the untouched accounts, the record among them, are handed back.
pub open spec fn close_spec(ctx: Close, program_id: Seq<u8>) -> Result<
    (Account, Account),
    (Close, VaultError),
> {
    if !vault_accounts_match(ctx.user, ctx.vault, ctx.vault_state, program_id) {
        Err((ctx, VaultError::AddressMismatch))
    } else if ctx.vault.lamports == 0 {
        Err((ctx, VaultError::VaultEmpty))
    } else {
        Ok(
            (
                Account {
                    lamports: (ctx.user.lamports + ctx.vault.lamports
                        + ctx.vault_state.lamports) as u64,
                    ..ctx.user
                },
                Account { lamports: 0u64, ..ctx.vault },
            ),
        )
    }
}

/// Create a vault for the signing caller: derive the record and funds
/// addresses with fresh bumps, charge the caller the record's storage deposit
/// `record_rent`, and fund the funds address with `rent_exempt` so its own
/// storage stays alive. Returns the created record and funds accounts.
pub fn initialize(
    ctx: &mut Initialize,
    rent_exempt: u64,
    record_rent: u64,
    program_id: &Address,
) -> (r: Result<(VaultStateAccount, Account), VaultError>)
    requires
        rent_exempt + record_rent <= u64::MAX,
    ensures
        final(ctx).user.address == old(ctx).user.address,
        r is Ok <==> (vault_derivation(old(ctx).user.address@, program_id@) is Some && old(
            ctx,
        ).user.lamports >= rent_exempt + record_rent),
        (match r {
            Ok(p) => {
                &&& vault_derivation(old(ctx).user.address@, program_id@) == Some(
                    ((p.0.address@, p.0.state.state_bump), (p.1.address@, p.0.state.vault_bump)),
                )
                &&& p.0.lamports == record_rent
                &&& p.1.lamports == rent_exempt
                &&& final(ctx).user.lamports == old(ctx).user.lamports - rent_exempt - record_rent
                &&& vault_accounts_match(final(ctx).user, p.1, p.0, program_id@)
            },
            Err(e) => {
                &&& *final(ctx) == *old(ctx)
                &&& (e == VaultError::AddressMismatch <==> vault_derivation(
                    old(ctx).user.address@,
                    program_id@,
                ) is None)
                &&& (e == VaultError::InsufficientFunds <==> (vault_derivation(
                    old(ctx).user.address@,
                    program_id@,
                ) is Some && old(ctx).user.lamports < rent_exempt + record_rent))
            },
        }),
{
    let sseeds = vault_state_seed_vec(&ctx.user.address);
    let sres = find_address(&sseeds, program_id);
    let (state_addr, state_bump) = match sres {
        Some(p) => p,
        None => {
            return Err(VaultError::AddressMismatch);
        },
    };
    proof {
        lemma_find_address_of_creates(vault_state_seeds(old(ctx).user.address@), program_id@, 255);
    }
    let vseeds = vault_funds_seed_vec(&state_addr);
    let vres = find_address(&vseeds, program_id);
    let (vault_addr, vault_bump) = match vres {
        Some(p) => p,
        None => {
            return Err(VaultError::AddressMismatch);
        },
    };
    proof {
        lemma_find_address_of_creates(vault_funds_seeds(state_addr@), program_id@, 255);
    }
    let total = rent_exempt + record_rent;
    if ctx.user.lamports < total {
        return Err(VaultError::InsufficientFunds);
    }
    // the host charges the record's storage deposit to its creator
    let mut user = ctx.user;
    user.lamports = user.lamports - record_rent;
    let state_acct = VaultStateAccount {
        address: state_addr,
        lamports: record_rent,
        state: VaultState { vault_bump, state_bump },
    };
    let mut vault = Account { address: vault_addr, lamports: 0 };
    let res = transfer(&mut user, &mut vault, rent_exempt, &Authorization::Signer, program_id);
    ctx.user = user;
    match res {
        Ok(_) => Ok((state_acct, vault)),
        Err(_) => Err(VaultError::InsufficientFunds),
    }
}

/// Move `amount` from the signing caller into the funds address. Depositing
/// carries no ownership check — any caller who can name the vault's accounts
/// may pay in; only withdrawal and close are owner-gated. Only the funds
/// address is re-derived and checked here, since the record's derivation is
/// bound to the owner, not to the depositor.
pub fn deposit(ctx: &mut Deposit, amount: u64, program_id: &Address) -> (r: Result<
    (),
    VaultError,
>)
    requires
        old(ctx).vault.lamports + amount <= u64::MAX,
    ensures
        final(ctx).vault_state == old(ctx).vault_state,
        (final(ctx).user, final(ctx).vault, r) == deposit_spec(
            old(ctx).user,
            old(ctx).vault,
            old(ctx).vault_state,
            amount,
            program_id@,
        ),
{
    if !check_vault_funds(&ctx.vault, &ctx.vault_state, program_id) {
        return Err(VaultError::AddressMismatch);
    }
    if amount == 0 {
        return Err(VaultError::InvalidAmount);
    }
    let mut user = ctx.user;
    let mut vault = ctx.vault;
    let res = transfer(&mut user, &mut vault, amount, &Authorization::Signer, program_id);
    ctx.user = user;
    ctx.vault = vault;
    match res {
        Ok(_) => Ok(()),
        Err(_) => Err(VaultError::InsufficientFunds),
    }
}

/// Move `amount` from the funds address to the signing owner. The caller's
/// identity must re-derive the record address, and the transfer out of the
/// derived funds address is authorized by the seeds and stored bump, not by a
/// signature.
pub fn withdraw(ctx: &mut Withdraw, amount: u64, program_id: &Address) -> (r: Result<
    (),
    VaultError,
>)
    requires
        old(ctx).user.lamports + amount <= u64::MAX,
    ensures
        final(ctx).vault_state == old(ctx).vault_state,
        (final(ctx).user, final(ctx).vault, r) == withdraw_spec(
            old(ctx).user,
            old(ctx).vault,
            old(ctx).vault_state,
            amount,
            program_id@,
        ),
{
    if !check_vault_accounts(&ctx.user, &ctx.vault, &ctx.vault_state, program_id) {
        return Err(VaultError::AddressMismatch);
    }
    if amount == 0 {
        return Err(VaultError::InvalidAmount);
    }
    if ctx.vault.lamports < amount {
        return Err(VaultError::InsufficientFunds);
    }
    let seeds = vault_funds_seed_vec(&ctx.vault_state.address);
    let auth = Authorization::Derived { seeds, bump: ctx.vault_state.state.vault_bump };
    let mut user = ctx.user;
    let mut vault = ctx.vault;
    let res = transfer(&mut vault, &mut user, amount, &auth, program_id);
    ctx.user = user;
    ctx.vault = vault;
    match res {
        Ok(_) => Ok(()),
        Err(_) => Err(VaultError::InsufficientFunds),
    }
}

/// Drain the whole funds balance to the signing owner and destroy the record,
/// returning its storage deposit to the owner. On failure the record is not
/// destroyed: it comes back untouched beside the error.
pub fn close(ctx: Close, program_id: &Address) -> (r: Result<
    (Account, Account),
    (Close, VaultError),
>)
    requires
        ctx.user.lamports + ctx.vault.lamports + ctx.vault_state.lamports <= u64::MAX,
    ensures
        r == close_spec(ctx, program_id@),
{
    if !check_vault_accounts(&ctx.user, &ctx.vault, &ctx.vault_state, program_id) {
        return Err((ctx, VaultError::AddressMismatch));
    }
    let balance = ctx.vault.lamports;
    if balance == 0 {
        return Err((ctx, VaultError::VaultEmpty));
    }
    let seeds = vault_funds_seed_vec(&ctx.vault_state.address);
    let auth = Authorization::Derived { seeds, bump: ctx.vault_state.state.vault_bump };
    let mut user = ctx.user;
    let mut vault = ctx.vault;
    let res = transfer(&mut vault, &mut user, balance, &auth, program_id);
    match res {
        Ok(_) => {
            // the record is destroyed; its storage deposit goes back to the caller
            user.lamports = user.lamports + ctx.vault_state.lamports;
            Ok((user, vault))
        },
        Err(_) => Err((ctx, VaultError::VaultEmpty)),
    }
}

/// Law: a zero deposit is rejected with `InvalidAmount` and no balance
/// changes.
pub proof fn lemma_deposit_zero_amount(
    user: Account,
    vault: Account,
    state: VaultStateAccount,
    program_id: Seq<u8>,
)
    ensures
        vault_funds_match(vault, state, program_id) ==> deposit_spec(
            user,
            vault,
            state,
            0,
            program_id,
        ) == (user, vault, Err::<(), VaultError>(VaultError::InvalidAmount)),
{
}

/// Law: depositing is open to every identity — the outcome of `deposit` does
/// not depend on the caller's address, only on the caller's balance.
pub proof fn lemma_deposit_not_owner_gated(
    user_a: Account,
    user_b: Account,
    vault: Account,
    state: VaultStateAccount,
    amount: u64,
    program_id: Seq<u8>,
)
    requires
        user_a.lamports == user_b.lamports,
    ensures
        deposit_spec(user_a, vault, state, amount, program_id).1 == deposit_spec(
            user_b,
            vault,
            state,
            amount,
            program_id,
        ).1,
        deposit_spec(user_a, vault, state, amount, program_id).2 == deposit_spec(
            user_b,
            vault,
            state,
            amount,
            program_id,
        ).2,
{
}

/// Law: a zero withdrawal is rejected with `InvalidAmount` and no balance
/// changes.
pub proof fn lemma_withdraw_zero_amount(
    user: Account,
    vault: Account,
    state: VaultStateAccount,
    program_id: Seq<u8>,
)
    ensures
        vault_accounts_match(user, vault, state, program_id) ==> withdraw_spec(
            user,
            vault,
            state,
            0,
            program_id,
        ) == (user, vault, Err::<(), VaultError>(VaultError::InvalidAmount)),
{
}

/// Law: a withdrawal beyond the current funds balance fails with
/// `InsufficientFunds` and no balance changes.
pub proof fn lemma_withdraw_insufficient(
    user: Account,
    vault: Account,
    state: VaultStateAccount,
    amount: u64,
    program_id: Seq<u8>,
)
    ensures
        vault_accounts_match(user, vault, state, program_id) && amount > vault.lamports
            ==> withdraw_spec(user, vault, state, amount, program_id) == (
            user,
            vault,
            Err::<(), VaultError>(VaultError::InsufficientFunds),
        ),
{
}

/// Law: a withdrawal can succeed only when the caller's identity re-derives
/// the supplied record address — the derivation match is the owner gate.
pub proof fn lemma_withdraw_owner_gate(
    user: Account,
    vault: Account,
    state: VaultStateAccount,
    amount: u64,
    program_id: Seq<u8>,
)
    ensures
        withdraw_spec(user, vault, state, amount, program_id).2 is Ok ==> create_address_of(
            with_bump(vault_state_seeds(user.address@), state.state.state_bump),
            program_id,
        ) == Some(state.address@),
{
}

/// Law: a close can succeed only when the caller's identity re-derives the
/// supplied record address.
pub proof fn lemma_close_owner_gate(ctx: Close, program_id: Seq<u8>)
    ensures
        close_spec(ctx, program_id) is Ok ==> create_address_of(
            with_bump(vault_state_seeds(ctx.user.address@), ctx.vault_state.state.state_bump),
            program_id,
        ) == Some(ctx.vault_state.address@),
{
}

/// Law: depositing and then withdrawing the same amount leaves both the
/// caller's and the funds balance exactly where they started.
pub proof fn lemma_deposit_withdraw_round_trip(
    user: Account,
    vault: Account,
    state: VaultStateAccount,
    amount: u64,
    program_id: Seq<u8>,
)
    requires
        amount > 0,
        user.lamports >= amount,
        vault.lamports + amount <= u64::MAX,
    ensures
        vault_accounts_match(user, vault, state, program_id) ==> ({
            let (user1, vault1, r1) = deposit_spec(user, vault, state, amount, program_id);
            let (user2, vault2, r2) = withdraw_spec(user1, vault1, state, amount, program_id);
            &&& r1 is Ok
            &&& r2 is Ok
            &&& user2 == user
            &&& vault2 == vault
        }),
{
}

} // verus!
