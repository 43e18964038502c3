//! The escrow protocol: a maker deposits funds earmarked for one designated
//! taker, who may claim them, or the maker may reclaim them. Settlement is
//! guarded by draining the funds balance: the first of `take`/`refund` to run
//! empties it and the other then fails, with no explicit settled flag. The
//! record itself is never destroyed — unlike the vault's `close`, the escrow
//! keeps its record after settlement.

use vstd::prelude::*;
use crate::derivation::{
    create_address, create_address_of, escrow_seed, escrow_seed_bytes, escrow_vault_seed,
    escrow_vault_seed_bytes, find_address, find_address_of, lemma_find_address_of_creates,
    with_bump, Address,
};
use crate::ledger::{transfer, Account, Authorization};

verus! {

/// Why an escrow operation was rejected.
#[derive(Clone, Copy, Debug, PartialEq, Eq, Structural)]
pub enum EscrowError {
    InvalidAmount,
    UnauthorizedTaker,
    UnauthorizedRefund,
    EscrowEmpty,
    AddressMismatch,
    InsufficientFunds,
}

/// The persisted escrow record: the two parties, the amount deposited at
/// creation (informational — the funds balance is the authoritative figure),
/// and the two bump nonces completing the derivations. All set at creation
/// and never updated.
#[derive(Clone, Copy, Debug)]
pub struct EscrowState {
    pub maker: Address,
    pub taker: Address,
    pub amount: u64,
    pub vault_bump: u8,
    pub state_bump: u8,
}

/// The escrow record together with the ledger account that stores it.
#[derive(Clone, Copy, Debug)]
pub struct EscrowStateAccount {
    pub address: Address,
    pub lamports: u64,
    pub state: EscrowState,
}

/// Accounts for `make`: the signing maker.
#[derive(Clone, Copy, Debug)]
pub struct Make {
    pub maker: Account,
}

/// Accounts for `take`: the signing taker, the funds address and the escrow
/// record.
#[derive(Clone, Copy, Debug)]
pub struct Take {
    pub taker: Account,
    pub escrow_vault: Account,
    pub escrow_state: EscrowStateAccount,
}

/// Accounts for `refund`: the signing maker, the funds address and the escrow
/// record.
#[derive(Clone, Copy, Debug)]
pub struct Refund {
    pub maker: Account,
    pub escrow_vault: Account,
    pub escrow_state: EscrowStateAccount,
}

/// Seeds of an escrow record address: the escrow literal and the maker
/// identity.
pub open spec fn escrow_state_seeds(maker: Seq<u8>) -> Seq<Seq<u8>> {
    seq![escrow_seed(), maker]
}

/// Seeds of an escrow funds address: the escrow-vault literal and the
/// record's own address.
pub open spec fn escrow_funds_seeds(record: Seq<u8>) -> Seq<Seq<u8>> {
    seq![escrow_vault_seed(), record]
}

/// The supplied accounts re-derive: the record address from the stored maker
/// identity and record bump, and the funds address from the record address
/// and the stored funds bump. Checked before any domain logic runs.
pub open spec fn escrow_accounts_match(
    vault: Account,
    state: EscrowStateAccount,
    program_id: Seq<u8>,
) -> bool {
    &&& create_address_of(
        with_bump(escrow_state_seeds(state.state.maker@), state.state.state_bump),
        program_id,
    ) == Some(state.address@)
    &&& create_address_of(
        with_bump(escrow_funds_seeds(state.address@), state.state.vault_bump),
        program_id,
    ) == Some(vault.address@)
}

/// Both downward bump searches for a fresh escrow made by `maker`.
pub open spec fn escrow_derivation(maker: Seq<u8>, program_id: Seq<u8>) -> Option<
    ((Seq<u8>, u8), (Seq<u8>, u8)),
> {
    match find_address_of(escrow_state_seeds(maker), program_id, 255) {
        Some(sp) => match find_address_of(escrow_funds_seeds(sp.0), program_id, 255) {
            Some(vp) => Some((sp, vp)),
            None => None,
        },
        None => None,
    }
}

fn escrow_state_seed_vec(maker: &Address) -> (r: Vec<Vec<u8>>)
    ensures
        r.deep_view() == escrow_state_seeds(maker@),
{
    let mut v: Vec<Vec<u8>> = Vec::new();
    v.push(escrow_seed_bytes());
    v.push(maker.to_seed());
    proof {
        assert(v.deep_view() =~~= escrow_state_seeds(maker@));
    }
    v
}

fn escrow_funds_seed_vec(record: &Address) -> (r: Vec<Vec<u8>>)
    ensures
        r.deep_view() == escrow_funds_seeds(record@),
{
    let mut v: Vec<Vec<u8>> = Vec::new();
    v.push(escrow_vault_seed_bytes());
    v.push(record.to_seed());
    proof {
        assert(v.deep_view() =~~= escrow_funds_seeds(record@));
    }
    v
}

fn check_escrow_accounts(vault: &Account, state: &EscrowStateAccount, program_id: &Address) -> (r:
    bool)
    ensures
        r == escrow_accounts_match(*vault, *state, program_id@),
{
    let sseeds = escrow_state_seed_vec(&state.state.maker);
    let ok = match create_address(&sseeds, state.state.state_bump, program_id) {
        Some(a) => a.eq_addr(&state.address),
        None => false,
    };
    if !ok {
        return false;
    }
    let vseeds = escrow_funds_seed_vec(&state.address);
    match create_address(&vseeds, state.state.vault_bump, program_id) {
        Some(a) => a.eq_addr(&vault.address),
        None => false,
    }
}

/// The outcome of `take`: the caller's and the funds account after the call,
/// and the result. Only the designated taker may drain the balance.
pub open spec fn take_spec(
    caller: Account,
    vault: Account,
    state: EscrowStateAccount,
    program_id: Seq<u8>,
) -> (Account, Account, Result<(), EscrowError>) {
    if !escrow_accounts_match(vault, state, program_id) {
        (caller, vault, Err(EscrowError::AddressMismatch))
    } else if caller.address@ != state.state.taker@ {
        (caller, vault, Err(EscrowError::UnauthorizedTaker))
    } else if vault.lamports == 0 {
        (caller, vault, Err(EscrowError::EscrowEmpty))
    } else {
        (
            Account { lamports: (caller.lamports + vault.lamports) as u64, ..caller },
            Account { lamports: 0u64, ..vault },
            Ok(()),
        )
    }
}

/// The outcome of `refund`: only the maker may reclaim, and the whole balance
/// goes back.
pub open spec fn refund_spec(
    caller: Account,
    vault: Account,
    state: EscrowStateAccount,
    program_id: Seq<u8>,
) -> (Account, Account, Result<(), EscrowError>) {
    if !escrow_accounts_match(vault, state, program_id) {
        (caller, vault, Err(EscrowError::AddressMismatch))
    } else if caller.address@ != state.state.maker@ {
        (caller, vault, Err(EscrowError::UnauthorizedRefund))
    } else if vault.lamports == 0 {
        (caller, vault, Err(EscrowError::EscrowEmpty))
    } else {
        (
            Account { lamports: (caller.lamports + vault.lamports) as u64, ..caller },
            Account { lamports: 0u64, ..vault },
            Ok(()),
        )
    }
}

/// Create an escrow: derive the record and funds addresses with fresh bumps,
/// store maker, taker, amount and both bumps in the record, charge the maker
/// the record's storage deposit `record_rent`, and move `amount` from the
/// maker into the funds address.
pub fn make(
    ctx: &mut Make,
    amount: u64,
    taker: &Address,
    record_rent: u64,
    program_id: &Address,
) -> (r: Result<(EscrowStateAccount, Account), EscrowError>)
    requires
        amount + record_rent <= u64::MAX,
    ensures
        final(ctx).maker.address == old(ctx).maker.address,
        r is Ok <==> (escrow_derivation(old(ctx).maker.address@, program_id@) is Some && amount != 0
            && old(ctx).maker.lamports >= amount + record_rent),
        (match r {
            Ok(p) => {
                &&& escrow_derivation(old(ctx).maker.address@, program_id@) == Some(
                    ((p.0.address@, p.0.state.state_bump), (p.1.address@, p.0.state.vault_bump)),
                )
                &&& p.0.state.maker == old(ctx).maker.address
                &&& p.0.state.taker == *taker
                &&& p.0.state.amount == amount
                &&& p.0.lamports == record_rent
                &&& p.1.lamports == amount
                &&& final(ctx).maker.lamports == old(ctx).maker.lamports - amount - record_rent
                &&& escrow_accounts_match(p.1, p.0, program_id@)
            },
            Err(e) => {
                &&& *final(ctx) == *old(ctx)
                &&& (e == EscrowError::AddressMismatch <==> escrow_derivation(
                    old(ctx).maker.address@,
                    program_id@,
                ) is None)
                &&& (e == EscrowError::InvalidAmount <==> (escrow_derivation(
                    old(ctx).maker.address@,
                    program_id@,
                ) is Some && amount == 0))
                &&& (e == EscrowError::InsufficientFunds <==> (escrow_derivation(
                    old(ctx).maker.address@,
                    program_id@,
                ) is Some && amount != 0 && old(ctx).maker.lamports < amount + record_rent))
            },
        }),
{
    let sseeds = escrow_state_seed_vec(&ctx.maker.address);
    let sres = find_address(&sseeds, program_id);
    let (state_addr, state_bump) = match sres {
        Some(p) => p,
        None => {
            return Err(EscrowError::AddressMismatch);
        },
    };
    proof {
        lemma_find_address_of_creates(
            escrow_state_seeds(old(ctx).maker.address@),
            program_id@,
            255,
        );
    }
    let vseeds = escrow_funds_seed_vec(&state_addr);
    let vres = find_address(&vseeds, program_id);
    let (vault_addr, vault_bump) = match vres {
        Some(p) => p,
        None => {
            return Err(EscrowError::AddressMismatch);
        },
    };
    proof {
        lemma_find_address_of_creates(escrow_funds_seeds(state_addr@), program_id@, 255);
    }
    if amount == 0 {
        return Err(EscrowError::InvalidAmount);
    }
    let total = amount + record_rent;
    if ctx.maker.lamports < total {
        return Err(EscrowError::InsufficientFunds);
    }
    // the host charges the record's storage deposit to its creator
    let mut maker = ctx.maker;
    maker.lamports = maker.lamports - record_rent;
    let state_acct = EscrowStateAccount {
        address: state_addr,
        lamports: record_rent,
        state: EscrowState {
            maker: ctx.maker.address,
            taker: *taker,
            amount,
            vault_bump,
            state_bump,
        },
    };
    let mut vault = Account { address: vault_addr, lamports: 0 };
    let res = transfer(&mut maker, &mut vault, amount, &Authorization::Signer, program_id);
    ctx.maker = maker;
    match res {
        Ok(_) => Ok((state_acct, vault)),
        Err(_) => Err(EscrowError::InsufficientFunds),
    }
}

/// Drain the whole funds balance to the signing caller, who must be the
/// designated taker. The transfer out of the derived funds address is
/// authorized by the seeds and stored bump.
pub fn take(ctx: &mut Take, program_id: &Address) -> (r: Result<(), EscrowError>)
    requires
        old(ctx).taker.lamports + old(ctx).escrow_vault.lamports <= u64::MAX,
    ensures
        final(ctx).escrow_state == old(ctx).escrow_state,
        (final(ctx).taker, final(ctx).escrow_vault, r) == take_spec(
            old(ctx).taker,
            old(ctx).escrow_vault,
            old(ctx).escrow_state,
            program_id@,
        ),
{
    if !check_escrow_accounts(&ctx.escrow_vault, &ctx.escrow_state, program_id) {
        return Err(EscrowError::AddressMismatch);
    }
    if !ctx.taker.address.eq_addr(&ctx.escrow_state.state.taker) {
        return Err(EscrowError::UnauthorizedTaker);
    }
    let balance = ctx.escrow_vault.lamports;
    if balance == 0 {
        return Err(EscrowError::EscrowEmpty);
    }
    let seeds = escrow_funds_seed_vec(&ctx.escrow_state.address);
    let auth = Authorization::Derived { seeds, bump: ctx.escrow_state.state.vault_bump };
    let mut taker_acct = ctx.taker;
    let mut vault = ctx.escrow_vault;
    let res = transfer(&mut vault, &mut taker_acct, balance, &auth, program_id);
    ctx.taker = taker_acct;
    ctx.escrow_vault = vault;
    match res {
        Ok(_) => Ok(()),
        Err(_) => Err(EscrowError::EscrowEmpty),
    }
}

/// Drain the whole funds balance back to the signing caller, who must be the
/// maker.
pub fn refund(ctx: &mut Refund, program_id: &Address) -> (r: Result<(), EscrowError>)
    requires
        old(ctx).maker.lamports + old(ctx).escrow_vault.lamports <= u64::MAX,
    ensures
        final(ctx).escrow_state == old(ctx).escrow_state,
        (final(ctx).maker, final(ctx).escrow_vault, r) == refund_spec(
            old(ctx).maker,
            old(ctx).escrow_vault,
            old(ctx).escrow_state,
            program_id@,
        ),
{
    if !check_escrow_accounts(&ctx.escrow_vault, &ctx.escrow_state, program_id) {
        return Err(EscrowError::AddressMismatch);
    }
    if !ctx.maker.address.eq_addr(&ctx.escrow_state.state.maker) {
        return Err(EscrowError::UnauthorizedRefund);
    }
    let balance = ctx.escrow_vault.lamports;
    if balance == 0 {
        return Err(EscrowError::EscrowEmpty);
    }
    let seeds = escrow_funds_seed_vec(&ctx.escrow_state.address);
    let auth = Authorization::Derived { seeds, bump: ctx.escrow_state.state.vault_bump };
    let mut maker_acct = ctx.maker;
    let mut vault = ctx.escrow_vault;
    let res = transfer(&mut vault, &mut maker_acct, balance, &auth, program_id);
    ctx.maker = maker_acct;
    ctx.escrow_vault = vault;
    match res {
        Ok(_) => Ok(()),
        Err(_) => Err(EscrowError::EscrowEmpty),
    }
}

/// Law: `take` by any identity other than the designated taker fails with
/// `UnauthorizedTaker` and no balance changes.
pub proof fn lemma_take_unauthorized(
    caller: Account,
    vault: Account,
    state: EscrowStateAccount,
    program_id: Seq<u8>,
)
    ensures
        escrow_accounts_match(vault, state, program_id) && caller.address@ != state.state.taker@
            ==> take_spec(caller, vault, state, program_id) == (
            caller,
            vault,
            Err::<(), EscrowError>(EscrowError::UnauthorizedTaker),
        ),
{
}

/// Law: `refund` by any identity other than the maker fails with
/// `UnauthorizedRefund` and no balance changes.
pub proof fn lemma_refund_unauthorized(
    caller: Account,
    vault: Account,
    state: EscrowStateAccount,
    program_id: Seq<u8>,
)
    ensures
        escrow_accounts_match(vault, state, program_id) && caller.address@ != state.state.maker@
            ==> refund_spec(caller, vault, state, program_id) == (
            caller,
            vault,
            Err::<(), EscrowError>(EscrowError::UnauthorizedRefund),
        ),
{
}

/// Law: once `take` or `refund` has drained the balance to zero, a second
/// call to either — by the very parties entitled to them — fails with
/// `EscrowEmpty`: no double payout.
pub proof fn lemma_no_double_payout(
    first: Account,
    second: Account,
    vault: Account,
    state: EscrowStateAccount,
    program_id: Seq<u8>,
)
    ensures
        take_spec(first, vault, state, program_id).2 is Ok && second.address@
            == state.state.taker@ ==> take_spec(
            second,
            take_spec(first, vault, state, program_id).1,
            state,
            program_id,
        ).2 == Err::<(), EscrowError>(EscrowError::EscrowEmpty),
        take_spec(first, vault, state, program_id).2 is Ok && second.address@
            == state.state.maker@ ==> refund_spec(
            second,
            take_spec(first, vault, state, program_id).1,
            state,
            program_id,
        ).2 == Err::<(), EscrowError>(EscrowError::EscrowEmpty),
        refund_spec(first, vault, state, program_id).2 is Ok && second.address@
            == state.state.taker@ ==> take_spec(
            second,
            refund_spec(first, vault, state, program_id).1,
            state,
            program_id,
        ).2 == Err::<(), EscrowError>(EscrowError::EscrowEmpty),
        refund_spec(first, vault, state, program_id).2 is Ok && second.address@
            == state.state.maker@ ==> refund_spec(
            second,
            refund_spec(first, vault, state, program_id).1,
            state,
            program_id,
        ).2 == Err::<(), EscrowError>(EscrowError::EscrowEmpty),
{
}

} // verus!
