//! The transfer primitive: atomic movement of native-currency units between
//! two ledger accounts. When the source is a program-derived address the
//! caller presents the seeds and bump as a capability proof in place of a
//! signature, and the primitive independently re-derives and compares.

use vstd::prelude::*;
use crate::derivation::{create_address, create_address_of, with_bump, Address};

verus! {

/// A ledger account: an address and the balance it holds.
#[derive(Clone, Copy, Debug)]
pub struct Account {
    pub address: Address,
    pub lamports: u64,
}

/// What entitles a caller to move funds out of the source account: either the
/// host runtime verified the source owner's signature on the current request,
/// or the source is a program-derived address and the caller presents the
/// seeds and bump that re-derive it.
pub enum Authorization {
    Signer,
    Derived { seeds: Vec<Vec<u8>>, bump: u8 },
}

/// Why a transfer was rejected.
#[derive(Clone, Copy, Debug, PartialEq, Eq, Structural)]
pub enum TransferError {
    InsufficientFunds,
    Unauthorized,
}

/// Whether `auth` proves control of the source address: a signature always
/// does (the host verified it before the call), and a derivation proof does
/// exactly when its seeds and bump re-derive the source address.
pub open spec fn authorized(auth: Authorization, source: Seq<u8>, program_id: Seq<u8>) -> bool {
    match auth {
        Authorization::Signer => true,
        Authorization::Derived { seeds, bump } => create_address_of(
            with_bump(seeds.deep_view(), bump),
            program_id,
        ) == Some(source),
    }
}

/// Move `amount` from `from` to `to`, all or nothing: the transfer succeeds
/// exactly when the authorization proves control of the source and the source
/// balance covers the amount, and on failure both balances are unchanged.
pub fn transfer(
    from: &mut Account,
    to: &mut Account,
    amount: u64,
    auth: &Authorization,
    program_id: &Address,
) -> (r: Result<(), TransferError>)
    requires
        old(to).lamports + amount <= u64::MAX,
    ensures
        final(from).address == old(from).address,
        final(to).address == old(to).address,
        r is Ok <==> (authorized(*auth, old(from).address@, program_id@) && old(from).lamports
            >= amount),
        r is Ok ==> final(from).lamports == old(from).lamports - amount && final(to).lamports
            == old(to).lamports + amount,
        r is Err ==> *final(from) == *old(from) && *final(to) == *old(to),
        r matches Err(e) ==> (e == TransferError::Unauthorized <==> !authorized(
            *auth,
            old(from).address@,
            program_id@,
        )),
{
    let auth_ok: bool = match auth {
        Authorization::Signer => true,
        Authorization::Derived { seeds, bump } => {
            match create_address(seeds, *bump, program_id) {
                Some(a) => a.eq_addr(&from.address),
                None => false,
            }
        },
    };
    if !auth_ok {
        return Err(TransferError::Unauthorized);
    }
    if from.lamports < amount {
        return Err(TransferError::InsufficientFunds);
    }
    from.lamports = from.lamports - amount;
    to.lamports = to.lamports + amount;
    Ok(())
}

} // verus!
