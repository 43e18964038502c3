use custody::derivation::Address;
use custody::escrow::{
    make, refund, take, EscrowError, EscrowStateAccount, Make, Refund, Take,
};
use custody::ledger::Account;

fn addr(b: u8) -> Address {
    Address { bytes: [b; 32] }
}

fn pid() -> Address {
    addr(9)
}

fn new_escrow(
    maker: Address,
    maker_lamports: u64,
    amount: u64,
    taker: Address,
    record_rent: u64,
) -> (Account, EscrowStateAccount, Account) {
    let mut ctx = Make { maker: Account { address: maker, lamports: maker_lamports } };
    let (state, vault) =
        make(&mut ctx, amount, &taker, record_rent, &pid()).expect("make must succeed");
    (ctx.maker, state, vault)
}

#[test]
fn make_stores_parties_and_funds_vault() {
    let (maker, state, vault) = new_escrow(addr(1), 10_000, 500, addr(2), 300);
    assert_eq!(vault.lamports, 500);
    assert_eq!(state.lamports, 300);
    assert_eq!(state.state.maker.bytes, addr(1).bytes);
    assert_eq!(state.state.taker.bytes, addr(2).bytes);
    assert_eq!(state.state.amount, 500);
    assert_eq!(maker.lamports, 10_000 - 500 - 300);
}

#[test]
fn make_zero_amount_fails() {
    let mut ctx = Make { maker: Account { address: addr(1), lamports: 10_000 } };
    assert!(matches!(
        make(&mut ctx, 0, &addr(2), 300, &pid()),
        Err(EscrowError::InvalidAmount)
    ));
    assert_eq!(ctx.maker.lamports, 10_000);
}

#[test]
fn make_beyond_maker_balance_fails() {
    let mut ctx = Make { maker: Account { address: addr(1), lamports: 100 } };
    assert!(matches!(
        make(&mut ctx, 500, &addr(2), 300, &pid()),
        Err(EscrowError::InsufficientFunds)
    ));
    assert_eq!(ctx.maker.lamports, 100);
}

#[test]
fn take_pays_full_balance_then_refund_finds_it_empty() {
    // the maker escrows 500 for the designated taker; the taker claims it,
    // and the maker's refund then fails: no double payout
    let (maker, state, vault) = new_escrow(addr(1), 10_000, 500, addr(2), 300);

    let mut tctx = Take {
        taker: Account { address: addr(2), lamports: 100 },
        escrow_vault: vault,
        escrow_state: state,
    };
    take(&mut tctx, &pid()).expect("the designated taker must be able to take");
    assert_eq!(tctx.taker.lamports, 600);
    assert_eq!(tctx.escrow_vault.lamports, 0);

    let mut rctx = Refund { maker, escrow_vault: tctx.escrow_vault, escrow_state: state };
    assert_eq!(refund(&mut rctx, &pid()), Err(EscrowError::EscrowEmpty));
    assert_eq!(rctx.maker.lamports, maker.lamports);
}

#[test]
fn refund_returns_full_balance_then_take_finds_it_empty() {
    let (maker, state, vault) = new_escrow(addr(1), 10_000, 500, addr(2), 300);

    let mut rctx = Refund { maker, escrow_vault: vault, escrow_state: state };
    refund(&mut rctx, &pid()).expect("the maker must be able to reclaim");
    assert_eq!(rctx.maker.lamports, maker.lamports + 500);
    assert_eq!(rctx.escrow_vault.lamports, 0);

    let mut tctx = Take {
        taker: Account { address: addr(2), lamports: 100 },
        escrow_vault: rctx.escrow_vault,
        escrow_state: state,
    };
    assert_eq!(take(&mut tctx, &pid()), Err(EscrowError::EscrowEmpty));
    assert_eq!(tctx.taker.lamports, 100);
}

#[test]
fn take_by_other_identity_fails() {
    let (_, state, vault) = new_escrow(addr(1), 10_000, 500, addr(2), 300);
    let intruder = Account { address: addr(3), lamports: 0 };
    let mut ctx = Take { taker: intruder, escrow_vault: vault, escrow_state: state };
    assert_eq!(take(&mut ctx, &pid()), Err(EscrowError::UnauthorizedTaker));
    assert_eq!(ctx.taker.lamports, 0);
    assert_eq!(ctx.escrow_vault.lamports, 500);
}

#[test]
fn take_by_maker_fails() {
    let (maker, state, vault) = new_escrow(addr(1), 10_000, 500, addr(2), 300);
    let mut ctx = Take { taker: maker, escrow_vault: vault, escrow_state: state };
    assert_eq!(take(&mut ctx, &pid()), Err(EscrowError::UnauthorizedTaker));
}

#[test]
fn refund_by_other_identity_fails() {
    let (_, state, vault) = new_escrow(addr(1), 10_000, 500, addr(2), 300);
    let intruder = Account { address: addr(3), lamports: 0 };
    let mut ctx = Refund { maker: intruder, escrow_vault: vault, escrow_state: state };
    assert_eq!(refund(&mut ctx, &pid()), Err(EscrowError::UnauthorizedRefund));
    assert_eq!(ctx.escrow_vault.lamports, 500);
}

#[test]
fn refund_by_taker_fails() {
    let (_, state, vault) = new_escrow(addr(1), 10_000, 500, addr(2), 300);
    let taker = Account { address: addr(2), lamports: 0 };
    let mut ctx = Refund { maker: taker, escrow_vault: vault, escrow_state: state };
    assert_eq!(refund(&mut ctx, &pid()), Err(EscrowError::UnauthorizedRefund));
}

#[test]
fn escrow_substituted_funds_account_fails() {
    let (_, state, _) = new_escrow(addr(1), 10_000, 500, addr(2), 300);
    // an unrelated account standing in for the derived funds address
    let fake_vault = Account { address: addr(8), lamports: 500 };
    let mut ctx = Take {
        taker: Account { address: addr(2), lamports: 0 },
        escrow_vault: fake_vault,
        escrow_state: state,
    };
    assert_eq!(take(&mut ctx, &pid()), Err(EscrowError::AddressMismatch));
}

#[test]
fn record_survives_settlement() {
    // the escrow record is never destroyed: settling leaves its account and
    // storage deposit in place, a known asymmetry with the vault's close
    let (_, state, vault) = new_escrow(addr(1), 10_000, 500, addr(2), 300);
    let mut tctx = Take {
        taker: Account { address: addr(2), lamports: 0 },
        escrow_vault: vault,
        escrow_state: state,
    };
    take(&mut tctx, &pid()).expect("the designated taker must be able to take");
    assert_eq!(tctx.escrow_state.lamports, 300);
    assert_eq!(tctx.escrow_state.address.bytes, state.address.bytes);
}
