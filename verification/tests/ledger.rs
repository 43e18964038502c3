use custody::derivation::{find_address, Address};
use custody::ledger::{transfer, Account, Authorization, TransferError};

fn addr(b: u8) -> Address {
    Address { bytes: [b; 32] }
}

fn pid() -> Address {
    addr(9)
}

#[test]
fn signed_transfer_moves_the_amount() {
    let mut from = Account { address: addr(1), lamports: 100 };
    let mut to = Account { address: addr(2), lamports: 5 };
    transfer(&mut from, &mut to, 40, &Authorization::Signer, &pid())
        .expect("a signed, covered transfer must succeed");
    assert_eq!(from.lamports, 60);
    assert_eq!(to.lamports, 45);
}

#[test]
fn transfer_beyond_source_balance_changes_nothing() {
    let mut from = Account { address: addr(1), lamports: 10 };
    let mut to = Account { address: addr(2), lamports: 0 };
    assert_eq!(
        transfer(&mut from, &mut to, 11, &Authorization::Signer, &pid()),
        Err(TransferError::InsufficientFunds)
    );
    assert_eq!(from.lamports, 10);
    assert_eq!(to.lamports, 0);
}

#[test]
fn derivation_proof_with_wrong_bump_is_rejected() {
    // derive a real custody address, then present a bump other than the one
    // the search found: the primitive re-derives and fails closed
    let seeds: Vec<Vec<u8>> = vec![b"vault".to_vec(), addr(3).bytes.to_vec()];
    let (derived, bump) = find_address(&seeds, &pid()).expect("a bump must exist");
    let mut from = Account { address: derived, lamports: 100 };
    let mut to = Account { address: addr(2), lamports: 0 };
    let auth = Authorization::Derived { seeds: seeds.clone(), bump: bump.wrapping_sub(1) };
    assert_eq!(
        transfer(&mut from, &mut to, 10, &auth, &pid()),
        Err(TransferError::Unauthorized)
    );
    assert_eq!(from.lamports, 100);
    assert_eq!(to.lamports, 0);
}

#[test]
fn derivation_proof_for_wrong_source_is_rejected() {
    // a correct proof authorizes only the address it derives
    let seeds: Vec<Vec<u8>> = vec![b"vault".to_vec(), addr(3).bytes.to_vec()];
    let (_, bump) = find_address(&seeds, &pid()).expect("a bump must exist");
    let mut from = Account { address: addr(4), lamports: 100 };
    let mut to = Account { address: addr(2), lamports: 0 };
    let auth = Authorization::Derived { seeds, bump };
    assert_eq!(
        transfer(&mut from, &mut to, 10, &auth, &pid()),
        Err(TransferError::Unauthorized)
    );
}

#[test]
fn derivation_proof_for_its_own_address_is_accepted() {
    let seeds: Vec<Vec<u8>> = vec![b"vault".to_vec(), addr(3).bytes.to_vec()];
    let (derived, bump) = find_address(&seeds, &pid()).expect("a bump must exist");
    let mut from = Account { address: derived, lamports: 100 };
    let mut to = Account { address: addr(2), lamports: 0 };
    let auth = Authorization::Derived { seeds, bump };
    transfer(&mut from, &mut to, 10, &auth, &pid()).expect("the capability proof must authorize");
    assert_eq!(from.lamports, 90);
    assert_eq!(to.lamports, 10);
}
