use erc20::error::ERC20Error;
use erc20::identity::{derive_info_id, derive_vault_id, Identifier};
use erc20::ledger::{ExternalAccount, Ledger};

fn ident(tag: u8) -> Identifier {
    Identifier::from_bytes([tag; 32])
}

#[test]
fn transfer_moves_amount_and_conserves_total() {
    let program = ident(9);
    let mut ledger = Ledger::new(program);
    let alice = ident(1);
    let bob = ident(2);
    let a = ledger.create_account(&alice).unwrap();
    let b = ledger.create_account(&bob).unwrap();
    ledger.mint(&a, 100).unwrap();
    assert_eq!(ledger.balance_of(&a), 100);
    ledger.transfer(&alice, &a, &b, 30).unwrap();
    assert_eq!(ledger.balance_of(&a), 70);
    assert_eq!(ledger.balance_of(&b), 30);
    assert_eq!(ledger.balance_of(&a) + ledger.balance_of(&b), 100);
}

#[test]
fn transfer_of_zero_is_a_no_op() {
    let program = ident(9);
    let mut ledger = Ledger::new(program);
    let alice = ident(1);
    let bob = ident(2);
    let a = ledger.create_account(&alice).unwrap();
    let b = ledger.create_account(&bob).unwrap();
    ledger.mint(&a, 10).unwrap();
    ledger.transfer(&alice, &a, &b, 0).unwrap();
    assert_eq!(ledger.balance_of(&a), 10);
    assert_eq!(ledger.balance_of(&b), 0);
}

#[test]
fn transfer_beyond_balance_fails_and_leaves_state() {
    let program = ident(9);
    let mut ledger = Ledger::new(program);
    let alice = ident(1);
    let bob = ident(2);
    let a = ledger.create_account(&alice).unwrap();
    let b = ledger.create_account(&bob).unwrap();
    ledger.mint(&a, 40).unwrap();
    let r = ledger.transfer(&alice, &a, &b, 41);
    assert_eq!(r, Err(ERC20Error::InsufficientBalance));
    assert_eq!(ledger.balance_of(&a), 40);
    assert_eq!(ledger.balance_of(&b), 0);
}

#[test]
fn transfer_by_non_owner_fails_with_wrong_authority() {
    let program = ident(9);
    let mut ledger = Ledger::new(program);
    let alice = ident(1);
    let bob = ident(2);
    let a = ledger.create_account(&alice).unwrap();
    let b = ledger.create_account(&bob).unwrap();
    ledger.mint(&a, 40).unwrap();
    let r = ledger.transfer(&bob, &a, &b, 10);
    assert_eq!(r, Err(ERC20Error::WrongAuthority));
    assert_eq!(ledger.balance_of(&a), 40);
    assert_eq!(ledger.balance_of(&b), 0);
}

#[test]
fn transfer_to_missing_account_fails_with_not_found() {
    let program = ident(9);
    let mut ledger = Ledger::new(program);
    let alice = ident(1);
    let a = ledger.create_account(&alice).unwrap();
    ledger.mint(&a, 40).unwrap();
    let missing = ident(3);
    let r = ledger.transfer(&alice, &a, &missing, 10);
    assert_eq!(r, Err(ERC20Error::NotFound));
    assert_eq!(ledger.balance_of(&a), 40);
}

#[test]
fn mint_on_missing_account_fails_with_not_found() {
    let program = ident(9);
    let mut ledger = Ledger::new(program);
    let missing = ident(3);
    assert_eq!(ledger.mint(&missing, 5), Err(ERC20Error::NotFound));
    assert_eq!(ledger.balance_of(&missing), 0);
}

#[test]
fn create_account_is_idempotent() {
    let program = ident(9);
    let mut ledger = Ledger::new(program);
    let alice = ident(1);
    let a1 = ledger.create_account(&alice).unwrap();
    ledger.mint(&a1, 25).unwrap();
    let a2 = ledger.create_account(&alice).unwrap();
    assert_eq!(a1, a2);
    assert_eq!(ledger.balance_of(&a1), 25);
}

#[test]
fn reapproval_overwrites_the_allowance() {
    let program = ident(9);
    let mut ledger = Ledger::new(program);
    let alice = ident(1);
    let bob = ident(2);
    let a = ledger.create_account(&alice).unwrap();
    let aid1 = ledger.approve(&alice, &a, &bob, 70).unwrap();
    assert_eq!(ledger.allowance_of(&aid1), 70);
    let aid2 = ledger.approve(&alice, &a, &bob, 12).unwrap();
    assert_eq!(aid1, aid2);
    assert_eq!(ledger.allowance_of(&aid1), 12);
}

#[test]
fn approve_from_non_owner_fails_with_wrong_authority() {
    let program = ident(9);
    let mut ledger = Ledger::new(program);
    let alice = ident(1);
    let bob = ident(2);
    let a = ledger.create_account(&alice).unwrap();
    let r = ledger.approve(&bob, &a, &bob, 70);
    assert_eq!(r, Err(ERC20Error::WrongAuthority));
    assert!(ledger.approve_record(&a).is_none());
}

#[test]
fn transfer_from_spends_allowance_and_moves_balance() {
    let program = ident(9);
    let mut ledger = Ledger::new(program);
    let alice = ident(1);
    let bob = ident(2);
    let carol = ident(3);
    let a = ledger.create_account(&alice).unwrap();
    let c = ledger.create_account(&carol).unwrap();
    ledger.mint(&a, 100).unwrap();
    let aid = ledger.approve(&alice, &a, &bob, 40).unwrap();
    ledger.transfer_from(&bob, &a, &c, &aid, 25).unwrap();
    assert_eq!(ledger.balance_of(&a), 75);
    assert_eq!(ledger.balance_of(&c), 25);
    assert_eq!(ledger.allowance_of(&aid), 15);
    ledger.transfer_from(&bob, &a, &c, &aid, 15).unwrap();
    assert_eq!(ledger.allowance_of(&aid), 0);
    let r = ledger.transfer_from(&bob, &a, &c, &aid, 1);
    assert_eq!(r, Err(ERC20Error::InsufficientApprove));
    assert_eq!(ledger.balance_of(&a), 60);
    assert_eq!(ledger.balance_of(&c), 40);
}

#[test]
fn transfer_from_with_mismatched_allowance_address_fails() {
    let program = ident(9);
    let mut ledger = Ledger::new(program);
    let alice = ident(1);
    let bob = ident(2);
    let carol = ident(3);
    let a = ledger.create_account(&alice).unwrap();
    let c = ledger.create_account(&carol).unwrap();
    ledger.mint(&a, 100).unwrap();
    // A real allowance record, but for (a, carol), not for (a, bob): its
    // address does not match the derivation for the caller, so whatever
    // amount it holds must not authorize bob.
    let aid_for_carol = ledger.approve(&alice, &a, &carol, 50).unwrap();
    let r = ledger.transfer_from(&bob, &a, &c, &aid_for_carol, 10);
    assert_eq!(r, Err(ERC20Error::WrongAuthority));
    assert_eq!(ledger.balance_of(&a), 100);
    assert_eq!(ledger.balance_of(&c), 0);
    assert_eq!(ledger.allowance_of(&aid_for_carol), 50);
}

#[test]
fn transfer_from_with_missing_allowance_fails_with_not_found() {
    let program = ident(9);
    let mut ledger = Ledger::new(program);
    let alice = ident(1);
    let bob = ident(2);
    let carol = ident(3);
    let a = ledger.create_account(&alice).unwrap();
    let c = ledger.create_account(&carol).unwrap();
    ledger.mint(&a, 100).unwrap();
    let never_approved = ident(4);
    let r = ledger.transfer_from(&bob, &a, &c, &never_approved, 10);
    assert_eq!(r, Err(ERC20Error::NotFound));
    assert_eq!(ledger.balance_of(&a), 100);
}

#[test]
fn end_to_end_mint_approve_delegate() {
    let program = ident(9);
    let mut ledger = Ledger::new(program);
    let x_owner = ident(1);
    let y = ident(2);
    let z_owner = ident(3);
    let x = ledger.create_account(&x_owner).unwrap();
    assert_eq!(ledger.balance_of(&x), 0);
    ledger.mint(&x, 100).unwrap();
    assert_eq!(ledger.balance_of(&x), 100);
    let z = ledger.create_account(&z_owner).unwrap();
    let aid = ledger.approve(&x_owner, &x, &y, 40).unwrap();
    ledger.transfer_from(&y, &x, &z, &aid, 25).unwrap();
    assert_eq!(ledger.balance_of(&x), 75);
    assert_eq!(ledger.allowance_of(&aid), 15);
    assert_eq!(ledger.balance_of(&z), 25);
    let r = ledger.transfer_from(&y, &x, &z, &aid, 20);
    assert_eq!(r, Err(ERC20Error::InsufficientApprove));
    assert_eq!(ledger.balance_of(&x), 75);
    assert_eq!(ledger.allowance_of(&aid), 15);
    assert_eq!(ledger.balance_of(&z), 25);
}

#[test]
fn init_twice_fails_with_already_exists() {
    let program = ident(9);
    let mut ledger = Ledger::new(program);
    let mint = ident(5);
    let vault = derive_vault_id(&program).unwrap();
    ledger
        .init_erc20("Wrapped".to_string(), "WRP".to_string(), 9, &mint, &vault)
        .unwrap();
    assert!(ledger.has_info());
    let r = ledger.init_erc20("Wrapped".to_string(), "WRP".to_string(), 9, &mint, &vault);
    assert_eq!(r, Err(ERC20Error::AlreadyExists));
}

#[test]
fn deposit_credits_and_instructs_the_vault_move() {
    let program = ident(9);
    let mut ledger = Ledger::new(program);
    let alice = ident(1);
    let a = ledger.create_account(&alice).unwrap();
    let wrap_mint = ident(5);
    let vault = derive_vault_id(&program).unwrap();
    ledger
        .init_erc20("Wrapped".to_string(), "WRP".to_string(), 9, &wrap_mint, &vault)
        .unwrap();
    let source = ExternalAccount { address: ident(6), asset_mint: wrap_mint };
    let mv = ledger.deposit(&a, &source, 55).unwrap();
    assert_eq!(ledger.balance_of(&a), 55);
    assert_eq!(mv.amount, 55);
    assert_eq!(mv.from, ident(6));
    assert_eq!(mv.to, vault);
    assert_eq!(mv.authority, derive_info_id(&program).unwrap());
}

#[test]
fn deposit_of_wrong_asset_fails_and_credits_nothing() {
    let program = ident(9);
    let mut ledger = Ledger::new(program);
    let alice = ident(1);
    let a = ledger.create_account(&alice).unwrap();
    let wrap_mint = ident(5);
    let vault = derive_vault_id(&program).unwrap();
    ledger
        .init_erc20("Wrapped".to_string(), "WRP".to_string(), 9, &wrap_mint, &vault)
        .unwrap();
    let other_mint = ident(7);
    let source = ExternalAccount { address: ident(6), asset_mint: other_mint };
    let r = ledger.deposit(&a, &source, 55);
    assert!(matches!(r, Err(ERC20Error::WrongWrappedToken)));
    assert_eq!(ledger.balance_of(&a), 0);
}

#[test]
fn deposit_with_misconfigured_vault_fails() {
    let program = ident(9);
    let mut ledger = Ledger::new(program);
    let alice = ident(1);
    let a = ledger.create_account(&alice).unwrap();
    let wrap_mint = ident(5);
    let not_the_derived_vault = ident(8);
    ledger
        .init_erc20(
            "Wrapped".to_string(),
            "WRP".to_string(),
            9,
            &wrap_mint,
            &not_the_derived_vault,
        )
        .unwrap();
    let source = ExternalAccount { address: ident(6), asset_mint: wrap_mint };
    let r = ledger.deposit(&a, &source, 55);
    assert!(matches!(r, Err(ERC20Error::WrongWrappedToken)));
    assert_eq!(ledger.balance_of(&a), 0);
}

#[test]
fn deposit_without_init_fails_with_not_found() {
    let program = ident(9);
    let mut ledger = Ledger::new(program);
    let alice = ident(1);
    let a = ledger.create_account(&alice).unwrap();
    let source = ExternalAccount { address: ident(6), asset_mint: ident(5) };
    let r = ledger.deposit(&a, &source, 55);
    assert!(matches!(r, Err(ERC20Error::NotFound)));
    assert_eq!(ledger.balance_of(&a), 0);
}
