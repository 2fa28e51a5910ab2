use erc20::identity::{
    derive_account_id, derive_allowance_id, derive_vault_id, id_bytes, id_eq, verify_account_id,
    Identifier,
};

fn ident(tag: u8) -> Identifier {
    Identifier::from_bytes([tag; 32])
}

#[test]
fn id_eq_compares_all_bytes() {
    let a = ident(1);
    let b = ident(1);
    let mut c_bytes = [1u8; 32];
    c_bytes[31] = 2;
    let c = Identifier::from_bytes(c_bytes);
    assert!(id_eq(&a, &b));
    assert!(!id_eq(&a, &c));
}

#[test]
fn id_bytes_round_trips() {
    let a = ident(4);
    assert_eq!(id_bytes(&a), vec![4u8; 32]);
}

#[test]
fn derivation_is_deterministic() {
    let program = ident(9);
    let owner = ident(1);
    let first = derive_account_id(&program, &owner).unwrap();
    let second = derive_account_id(&program, &owner).unwrap();
    assert_eq!(first, second);
}

#[test]
fn derivation_actually_derives() {
    // A derived address is a fresh identity, not any of the inputs handed
    // in, and distinct inputs land on distinct addresses.
    let program = ident(9);
    let owner = ident(1);
    let other = ident(2);
    let a = derive_account_id(&program, &owner).unwrap();
    assert_ne!(a, owner);
    assert_ne!(a, program);
    let b = derive_account_id(&program, &other).unwrap();
    assert_ne!(a, b);
    let under_other_program = derive_account_id(&ident(8), &owner).unwrap();
    assert_ne!(a, under_other_program);
}

#[test]
fn namespaces_separate_the_derivations() {
    let program = ident(9);
    let owner = ident(1);
    let spender = ident(2);
    let account = derive_account_id(&program, &owner).unwrap();
    let allowance = derive_allowance_id(&program, &account, &spender).unwrap();
    let vault = derive_vault_id(&program).unwrap();
    assert_ne!(account, allowance);
    assert_ne!(account, vault);
    assert_ne!(allowance, vault);
}

#[test]
fn verify_account_id_recomputes_and_compares() {
    let program = ident(9);
    let owner = ident(1);
    let derived = derive_account_id(&program, &owner).unwrap();
    assert!(verify_account_id(&program, &owner, &derived));
    assert!(!verify_account_id(&program, &owner, &owner));
    assert!(!verify_account_id(&program, &ident(2), &derived));
}
