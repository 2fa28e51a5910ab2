//! Deterministic account identity: 32-byte identifiers and the derivation
//! of record addresses from a namespace tag and the owning keys.

use vstd::prelude::*;

verus! {

/// A 32-byte account address: the only identity the ledger knows.
#[derive(Clone, Copy, Debug, PartialEq, Eq)]
pub struct Identifier {
    pub bytes: [u8; 32],
}

impl View for Identifier {
    type V = Seq<u8>;

    open spec fn view(&self) -> Seq<u8> {
        self.bytes@
    }
}

impl Identifier {
    pub fn from_bytes(bytes: [u8; 32]) -> (r: Identifier)
        ensures
            r@ == bytes@,
    {
        Identifier { bytes }
    }
}

/// True exactly when the two identifiers hold the same 32 bytes.
pub fn id_eq(a: &Identifier, b: &Identifier) -> (r: bool)
    ensures
        r == (a@ == b@),
{
    let mut i: usize = 0;
    while i < 32
        invariant
            0 <= i <= 32,
            forall|j: int| 0 <= j < i ==> a.bytes@[j] == b.bytes@[j],
        decreases 32 - i,
    {
        if a.bytes[i] != b.bytes[i] {
            return false;
        }
        i = i + 1;
    }
    proof {
        assert(a@ =~= b@);
    }
    true
}

/// The 32 bytes of an identifier as a fresh vector.
pub fn id_bytes(id: &Identifier) -> (r: Vec<u8>)
    ensures
        r@ == id@,
{
    let mut v: Vec<u8> = Vec::new();
    let mut i: usize = 0;
    while i < 32
        invariant
            0 <= i <= 32,
            v@.len() == i,
            forall|j: int| 0 <= j < i ==> v@[j] == id.bytes@[j],
        decreases 32 - i,
    {
        v.push(id.bytes[i]);
        i = i + 1;
    }
    proof {
        assert(v@ =~= id@);
    }
    v
}

/// The namespace tag under which a user's primary account address lives.
pub open spec fn ns_create_account() -> Seq<u8> {
    seq![99u8, 114, 101, 97, 116, 101, 65, 99, 99, 111, 117, 110, 116]
}

/// The namespace tag under which an allowance record address lives.
pub open spec fn ns_approve_account() -> Seq<u8> {
    seq![97u8, 112, 112, 114, 111, 118, 101, 65, 99, 99, 111, 117, 110, 116]
}

/// The namespace tag under which the custody vault address lives.
pub open spec fn ns_wrapped_account() -> Seq<u8> {
    seq![119u8, 114, 97, 112, 112, 101, 100, 65, 99, 99, 111, 117, 110, 116]
}

/// The namespace tag under which the token-info singleton address lives.
pub open spec fn ns_account_info() -> Seq<u8> {
    seq![97u8, 99, 99, 111, 117, 110, 116, 73, 110, 102, 111]
}

/// The bytes `createAccount`.
fn ns_create_account_bytes() -> (r: Vec<u8>)
    ensures
        r@ == ns_create_account(),
{
    let mut v: Vec<u8> = Vec::new();
    v.push(99);
    v.push(114);
    v.push(101);
    v.push(97);
    v.push(116);
    v.push(101);
    v.push(65);
    v.push(99);
    v.push(99);
    v.push(111);
    v.push(117);
    v.push(110);
    v.push(116);
    proof {
        assert(v@ =~= ns_create_account());
    }
    v
}

/// The bytes `approveAccount`.
fn ns_approve_account_bytes() -> (r: Vec<u8>)
    ensures
        r@ == ns_approve_account(),
{
    let mut v: Vec<u8> = Vec::new();
    v.push(97);
    v.push(112);
    v.push(112);
    v.push(114);
    v.push(111);
    v.push(118);
    v.push(101);
    v.push(65);
    v.push(99);
    v.push(99);
    v.push(111);
    v.push(117);
    v.push(110);
    v.push(116);
    proof {
        assert(v@ =~= ns_approve_account());
    }
    v
}

/// The bytes `wrappedAccount`.
fn ns_wrapped_account_bytes() -> (r: Vec<u8>)
    ensures
        r@ == ns_wrapped_account(),
{
    let mut v: Vec<u8> = Vec::new();
    v.push(119);
    v.push(114);
    v.push(97);
    v.push(112);
    v.push(112);
    v.push(101);
    v.push(100);
    v.push(65);
    v.push(99);
    v.push(99);
    v.push(111);
    v.push(117);
    v.push(110);
    v.push(116);
    proof {
        assert(v@ =~= ns_wrapped_account());
    }
    v
}

/// The bytes `accountInfo`.
fn ns_account_info_bytes() -> (r: Vec<u8>)
    ensures
        r@ == ns_account_info(),
{
    let mut v: Vec<u8> = Vec::new();
    v.push(97);
    v.push(99);
    v.push(99);
    v.push(111);
    v.push(117);
    v.push(110);
    v.push(116);
    v.push(73);
    v.push(110);
    v.push(102);
    v.push(111);
    proof {
        assert(v@ =~= ns_account_info());
    }
    v
}

/// The address derived from ordered seed byte-strings and a program
/// identifier, `None` only in the statistically improbable case that no
/// viable derivation exists for those seeds.
pub uninterp spec fn derived_id(seeds: Seq<Seq<u8>>, program: Seq<u8>) -> Option<Seq<u8>>;

/// Relies on `Pubkey::try_find_program_address` (solana-pubkey, re-exported
/// by anchor-lang): the derived address and bump are a deterministic
/// function of the seeds and the program id alone, and `None` comes back
/// only when no bump seed yields a valid derivation.
#[verifier::external_body]
fn derive_raw(seeds: &Vec<Vec<u8>>, program: &Identifier) -> (r: Option<Identifier>)
    ensures
        r matches Some(id) ==> derived_id(seeds.deep_view(), program@) == Some(id@),
        (r is None) ==> derived_id(seeds.deep_view(), program@) is None,
{
    let refs: Vec<&[u8]> = seeds.iter().map(|s| s.as_slice()).collect();
    let program_key = anchor_lang::prelude::Pubkey::new_from_array(program.bytes);
    anchor_lang::prelude::Pubkey::try_find_program_address(&refs, &program_key)
        .map(|(address, _bump)| Identifier { bytes: address.to_bytes() })
}

/// The derived address of the primary account of `owner`.
pub open spec fn account_id_of(program: Seq<u8>, owner: Seq<u8>) -> Option<Seq<u8>> {
    derived_id(seq![ns_create_account(), owner], program)
}

/// The derived address of the allowance record for `(owner_account, spender)`.
pub open spec fn allowance_id_of(
    program: Seq<u8>,
    owner_account: Seq<u8>,
    spender: Seq<u8>,
) -> Option<Seq<u8>> {
    derived_id(seq![ns_approve_account(), owner_account, spender], program)
}

/// The derived address of the custody vault.
pub open spec fn vault_id_of(program: Seq<u8>) -> Option<Seq<u8>> {
    derived_id(seq![ns_wrapped_account()], program)
}

/// The derived address of the token-info singleton, which also acts as the
/// custody authority over the vault.
pub open spec fn info_id_of(program: Seq<u8>) -> Option<Seq<u8>> {
    derived_id(seq![ns_account_info()], program)
}

/// Derive the primary account address of `owner` under `program`.
pub fn derive_account_id(program: &Identifier, owner: &Identifier) -> (r: Option<Identifier>)
    ensures
        r matches Some(id) ==> account_id_of(program@, owner@) == Some(id@),
        (r is None) ==> account_id_of(program@, owner@) is None,
{
    let mut seeds: Vec<Vec<u8>> = Vec::new();
    seeds.push(ns_create_account_bytes());
    seeds.push(id_bytes(owner));
    proof {
        assert(seeds@[0].deep_view() =~= ns_create_account());
        assert(seeds@[1].deep_view() =~= owner@);
        assert(seeds.deep_view() =~= seq![ns_create_account(), owner@]);
    }
    derive_raw(&seeds, program)
}

/// Derive the allowance record address for `(owner_account, spender)` under
/// `program`.
pub fn derive_allowance_id(
    program: &Identifier,
    owner_account: &Identifier,
    spender: &Identifier,
) -> (r: Option<Identifier>)
    ensures
        r matches Some(id) ==> allowance_id_of(program@, owner_account@, spender@) == Some(id@),
        (r is None) ==> allowance_id_of(program@, owner_account@, spender@) is None,
{
    let mut seeds: Vec<Vec<u8>> = Vec::new();
    seeds.push(ns_approve_account_bytes());
    seeds.push(id_bytes(owner_account));
    seeds.push(id_bytes(spender));
    proof {
        assert(seeds@[0].deep_view() =~= ns_approve_account());
        assert(seeds@[1].deep_view() =~= owner_account@);
        assert(seeds@[2].deep_view() =~= spender@);
        assert(seeds.deep_view() =~= seq![ns_approve_account(), owner_account@, spender@]);
    }
    derive_raw(&seeds, program)
}

/// Derive the custody vault address under `program`.
pub fn derive_vault_id(program: &Identifier) -> (r: Option<Identifier>)
    ensures
        r matches Some(id) ==> vault_id_of(program@) == Some(id@),
        (r is None) ==> vault_id_of(program@) is None,
{
    let mut seeds: Vec<Vec<u8>> = Vec::new();
    seeds.push(ns_wrapped_account_bytes());
    proof {
        assert(seeds@[0].deep_view() =~= ns_wrapped_account());
        assert(seeds.deep_view() =~= seq![ns_wrapped_account()]);
    }
    derive_raw(&seeds, program)
}

/// Derive the token-info singleton address under `program`.
pub fn derive_info_id(program: &Identifier) -> (r: Option<Identifier>)
    ensures
        r matches Some(id) ==> info_id_of(program@) == Some(id@),
        (r is None) ==> info_id_of(program@) is None,
{
    let mut seeds: Vec<Vec<u8>> = Vec::new();
    seeds.push(ns_account_info_bytes());
    proof {
        assert(seeds@[0].deep_view() =~= ns_account_info());
        assert(seeds.deep_view() =~= seq![ns_account_info()]);
    }
    derive_raw(&seeds, program)
}

/// Recompute the derivation of `claimed` from `(namespace, owner)` account
/// seeds and compare: true exactly when `claimed` is the derived primary
/// account address of `owner`.
pub fn verify_account_id(program: &Identifier, owner: &Identifier, claimed: &Identifier) -> (r:
    bool)
    ensures
        r == (account_id_of(program@, owner@) == Some(claimed@)),
{
    match derive_account_id(program, owner) {
        Some(id) => id_eq(&id, claimed),
        None => false,
    }
}

} // verus!
