//! The ledger engine: token operations over the record store, enforcing the
//! balance, allowance and identity-derivation invariants. Every check
//! precedes every write, so a failed operation leaves no partial state.

use vstd::prelude::*;
use crate::error::ERC20Error;
use crate::identity::{
    account_id_of, allowance_id_of, derive_account_id, derive_allowance_id, derive_info_id,
    derive_vault_id, id_eq, info_id_of, vault_id_of, Identifier,
};
use crate::store::RecordStore;

verus! {

/// A token account record: the balance held at a derived account address.
#[derive(Clone, Copy, Debug, PartialEq, Eq, Structural)]
pub struct ERC20Account {
    pub balance: u64,
}

/// An allowance record: the remaining amount a spender may move out of an
/// owner's account, held at the derived `(owner account, spender)` address.
#[derive(Clone, Copy, Debug, PartialEq, Eq, Structural)]
pub struct ApproveAccount {
    pub approve: u64,
}

/// The token-info singleton: the wrapped token's description and the
/// bindings to the external asset and the custody vault, written once at
/// initialization.
pub struct ERC20Info {
    pub name: String,
    pub symbol: String,
    pub decimals: u8,
    pub wrap_mint: Identifier,
    pub vault: Identifier,
}

/// The mathematical value of a token-info record.
pub struct InfoModel {
    pub name: Seq<char>,
    pub symbol: Seq<char>,
    pub decimals: u8,
    pub wrap_mint: Seq<u8>,
    pub vault: Seq<u8>,
}

impl View for ERC20Info {
    type V = InfoModel;

    open spec fn view(&self) -> InfoModel {
        InfoModel {
            name: self.name@,
            symbol: self.symbol@,
            decimals: self.decimals,
            wrap_mint: self.wrap_mint@,
            vault: self.vault@,
        }
    }
}

/// A depositor's account in the external asset layer: its address and the
/// asset type it holds.
pub struct ExternalAccount {
    pub address: Identifier,
    pub asset_mint: Identifier,
}

/// The external-asset move a successful deposit instructs the host to
/// perform: `amount` of the external asset from the depositor's external
/// account into the custody vault, authorized by the ledger's derived
/// info identity acting as custodian.
pub struct ExternalMove {
    pub from: Identifier,
    pub to: Identifier,
    pub authority: Identifier,
    pub amount: u64,
}

/// The mathematical value of a ledger: the program identity, the balances
/// keyed by derived account address, the allowances keyed by derived
/// allowance address, and the token-info singleton.
#[verifier::ext_equal]
pub struct LedgerModel {
    pub program: Seq<u8>,
    pub accounts: Map<Seq<u8>, u64>,
    pub allowances: Map<Seq<u8>, u64>,
    pub info: Option<InfoModel>,
}

impl LedgerModel {
    /// The balance at `id`, zero when no account record exists there.
    pub open spec fn balance_of(self, id: Seq<u8>) -> u64 {
        if self.accounts.contains_key(id) {
            self.accounts[id]
        } else {
            0
        }
    }

    /// The remaining allowance at `id`, zero when no allowance record
    /// exists there.
    pub open spec fn allowance_of(self, id: Seq<u8>) -> u64 {
        if self.allowances.contains_key(id) {
            self.allowances[id]
        } else {
            0
        }
    }
}

/// The ledger after a new account with balance zero is created at `id`.
pub open spec fn create_post(pre: LedgerModel, id: Seq<u8>) -> LedgerModel {
    LedgerModel {
        program: pre.program,
        accounts: pre.accounts.insert(id, 0),
        allowances: pre.allowances,
        info: pre.info,
    }
}

/// The ledger after `amount` is minted onto the account at `id`.
pub open spec fn mint_post(pre: LedgerModel, id: Seq<u8>, amount: u64) -> LedgerModel {
    LedgerModel {
        program: pre.program,
        accounts: pre.accounts.insert(id, (pre.accounts[id] + amount) as u64),
        allowances: pre.allowances,
        info: pre.info,
    }
}

/// The ledger after a successful transfer of `amount` from the account at
/// `from` to the account at `to` (a transfer to the same account leaves the
/// balance as it was).
pub open spec fn transfer_post(
    pre: LedgerModel,
    from: Seq<u8>,
    to: Seq<u8>,
    amount: u64,
) -> LedgerModel {
    let debited = pre.accounts.insert(from, (pre.accounts[from] - amount) as u64);
    let credited = debited.insert(to, (debited[to] + amount) as u64);
    LedgerModel {
        program: pre.program,
        accounts: credited,
        allowances: pre.allowances,
        info: pre.info,
    }
}

/// The ledger after an approval writes `amount` at the allowance address
/// `aid`, overwriting whatever stood there.
pub open spec fn approve_post(pre: LedgerModel, aid: Seq<u8>, amount: u64) -> LedgerModel {
    LedgerModel {
        program: pre.program,
        accounts: pre.accounts,
        allowances: pre.allowances.insert(aid, amount),
        info: pre.info,
    }
}

/// The ledger after a successful delegated transfer: the allowance at `aid`
/// and the balance at `from` each shrink by `amount`, the balance at `to`
/// grows by `amount`.
pub open spec fn transfer_from_post(
    pre: LedgerModel,
    from: Seq<u8>,
    to: Seq<u8>,
    aid: Seq<u8>,
    amount: u64,
) -> LedgerModel {
    let debited = pre.accounts.insert(from, (pre.accounts[from] - amount) as u64);
    let credited = debited.insert(to, (debited[to] + amount) as u64);
    LedgerModel {
        program: pre.program,
        accounts: credited,
        allowances: pre.allowances.insert(aid, (pre.allowances[aid] - amount) as u64),
        info: pre.info,
    }
}

/// The ledger after one-time initialization writes the token-info
/// singleton.
pub open spec fn init_post(pre: LedgerModel, info: InfoModel) -> LedgerModel {
    LedgerModel {
        program: pre.program,
        accounts: pre.accounts,
        allowances: pre.allowances,
        info: Some(info),
    }
}

/// The ledger after a successful deposit credits `amount` to the
/// depositor's account at `id`.
pub open spec fn deposit_post(pre: LedgerModel, id: Seq<u8>, amount: u64) -> LedgerModel {
    LedgerModel {
        program: pre.program,
        accounts: pre.accounts.insert(id, (pre.accounts[id] + amount) as u64),
        allowances: pre.allowances,
        info: pre.info,
    }
}

/// The ledger: one token deployment's accounts, allowances and token info.
pub struct Ledger {
    program_id: Identifier,
    accounts: RecordStore,
    allowances: RecordStore,
    info: Option<ERC20Info>,
}

impl View for Ledger {
    type V = LedgerModel;

    closed spec fn view(&self) -> LedgerModel {
        LedgerModel {
            program: self.program_id@,
            accounts: self.accounts@,
            allowances: self.allowances@,
            info: match self.info {
                Some(ref i) => Some(i@),
                None => None,
            },
        }
    }
}

impl Ledger {
    /// Well-formed: each store holds at most one record per address.
    pub closed spec fn wf(&self) -> bool {
        self.accounts.wf() && self.allowances.wf()
    }

    /// A fresh ledger for the deployment identified by `program_id`: no
    /// accounts, no allowances, no token info.
    pub fn new(program_id: Identifier) -> (r: Ledger)
        ensures
            r.wf(),
            r@.program == program_id@,
            r@.accounts == Map::<Seq<u8>, u64>::empty(),
            r@.allowances == Map::<Seq<u8>, u64>::empty(),
            r@.info is None,
    {
        Ledger {
            program_id,
            accounts: RecordStore::new(),
            allowances: RecordStore::new(),
            info: None,
        }
    }

    /// The program identity this ledger was deployed under.
    pub fn program_id(&self) -> (r: Identifier)
        ensures
            r@ == self@.program,
    {
        self.program_id
    }

    /// Create the primary account of `owner` with balance zero at its
    /// derived address and return that address. Idempotent: an existing
    /// account is left untouched. Fails only when no address can be derived
    /// for `owner`, which is statistically improbable.
    pub fn create_account(&mut self, owner: &Identifier) -> (r: Result<Identifier, ERC20Error>)
        requires
            old(self).wf(),
        ensures
            final(self).wf(),
            r matches Ok(id) ==> account_id_of(old(self)@.program, owner@) == Some(id@)
                && final(self)@ == (if old(self)@.accounts.contains_key(id@) {
                    old(self)@
                } else {
                    create_post(old(self)@, id@)
                }),
            r matches Err(e) ==> e == ERC20Error::WrongAuthority
                && account_id_of(old(self)@.program, owner@) is None
                && final(self)@ == old(self)@,
    {
        match derive_account_id(&self.program_id, owner) {
            Some(id) => {
                self.accounts.create_if_absent(&id, 0);
                Ok(id)
            },
            None => Err(ERC20Error::WrongAuthority),
        }
    }

    /// Credit `amount` onto the account at `account`. A faucet: no
    /// authority guards minting, a deliberate hole of the scoped design.
    /// Fails with `NotFound` when no account record exists at `account`.
    pub fn mint(&mut self, account: &Identifier, amount: u64) -> (r: Result<(), ERC20Error>)
        requires
            old(self).wf(),
            old(self)@.balance_of(account@) + amount <= u64::MAX,
        ensures
            final(self).wf(),
            old(self)@.accounts.contains_key(account@) ==> r == Ok::<(), ERC20Error>(())
                && final(self)@ == mint_post(old(self)@, account@, amount),
            !old(self)@.accounts.contains_key(account@) ==> r == Err::<(), ERC20Error>(
                ERC20Error::NotFound,
            ) && final(self)@ == old(self)@,
    {
        match self.accounts.get(account) {
            Some(balance) => {
                self.accounts.put(account, balance + amount);
                Ok(())
            },
            None => Err(ERC20Error::NotFound),
        }
    }

    /// Move `amount` from the account at `from` to the account at `to`.
    /// The caller must be the derived owner of `from`; the move fails with
    /// `InsufficientBalance` rather than drive a balance negative; on
    /// success the two balances change by exactly `amount` and their sum is
    /// conserved. An amount of zero is a legal no-op.
    pub fn transfer(
        &mut self,
        caller: &Identifier,
        from: &Identifier,
        to: &Identifier,
        amount: u64,
    ) -> (r: Result<(), ERC20Error>)
        requires
            old(self).wf(),
            old(self)@.balance_of(from@) >= amount && from@ != to@ ==> old(self)@.balance_of(to@)
                + amount <= u64::MAX,
        ensures
            final(self).wf(),
            ({
                let pre = old(self)@;
                let present = pre.accounts.contains_key(from@) && pre.accounts.contains_key(to@);
                let authorized = account_id_of(pre.program, caller@) == Some(from@);
                &&& !present ==> r == Err::<(), ERC20Error>(ERC20Error::NotFound) && final(self)@
                    == pre
                &&& present && !authorized ==> r == Err::<(), ERC20Error>(
                    ERC20Error::WrongAuthority,
                ) && final(self)@ == pre
                &&& present && authorized && pre.accounts[from@] < amount ==> r == Err::<
                    (),
                    ERC20Error,
                >(ERC20Error::InsufficientBalance) && final(self)@ == pre
                &&& present && authorized && pre.accounts[from@] >= amount ==> r == Ok::<
                    (),
                    ERC20Error,
                >(()) && final(self)@ == transfer_post(pre, from@, to@, amount)
            }),
            r is Ok && from@ != to@ ==> final(self)@.balance_of(from@) == old(self)@.balance_of(
                from@,
            ) - amount && final(self)@.balance_of(to@) == old(self)@.balance_of(to@) + amount,
            r is Ok ==> final(self)@.balance_of(from@) + final(self)@.balance_of(to@) == old(self)@.balance_of(from@) + old(self)@.balance_of(to@),
            r is Err ==> final(self)@ == old(self)@,
    {
        if !self.accounts.contains(from) || !self.accounts.contains(to) {
            return Err(ERC20Error::NotFound);
        }
        let authorized = match derive_account_id(&self.program_id, caller) {
            Some(id) => id_eq(&id, from),
            None => false,
        };
        if !authorized {
            return Err(ERC20Error::WrongAuthority);
        }
        let from_balance = self.accounts.get(from).unwrap();
        if from_balance < amount {
            return Err(ERC20Error::InsufficientBalance);
        }
        self.accounts.put(from, from_balance - amount);
        let to_balance = self.accounts.get(to).unwrap();
        self.accounts.put(to, to_balance + amount);
        Ok(())
    }

    /// Grant `spender` the right to move up to `amount` out of the caller's
    /// account. The caller must be the derived owner of `owner_account`;
    /// the allowance record is written at its derived address, fully
    /// overwriting any prior amount, and that address is returned.
    pub fn approve(
        &mut self,
        caller: &Identifier,
        owner_account: &Identifier,
        spender: &Identifier,
        amount: u64,
    ) -> (r: Result<Identifier, ERC20Error>)
        requires
            old(self).wf(),
        ensures
            final(self).wf(),
            ({
                let pre = old(self)@;
                let owner_ok = account_id_of(pre.program, caller@) == Some(owner_account@);
                &&& r matches Err(e) ==> e == ERC20Error::WrongAuthority && final(self)@ == pre
                    && !(owner_ok && allowance_id_of(pre.program, owner_account@, spender@) is Some)
                &&& r matches Ok(aid) ==> owner_ok && allowance_id_of(
                    pre.program,
                    owner_account@,
                    spender@,
                ) == Some(aid@) && final(self)@ == approve_post(pre, aid@, amount)
                &&& owner_ok && allowance_id_of(pre.program, owner_account@, spender@) is Some
                    ==> r is Ok
            }),
    {
        let owner_ok = match derive_account_id(&self.program_id, caller) {
            Some(id) => id_eq(&id, owner_account),
            None => false,
        };
        if !owner_ok {
            return Err(ERC20Error::WrongAuthority);
        }
        match derive_allowance_id(&self.program_id, owner_account, spender) {
            Some(aid) => {
                self.allowances.put(&aid, amount);
                Ok(aid)
            },
            None => Err(ERC20Error::WrongAuthority),
        }
    }

    /// Move `amount` from the account at `from` to the account at `to` on
    /// the strength of an allowance. The supplied allowance record address
    /// must match the derivation for `(from, caller)` — otherwise the call
    /// fails with `WrongAuthority` whatever that record holds — and both
    /// the allowance and the owner's balance must cover `amount`. On
    /// success all three records change as one atomic step.
    pub fn transfer_from(
        &mut self,
        caller: &Identifier,
        from: &Identifier,
        to: &Identifier,
        allowance_id: &Identifier,
        amount: u64,
    ) -> (r: Result<(), ERC20Error>)
        requires
            old(self).wf(),
            old(self)@.allowance_of(allowance_id@) >= amount && old(self)@.balance_of(from@)
                >= amount && from@ != to@ ==> old(self)@.balance_of(to@) + amount <= u64::MAX,
        ensures
            final(self).wf(),
            ({
                let pre = old(self)@;
                let present = pre.accounts.contains_key(from@) && pre.accounts.contains_key(to@)
                    && pre.allowances.contains_key(allowance_id@);
                let derived = allowance_id_of(pre.program, from@, caller@) == Some(allowance_id@);
                &&& !present ==> r == Err::<(), ERC20Error>(ERC20Error::NotFound) && final(self)@
                    == pre
                &&& present && !derived ==> r == Err::<(), ERC20Error>(ERC20Error::WrongAuthority)
                    && final(self)@ == pre
                &&& present && derived && pre.allowances[allowance_id@] < amount ==> r == Err::<
                    (),
                    ERC20Error,
                >(ERC20Error::InsufficientApprove) && final(self)@ == pre
                &&& present && derived && pre.allowances[allowance_id@] >= amount
                    && pre.accounts[from@] < amount ==> r == Err::<(), ERC20Error>(
                    ERC20Error::InsufficientBalance,
                ) && final(self)@ == pre
                &&& present && derived && pre.allowances[allowance_id@] >= amount
                    && pre.accounts[from@] >= amount ==> r == Ok::<(), ERC20Error>(()) && final(self)@ == transfer_from_post(pre, from@, to@, allowance_id@, amount)
            }),
            r is Ok && from@ != to@ ==> final(self)@.balance_of(from@) == old(self)@.balance_of(
                from@,
            ) - amount && final(self)@.balance_of(to@) == old(self)@.balance_of(to@) + amount,
            r is Ok ==> final(self)@.allowance_of(allowance_id@) == old(self)@.allowance_of(
                allowance_id@,
            ) - amount,
            r is Err ==> final(self)@ == old(self)@,
    {
        if !self.accounts.contains(from) || !self.accounts.contains(to)
            || !self.allowances.contains(allowance_id) {
            return Err(ERC20Error::NotFound);
        }
        let derived = match derive_allowance_id(&self.program_id, from, caller) {
            Some(id) => id_eq(&id, allowance_id),
            None => false,
        };
        if !derived {
            return Err(ERC20Error::WrongAuthority);
        }
        let allowance = self.allowances.get(allowance_id).unwrap();
        if allowance < amount {
            return Err(ERC20Error::InsufficientApprove);
        }
        let from_balance = self.accounts.get(from).unwrap();
        if from_balance < amount {
            return Err(ERC20Error::InsufficientBalance);
        }
        self.allowances.put(allowance_id, allowance - amount);
        self.accounts.put(from, from_balance - amount);
        let to_balance = self.accounts.get(to).unwrap();
        self.accounts.put(to, to_balance + amount);
        Ok(())
    }

    /// One-time initialization of the wrapped token: record its
    /// description and the bindings to the external asset and the custody
    /// vault. Fails with `AlreadyExists` when the singleton was already
    /// written.
    pub fn init_erc20(
        &mut self,
        name: String,
        symbol: String,
        decimals: u8,
        wrap_mint: &Identifier,
        vault: &Identifier,
    ) -> (r: Result<(), ERC20Error>)
        requires
            old(self).wf(),
        ensures
            final(self).wf(),
            old(self)@.info is Some ==> r == Err::<(), ERC20Error>(ERC20Error::AlreadyExists)
                && final(self)@ == old(self)@,
            old(self)@.info is None ==> r == Ok::<(), ERC20Error>(()) && final(self)@ == init_post(
                old(self)@,
                (InfoModel {
                    name: name@,
                    symbol: symbol@,
                    decimals: decimals,
                    wrap_mint: wrap_mint@,
                    vault: vault@,
                }),
            ),
    {
        if self.info.is_some() {
            return Err(ERC20Error::AlreadyExists);
        }
        self.info = Some(
            ERC20Info {
                name,
                symbol,
                decimals,
                wrap_mint: *wrap_mint,
                vault: *vault,
            },
        );
        Ok(())
    }

    /// Wrap `amount` of the external asset: verify that the depositor's
    /// external account holds the configured asset type and that the
    /// configured vault is the derived vault address, credit the
    /// depositor's ledger account, and return the external-asset move the
    /// host must perform as part of the same logical operation — into the
    /// vault, authorized by the derived info identity as custodian.
    pub fn deposit(
        &mut self,
        depositor_account: &Identifier,
        source: &ExternalAccount,
        amount: u64,
    ) -> (r: Result<ExternalMove, ERC20Error>)
        requires
            old(self).wf(),
            ({
                match old(self)@.info {
                    Some(info) => info.wrap_mint == source.asset_mint@ && old(self)@.accounts.contains_key(depositor_account@) ==> old(self)@.accounts[depositor_account@] + amount <= u64::MAX,
                    None => true,
                }
            }),
        ensures
            final(self).wf(),
            ({
                let pre = old(self)@;
                match pre.info {
                    None => r matches Err(e) && e == ERC20Error::NotFound && final(self)@ == pre,
                    Some(info) => {
                        if !pre.accounts.contains_key(depositor_account@) {
                            r matches Err(e) && e == ERC20Error::NotFound && final(self)@ == pre
                        } else if info.wrap_mint != source.asset_mint@ || vault_id_of(pre.program)
                            != Some(info.vault) {
                            r matches Err(e) && e == ERC20Error::WrongWrappedToken && final(self)@
                                == pre
                        } else {
                            match info_id_of(pre.program) {
                                None => r matches Err(e) && e == ERC20Error::WrongAuthority
                                    && final(self)@ == pre,
                                Some(custodian) => r matches Ok(mv) && mv.from@ == source.address@
                                    && mv.to@ == info.vault && mv.authority@ == custodian
                                    && mv.amount == amount && final(self)@ == deposit_post(
                                    pre,
                                    depositor_account@,
                                    amount,
                                ),
                            }
                        }
                    },
                }
            }),
            r is Err ==> final(self)@ == old(self)@,
    {
        let (wrap_mint, vault) = match &self.info {
            Some(i) => (i.wrap_mint, i.vault),
            None => {
                return Err(ERC20Error::NotFound);
            },
        };
        if !self.accounts.contains(depositor_account) {
            return Err(ERC20Error::NotFound);
        }
        if !id_eq(&source.asset_mint, &wrap_mint) {
            return Err(ERC20Error::WrongWrappedToken);
        }
        let vault_ok = match derive_vault_id(&self.program_id) {
            Some(v) => id_eq(&v, &vault),
            None => false,
        };
        if !vault_ok {
            return Err(ERC20Error::WrongWrappedToken);
        }
        let custodian = match derive_info_id(&self.program_id) {
            Some(a) => a,
            None => {
                return Err(ERC20Error::WrongAuthority);
            },
        };
        let balance = self.accounts.get(depositor_account).unwrap();
        self.accounts.put(depositor_account, balance + amount);
        Ok(ExternalMove { from: source.address, to: vault, authority: custodian, amount })
    }

    /// The token account at `id`, if one exists.
    pub fn account(&self, id: &Identifier) -> (r: Option<ERC20Account>)
        requires
            self.wf(),
        ensures
            r == if self@.accounts.contains_key(id@) {
                Some(ERC20Account { balance: self@.accounts[id@] })
            } else {
                None::<ERC20Account>
            },
    {
        match self.accounts.get(id) {
            Some(balance) => Some(ERC20Account { balance }),
            None => None,
        }
    }

    /// The allowance record at `id`, if one exists.
    pub fn approve_record(&self, id: &Identifier) -> (r: Option<ApproveAccount>)
        requires
            self.wf(),
        ensures
            r == if self@.allowances.contains_key(id@) {
                Some(ApproveAccount { approve: self@.allowances[id@] })
            } else {
                None::<ApproveAccount>
            },
    {
        match self.allowances.get(id) {
            Some(approve) => Some(ApproveAccount { approve }),
            None => None,
        }
    }

    /// The balance at `id`, zero when no account record exists there.
    pub fn balance_of(&self, id: &Identifier) -> (r: u64)
        requires
            self.wf(),
        ensures
            r == self@.balance_of(id@),
    {
        match self.accounts.get(id) {
            Some(balance) => balance,
            None => 0,
        }
    }

    /// The remaining allowance at `id`, zero when no allowance record
    /// exists there.
    pub fn allowance_of(&self, id: &Identifier) -> (r: u64)
        requires
            self.wf(),
        ensures
            r == self@.allowance_of(id@),
    {
        match self.allowances.get(id) {
            Some(approve) => approve,
            None => 0,
        }
    }

    /// True when the token-info singleton has been written.
    pub fn has_info(&self) -> (r: bool)
        ensures
            r == (self@.info is Some),
    {
        self.info.is_some()
    }
}

} // verus!
