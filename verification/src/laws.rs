//! Ledger-wide laws, stated over the ledger's mathematical model and the
//! same transition functions that the operations' contracts use.

use vstd::prelude::*;
use crate::ledger::{approve_post, transfer_from_post, transfer_post, LedgerModel};

verus! {

/// A successful transfer moves exactly `amount`: the source balance drops
/// by it, the destination balance grows by it, and the total across the
/// two accounts is conserved.
pub proof fn lemma_transfer_moves_amount(
    pre: LedgerModel,
    from: Seq<u8>,
    to: Seq<u8>,
    amount: u64,
)
    requires
        pre.accounts.contains_key(from),
        pre.accounts.contains_key(to),
        from != to,
        amount <= pre.accounts[from],
        pre.accounts[to] + amount <= u64::MAX,
    ensures
        transfer_post(pre, from, to, amount).balance_of(from) == pre.balance_of(from) - amount,
        transfer_post(pre, from, to, amount).balance_of(to) == pre.balance_of(to) + amount,
        transfer_post(pre, from, to, amount).balance_of(from) + transfer_post(
            pre,
            from,
            to,
            amount,
        ).balance_of(to) == pre.balance_of(from) + pre.balance_of(to),
{
}

/// A transfer touches no other account and no allowance: every balance
/// besides the two involved, every allowance, and the token info are left
/// as they were.
pub proof fn lemma_transfer_frames_rest(
    pre: LedgerModel,
    from: Seq<u8>,
    to: Seq<u8>,
    amount: u64,
    other: Seq<u8>,
)
    requires
        other != from,
        other != to,
    ensures
        transfer_post(pre, from, to, amount).balance_of(other) == pre.balance_of(other),
        transfer_post(pre, from, to, amount).allowances == pre.allowances,
        transfer_post(pre, from, to, amount).info == pre.info,
{
}

/// Re-approval overwrites: a second approval at the same allowance address
/// leaves the allowance at the second amount — never at the sum — and the
/// ledger ends exactly as if only the second approval had happened.
pub proof fn lemma_approve_overwrites(pre: LedgerModel, aid: Seq<u8>, amt1: u64, amt2: u64)
    ensures
        approve_post(approve_post(pre, aid, amt1), aid, amt2).allowance_of(aid) == amt2,
        approve_post(approve_post(pre, aid, amt1), aid, amt2) == approve_post(pre, aid, amt2),
{
    assert(approve_post(approve_post(pre, aid, amt1), aid, amt2).allowances =~= approve_post(
        pre,
        aid,
        amt2,
    ).allowances);
    assert(approve_post(approve_post(pre, aid, amt1), aid, amt2) =~= approve_post(
        pre,
        aid,
        amt2,
    ));
}

/// A successful delegated transfer decrements both the allowance and the
/// owner's balance by `amount` and credits the destination by `amount`.
pub proof fn lemma_transfer_from_effects(
    pre: LedgerModel,
    from: Seq<u8>,
    to: Seq<u8>,
    aid: Seq<u8>,
    amount: u64,
)
    requires
        pre.accounts.contains_key(from),
        pre.accounts.contains_key(to),
        pre.allowances.contains_key(aid),
        from != to,
        amount <= pre.allowances[aid],
        amount <= pre.accounts[from],
        pre.accounts[to] + amount <= u64::MAX,
    ensures
        transfer_from_post(pre, from, to, aid, amount).allowance_of(aid) == pre.allowance_of(aid)
            - amount,
        transfer_from_post(pre, from, to, aid, amount).balance_of(from) == pre.balance_of(from)
            - amount,
        transfer_from_post(pre, from, to, aid, amount).balance_of(to) == pre.balance_of(to)
            + amount,
{
}

/// A delegated transfer touches no other record: every balance besides the
/// two involved, every allowance besides the one spent, and the token info
/// are left as they were.
pub proof fn lemma_transfer_from_frames_rest(
    pre: LedgerModel,
    from: Seq<u8>,
    to: Seq<u8>,
    aid: Seq<u8>,
    amount: u64,
    other_account: Seq<u8>,
    other_allowance: Seq<u8>,
)
    requires
        other_account != from,
        other_account != to,
        other_allowance != aid,
    ensures
        transfer_from_post(pre, from, to, aid, amount).balance_of(other_account)
            == pre.balance_of(other_account),
        transfer_from_post(pre, from, to, aid, amount).allowance_of(other_allowance)
            == pre.allowance_of(other_allowance),
        transfer_from_post(pre, from, to, aid, amount).info == pre.info,
{
}

/// Spending against an allowance exhausts it: after a successful delegated
/// transfer of `amt1`, exactly `allowance - amt1` remains, so a further
/// request for any `amt2` above that remainder fails the allowance check.
pub proof fn lemma_allowance_exhaustion(
    pre: LedgerModel,
    from: Seq<u8>,
    to: Seq<u8>,
    aid: Seq<u8>,
    amt1: u64,
    amt2: u64,
)
    requires
        pre.allowances.contains_key(aid),
        amt1 <= pre.allowances[aid],
        amt2 > pre.allowances[aid] - amt1,
    ensures
        transfer_from_post(pre, from, to, aid, amt1).allowances[aid] < amt2,
{
}

} // verus!
