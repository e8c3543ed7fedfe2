//! Laws of the ledger's transitions.
//!
//! Each proof function below states, over the transition functions of
//! [`crate::ledger`], a property that holds of every ledger and every input,
//! and Verus proves it. Together with the operations' own contracts they
//! cover: conservation of value across transfers and mints, zero-amount
//! calls as strict no-ops, self-transfers as identities, rejection of
//! underfunded transfers, issuer-only minting, and the untouchability of
//! bystanders' balances.

use vstd::prelude::*;

use crate::ledger::Ledger;
use crate::ledger::mint_accepted;
use crate::ledger::mint_result_balance;
use crate::ledger::mint_result_supply;
use crate::ledger::transfer_accepted;
use crate::ledger::transfer_result_balance;

verus! {

/// A zero-amount transfer alters no balance, whatever the parties and the
/// prior state.
pub proof fn lemma_transfer_zero_is_noop(pre: Ledger, caller: Seq<u8>, to: Seq<u8>, o: Seq<u8>)
    ensures
        transfer_result_balance(pre, caller, to, 0, o) == pre.balance(o),
{
}

/// A zero-amount mint alters no balance and leaves the supply alone,
/// whatever the parties and the prior state.
pub proof fn lemma_mint_zero_is_noop(pre: Ledger, caller: Seq<u8>, to: Seq<u8>, o: Seq<u8>)
    ensures
        mint_result_balance(pre, caller, to, 0, o) == pre.balance(o),
        mint_result_supply(pre, caller, 0) == pre.supply(),
{
}

/// A self-transfer leaves every balance unchanged, for any amount —
/// sufficient, insufficient, or zero.
pub proof fn lemma_self_transfer_identity(pre: Ledger, x: Seq<u8>, amount: u128, o: Seq<u8>)
    ensures
        transfer_result_balance(pre, x, x, amount, o) == pre.balance(o),
{
}

/// Asking for more than the held balance is never accepted: a transfer of
/// `amount` by `from` with `pre.balance(from) < amount` is rejected.
pub proof fn lemma_insufficient_funds_rejected(pre: Ledger, from: Seq<u8>, amount: u128)
    requires
        pre.balance(from) < amount,
    ensures
        !transfer_accepted(pre, from, amount),
{
}

/// A positive mint by anyone but the issuer is rejected, and a rejected
/// mint changes no balance and no supply.
pub proof fn lemma_mint_unauthorized(
    pre: Ledger,
    caller: Seq<u8>,
    to: Seq<u8>,
    amount: u128,
    o: Seq<u8>,
)
    requires
        caller != pre.issuer_id(),
        amount > 0,
    ensures
        !mint_accepted(pre, caller, amount),
        mint_result_balance(pre, caller, to, amount, o) == pre.balance(o),
        mint_result_supply(pre, caller, amount) == pre.supply(),
{
}

/// A mint by the issuer raises the recipient's balance and the total supply
/// by exactly `amount`, provided the supply does not pass the 128-bit bound
/// (at that bound both saturate instead).
pub proof fn lemma_issuer_mint_exact(pre: Ledger, to: Seq<u8>, amount: u128)
    requires
        pre.conserved(),
        pre.supply() + amount <= u128::MAX,
    ensures
        mint_accepted(pre, pre.issuer_id(), amount),
        mint_result_balance(pre, pre.issuer_id(), to, amount, to) == pre.balance(to) + amount,
        mint_result_supply(pre, pre.issuer_id(), amount) == pre.supply() + amount,
{
    pre.lemma_balance_le_supply(to);
}

/// An identity that is neither the sender nor the recipient keeps its
/// balance across any transfer.
pub proof fn lemma_transfer_leaves_others(
    pre: Ledger,
    caller: Seq<u8>,
    to: Seq<u8>,
    amount: u128,
    o: Seq<u8>,
)
    requires
        o != caller,
        o != to,
    ensures
        transfer_result_balance(pre, caller, to, amount, o) == pre.balance(o),
{
}

/// An identity other than the recipient keeps its balance across any mint.
pub proof fn lemma_mint_leaves_others(
    pre: Ledger,
    caller: Seq<u8>,
    to: Seq<u8>,
    amount: u128,
    o: Seq<u8>,
)
    requires
        o != to,
    ensures
        mint_result_balance(pre, caller, to, amount, o) == pre.balance(o),
{
}

} // verus!
