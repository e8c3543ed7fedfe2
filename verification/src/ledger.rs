//! The balance-ledger state machine.
//!
//! A [`Ledger`] owns a total supply, a sparse table of per-owner balances,
//! immutable token metadata, and the issuer identity recorded at
//! initialization. Two operations mutate it — [`Ledger::transfer`] and
//! [`Ledger::mint`] — and both keep the conservation law: the recorded total
//! supply equals the sum of all recorded balances (see [`Ledger::conserved`]).
//!
//! Balances are sparse: an owner without a recorded entry holds zero, and a
//! zero balance is never required to be stored.

use vstd::prelude::*;

use crate::identity::Identity;
use vstd::string::StringExecFns;

verus! {

/// Fixed initial supply, in base units, credited in full to the identity
/// that initializes the ledger.
pub const INITIAL_SUPPLY: u128 = 100_000_000_000_000;

/// Token metadata: purely descriptive, fixed at construction. `decimals` is
/// a precision exponent and is not enforced against balance values.
pub struct Metadata {
    pub name: String,
    pub symbol: String,
    pub decimals: u8,
}

impl Clone for Metadata {
    fn clone(&self) -> (r: Self)
        ensures
            r == *self,
    {
        Metadata {
            name: self.name.clone(),
            symbol: self.symbol.clone(),
            decimals: self.decimals,
        }
    }
}

/// The two ways a mutating operation can fail. A failed operation changes
/// nothing.
#[derive(Clone, Copy, Debug, PartialEq, Eq, Structural)]
pub enum LedgerError {
    /// A transfer asked for more than the sender currently holds.
    InsufficientBalance,
    /// A mint was attempted by an identity other than the issuer.
    Unauthorized,
}

impl LedgerError {
    /// A human-readable description of the failure.
    pub fn describe(&self) -> (r: String)
        ensures
            *self is InsufficientBalance ==> r@ == "Insufficient balance"@,
            *self is Unauthorized ==> r@ == "Only the creator can mint tokens"@,
    {
        match self {
            LedgerError::InsufficientBalance => String::from_str("Insufficient balance"),
            LedgerError::Unauthorized => String::from_str("Only the creator can mint tokens"),
        }
    }
}

/// One recorded balance: an owner and the amount it holds.
struct BalanceEntry {
    owner: Identity,
    amount: u128,
}

/// The balance recorded for `owner` in `entries`, zero when absent.
spec fn lookup(entries: Seq<BalanceEntry>, owner: Seq<u8>) -> u128
    decreases entries.len(),
{
    if entries.len() == 0 {
        0
    } else if entries.last().owner@ == owner {
        entries.last().amount
    } else {
        lookup(entries.drop_last(), owner)
    }
}

/// The sum of all amounts recorded in `entries`.
spec fn total_amount(entries: Seq<BalanceEntry>) -> int
    decreases entries.len(),
{
    if entries.len() == 0 {
        0
    } else {
        total_amount(entries.drop_last()) + entries.last().amount
    }
}

/// At most one entry per owner.
spec fn unique_owners(entries: Seq<BalanceEntry>) -> bool {
    forall|i: int, j: int|
        0 <= i < j < entries.len() ==> entries[i].owner@ != entries[j].owner@
}

proof fn lemma_total_nonneg(entries: Seq<BalanceEntry>)
    ensures
        total_amount(entries) >= 0,
    decreases entries.len(),
{
    if entries.len() > 0 {
        lemma_total_nonneg(entries.drop_last());
    }
}

/// Any single recorded balance is at most the sum of all of them.
proof fn lemma_lookup_le_total(entries: Seq<BalanceEntry>, owner: Seq<u8>)
    ensures
        lookup(entries, owner) <= total_amount(entries),
    decreases entries.len(),
{
    if entries.len() > 0 {
        if entries.last().owner@ == owner {
            lemma_total_nonneg(entries.drop_last());
        } else {
            lemma_lookup_le_total(entries.drop_last(), owner);
        }
    }
}

/// With unique owners, the entry at any matching index gives the lookup.
proof fn lemma_lookup_at(entries: Seq<BalanceEntry>, i: int, owner: Seq<u8>)
    requires
        unique_owners(entries),
        0 <= i < entries.len(),
        entries[i].owner@ == owner,
    ensures
        lookup(entries, owner) == entries[i].amount,
    decreases entries.len(),
{
    if i < entries.len() - 1 {
        assert(entries.last().owner@ != owner);
        lemma_lookup_at(entries.drop_last(), i, owner);
    }
}

/// An owner matched by no entry has a zero lookup.
proof fn lemma_lookup_absent(entries: Seq<BalanceEntry>, owner: Seq<u8>)
    requires
        forall|k: int| 0 <= k < entries.len() ==> entries[k].owner@ != owner,
    ensures
        lookup(entries, owner) == 0,
    decreases entries.len(),
{
    if entries.len() > 0 {
        lemma_lookup_absent(entries.drop_last(), owner);
    }
}

/// Replacing the entry at `i` moves the sum by the difference of amounts.
proof fn lemma_total_update(entries: Seq<BalanceEntry>, i: int, e: BalanceEntry)
    requires
        0 <= i < entries.len(),
    ensures
        total_amount(entries.update(i, e)) == total_amount(entries) - entries[i].amount
            + e.amount,
    decreases entries.len(),
{
    let updated = entries.update(i, e);
    if i == entries.len() - 1 {
        assert(updated.drop_last() =~= entries.drop_last());
    } else {
        assert(updated.drop_last() =~= entries.drop_last().update(i, e));
        lemma_total_update(entries.drop_last(), i, e);
    }
}

/// Replacing an entry whose old and new owner both differ from `o` leaves
/// the lookup of `o` unchanged.
proof fn lemma_lookup_update_other(entries: Seq<BalanceEntry>, i: int, e: BalanceEntry, o: Seq<u8>)
    requires
        0 <= i < entries.len(),
        entries[i].owner@ != o,
        e.owner@ != o,
    ensures
        lookup(entries.update(i, e), o) == lookup(entries, o),
    decreases entries.len(),
{
    let updated = entries.update(i, e);
    if i == entries.len() - 1 {
        assert(updated.drop_last() =~= entries.drop_last());
    } else {
        assert(updated.drop_last() =~= entries.drop_last().update(i, e));
        lemma_lookup_update_other(entries.drop_last(), i, e, o);
    }
}

/// Scans `entries` for `owner`; with unique owners the result is the lookup.
fn read_balance(entries: &Vec<BalanceEntry>, owner: &Identity) -> (r: u128)
    requires
        unique_owners(entries@),
    ensures
        r == lookup(entries@, owner@),
{
    let mut i: usize = 0;
    while i < entries.len()
        invariant
            unique_owners(entries@),
            i <= entries@.len(),
            forall|k: int| 0 <= k < i ==> entries@[k].owner@ != owner@,
        decreases entries@.len() - i,
    {
        if entries[i].owner == *owner {
            proof {
                lemma_lookup_at(entries@, i as int, owner@);
            }
            return entries[i].amount;
        }
        i += 1;
    }
    proof {
        lemma_lookup_absent(entries@, owner@);
    }
    0
}

/// Records `amount` for `owner`, replacing its entry or appending a new one.
fn write_balance(entries: &mut Vec<BalanceEntry>, owner: &Identity, amount: u128)
    requires
        unique_owners(old(entries)@),
    ensures
        unique_owners(final(entries)@),
        lookup(final(entries)@, owner@) == amount,
        forall|o: Seq<u8>| o != owner@ ==> lookup(final(entries)@, o) == lookup(old(entries)@, o),
        total_amount(final(entries)@) == total_amount(old(entries)@) - lookup(
            old(entries)@,
            owner@,
        ) + amount,
{
    let ghost orig = entries@;
    let mut i: usize = 0;
    while i < entries.len()
        invariant
            orig == old(entries)@,
            entries@ == orig,
            unique_owners(orig),
            i <= orig.len(),
            forall|k: int| 0 <= k < i ==> orig[k].owner@ != owner@,
        decreases orig.len() - i,
    {
        if entries[i].owner == *owner {
            let e = BalanceEntry { owner: owner.clone(), amount };
            entries.set(i, e);
            proof {
                assert(entries@ =~= orig.update(i as int, e));
                lemma_lookup_at(orig, i as int, owner@);
                lemma_total_update(orig, i as int, e);
                assert(unique_owners(entries@));
                lemma_lookup_at(entries@, i as int, owner@);
                assert forall|o: Seq<u8>| o != owner@ implies lookup(entries@, o) == lookup(
                    orig,
                    o,
                ) by {
                    lemma_lookup_update_other(orig, i as int, e, o);
                }
            }
            return ;
        }
        i += 1;
    }
    let e = BalanceEntry { owner: owner.clone(), amount };
    proof {
        lemma_lookup_absent(orig, owner@);
        let appended = orig.push(e);
        assert(appended.drop_last() =~= orig);
        assert(unique_owners(appended));
        assert(lookup(appended, owner@) == amount);
        assert(total_amount(appended) == total_amount(orig) + amount);
        assert forall|o: Seq<u8>| o != owner@ implies lookup(appended, o) == lookup(
            orig,
            o,
        ) by {
            assert(appended.last().owner@ != o);
        }
    }
    entries.push(e);
}

/// The single-asset ledger: total supply, sparse per-owner balances, fixed
/// metadata, and the issuer identity with exclusive minting authority.
pub struct Ledger {
    metadata: Metadata,
    total_supply: u128,
    balances: Vec<BalanceEntry>,
    issuer: Identity,
}

impl Ledger {
    /// Well-formedness: the balance table holds at most one entry per owner.
    pub closed spec fn wf(self) -> bool {
        unique_owners(self.balances@)
    }

    /// The balance held by `owner`: the recorded amount, zero when absent.
    pub closed spec fn balance(self, owner: Seq<u8>) -> u128 {
        lookup(self.balances@, owner)
    }

    /// The recorded total supply.
    pub closed spec fn supply(self) -> u128 {
        self.total_supply
    }

    /// The identity holding exclusive minting authority.
    pub closed spec fn issuer_id(self) -> Seq<u8> {
        self.issuer@
    }

    /// The token metadata.
    pub closed spec fn meta(self) -> Metadata {
        self.metadata
    }

    /// The conservation law: the recorded total supply equals the sum of all
    /// recorded balances.
    pub closed spec fn conserved(self) -> bool {
        self.total_supply == total_amount(self.balances@)
    }

    /// No balance has been recorded yet: the state of a ledger before
    /// initialization.
    pub closed spec fn no_accounts(self) -> bool {
        self.balances@.len() == 0
    }

    /// Under conservation, no single balance exceeds the total supply.
    pub proof fn lemma_balance_le_supply(self, owner: Seq<u8>)
        requires
            self.conserved(),
        ensures
            self.balance(owner) <= self.supply(),
    {
        lemma_lookup_le_total(self.balances@, owner);
    }

    /// One-time initialization by `deployer`: records `deployer` as the
    /// issuer and credits it with the whole supply. On a fresh ledger this
    /// establishes the conservation law for the first time.
    pub fn init(&mut self, deployer: &Identity)
        requires
            old(self).wf(),
        ensures
            final(self).wf(),
            final(self).issuer_id() == deployer@,
            final(self).supply() == old(self).supply(),
            final(self).meta() == old(self).meta(),
            final(self).balance(deployer@) == old(self).supply(),
            forall|o: Seq<u8>| o != deployer@ ==> final(self).balance(o) == old(self).balance(o),
            old(self).no_accounts() ==> final(self).conserved(),
    {
        let total = self.total_supply;
        self.issuer = deployer.clone();
        write_balance(&mut self.balances, deployer, total);
    }

    /// A copy of the token metadata.
    pub fn get_metadata(&self) -> (r: Metadata)
        ensures
            r == self.meta(),
    {
        self.metadata.clone()
    }

    /// The current total supply.
    pub fn total_supply(&self) -> (r: u128)
        ensures
            r == self.supply(),
    {
        self.total_supply
    }

    /// The balance of `owner`, zero for an owner never seen before. Total:
    /// it never fails, whatever the identity.
    pub fn balance_of(&self, owner: &Identity) -> (r: u128)
        requires
            self.wf(),
        ensures
            r == self.balance(owner@),
    {
        read_balance(&self.balances, owner)
    }

    /// The issuer identity recorded at initialization.
    pub fn get_creator(&self) -> (r: &Identity)
        ensures
            r@ == self.issuer_id(),
    {
        &self.issuer
    }

    /// Moves `amount` from the authenticated caller to `to`.
    ///
    /// A zero amount always succeeds and changes nothing. Otherwise the
    /// caller must hold at least `amount`, or the operation fails with
    /// [`LedgerError::InsufficientBalance`] and changes nothing. A
    /// self-transfer succeeds (given sufficient funds) and leaves every
    /// balance as it was. The total supply never changes.
    pub fn transfer(&mut self, caller: &Identity, to: &Identity, amount: u128) -> (r: Result<
        (),
        LedgerError,
    >)
        requires
            old(self).wf(),
        ensures
            final(self).wf(),
            final(self).supply() == old(self).supply(),
            final(self).issuer_id() == old(self).issuer_id(),
            final(self).meta() == old(self).meta(),
            r is Ok <==> transfer_accepted(*old(self), caller@, amount),
            r is Err ==> r == Err::<(), LedgerError>(LedgerError::InsufficientBalance)
                && *final(self) == *old(self),
            amount == 0 ==> *final(self) == *old(self),
            forall|o: Seq<u8>|
                final(self).balance(o) == transfer_result_balance(
                    *old(self),
                    caller@,
                    to@,
                    amount,
                    o,
                ),
            old(self).conserved() ==> final(self).conserved(),
    {
        if amount == 0 {
            return Ok(());
        }
        let from_bal = read_balance(&self.balances, caller);
        if from_bal < amount {
            return Err(LedgerError::InsufficientBalance);
        }
        write_balance(&mut self.balances, caller, from_bal - amount);
        let to_bal = read_balance(&self.balances, to);
        proof {
            // In the intermediate state the whole sum has already dropped by
            // `amount`, so crediting the recipient cannot pass the old sum:
            // under conservation the saturating add never actually clamps.
            lemma_lookup_le_total(self.balances@, to@);
        }
        write_balance(&mut self.balances, to, to_bal.saturating_add(amount));
        Ok(())
    }

    /// Mints `amount` new base units to `to`.
    ///
    /// A zero amount always succeeds and changes nothing. Otherwise only the
    /// issuer may mint; any other caller fails with
    /// [`LedgerError::Unauthorized`] and changes nothing. On success the
    /// recipient's balance and the total supply both grow by `amount`,
    /// saturating at the 128-bit boundary; short of that boundary the
    /// conservation law is preserved exactly.
    pub fn mint(&mut self, caller: &Identity, to: &Identity, amount: u128) -> (r: Result<
        (),
        LedgerError,
    >)
        requires
            old(self).wf(),
        ensures
            final(self).wf(),
            final(self).issuer_id() == old(self).issuer_id(),
            final(self).meta() == old(self).meta(),
            r is Ok <==> mint_accepted(*old(self), caller@, amount),
            r is Err ==> r == Err::<(), LedgerError>(LedgerError::Unauthorized) && *final(self)
                == *old(self),
            amount == 0 ==> *final(self) == *old(self),
            forall|o: Seq<u8>|
                final(self).balance(o) == mint_result_balance(*old(self), caller@, to@, amount, o),
            final(self).supply() == mint_result_supply(*old(self), caller@, amount),
            old(self).conserved() && old(self).supply() + amount <= u128::MAX
                ==> final(self).conserved(),
    {
        if amount == 0 {
            return Ok(());
        }
        if !(*caller == self.issuer) {
            return Err(LedgerError::Unauthorized);
        }
        let to_bal = read_balance(&self.balances, to);
        write_balance(&mut self.balances, to, to_bal.saturating_add(amount));
        self.total_supply = self.total_supply.saturating_add(amount);
        proof {
            if old(self).conserved() {
                lemma_lookup_le_total(old(self).balances@, to@);
            }
        }
        Ok(())
    }
}

impl Default for Ledger {
    /// A fresh, uninitialized ledger: fixed metadata, the full initial
    /// supply not yet credited to anyone, the anonymous identity standing
    /// in for the issuer until [`Ledger::init`] replaces it.
    fn default() -> (r: Self)
        ensures
            r.wf(),
            r.no_accounts(),
            r.supply() == INITIAL_SUPPLY,
            r.issuer_id() == seq![4u8],
            forall|o: Seq<u8>| r.balance(o) == 0,
            r.meta().name@ == "Hero"@,
            r.meta().symbol@ == "HERO"@,
            r.meta().decimals == 8,
    {
        Ledger {
            metadata: Metadata {
                name: String::from_str("Hero"),
                symbol: String::from_str("HERO"),
                decimals: 8,
            },
            total_supply: INITIAL_SUPPLY,
            balances: Vec::new(),
            issuer: Identity::anonymous(),
        }
    }
}

/// Whether a transfer of `amount` by `caller` is accepted: a zero amount
/// always is, a positive one exactly when the caller holds at least it.
pub open spec fn transfer_accepted(pre: Ledger, caller: Seq<u8>, amount: u128) -> bool {
    amount == 0 || pre.balance(caller) >= amount
}

/// The balance of `o` after `caller` transfers `amount` to `to` from state
/// `pre`: a rejected or zero-amount or self-transfer changes nothing; else
/// the caller's balance drops by `amount` and the recipient's grows by it.
pub open spec fn transfer_result_balance(
    pre: Ledger,
    caller: Seq<u8>,
    to: Seq<u8>,
    amount: u128,
    o: Seq<u8>,
) -> u128 {
    if !transfer_accepted(pre, caller, amount) || amount == 0 || caller == to {
        pre.balance(o)
    } else if o == caller {
        (pre.balance(caller) - amount) as u128
    } else if o == to {
        pre.balance(o).saturating_add(amount)
    } else {
        pre.balance(o)
    }
}

/// Whether a mint of `amount` by `caller` is accepted: a zero amount always
/// is, a positive one exactly for the issuer.
pub open spec fn mint_accepted(pre: Ledger, caller: Seq<u8>, amount: u128) -> bool {
    amount == 0 || caller == pre.issuer_id()
}

/// The balance of `o` after `caller` mints `amount` to `to` from state
/// `pre`: a rejected or zero-amount mint changes nothing; else the
/// recipient's balance grows by `amount`, saturating at the 128-bit bound.
pub open spec fn mint_result_balance(
    pre: Ledger,
    caller: Seq<u8>,
    to: Seq<u8>,
    amount: u128,
    o: Seq<u8>,
) -> u128 {
    if amount == 0 || caller != pre.issuer_id() {
        pre.balance(o)
    } else if o == to {
        pre.balance(o).saturating_add(amount)
    } else {
        pre.balance(o)
    }
}

/// The total supply after `caller` mints `amount` from state `pre`: grown by
/// `amount` for an accepted positive mint, saturating at the 128-bit bound.
pub open spec fn mint_result_supply(pre: Ledger, caller: Seq<u8>, amount: u128) -> u128 {
    if amount == 0 || caller != pre.issuer_id() {
        pre.supply()
    } else {
        pre.supply().saturating_add(amount)
    }
}

} // verus!
