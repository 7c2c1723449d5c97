//! The ledger the escrow lives on: holding accounts with their owners, asset
//! classes with their controllers, balances per account and asset class, and
//! the escrow records. Its three asset operations are the ones the
//! transitions are built from: transfer, mint one unit, close an account.
//!
//! An operation allows a request where the authority that the request names
//! is the one in control. A party stands behind its own requests. Behind a
//! derived authority stands no key: the transitions of an escrow alone make
//! requests in its name, and the operations that this file offers to
//! everyone refuse them.

use vstd::prelude::*;
use crate::address::Address;
use crate::errors::EscrowError;
use crate::state::Escrow;
use crate::table::{Key, Table};

verus! {

/// Who controls an account or an asset class, and who stands behind a
/// request: a party that signs for itself, or an address derived for an
/// escrow.
#[derive(Clone, Copy, Debug, PartialEq, Eq)]
pub struct Authority {
    pub address: Address,
    pub derived: bool,
}

impl Authority {
    /// The party at `address`.
    pub open spec fn spec_party(address: Address) -> Authority {
        Authority { address, derived: false }
    }

    /// The derived authority at `address`.
    pub open spec fn spec_derived(address: Address) -> Authority {
        Authority { address, derived: true }
    }

    pub fn party(address: Address) -> (a: Authority)
        ensures
            a == Authority::spec_party(address),
    {
        Authority { address, derived: false }
    }

    pub fn derived(address: Address) -> (a: Authority)
        ensures
            a == Authority::spec_derived(address),
    {
        Authority { address, derived: true }
    }
}

impl Key for Authority {
    fn same(&self, other: &Authority) -> (r: bool) {
        self.address.same(&other.address) && self.derived == other.derived
    }
}

/// What a balance is kept for: one asset class in one holding account.
#[derive(Clone, Copy, Debug, PartialEq, Eq)]
pub struct Slot {
    pub holder: Address,
    pub asset: Address,
}

impl Key for Slot {
    fn same(&self, other: &Slot) -> (r: bool) {
        self.holder.same(&other.holder) && self.asset.same(&other.asset)
    }
}

/// A request to move `amount` units of `asset` from one holding account to
/// another, on the word of `authority`.
#[derive(Clone, Copy, Debug, PartialEq, Eq)]
pub struct Transfer {
    pub from: Address,
    pub to: Address,
    pub authority: Authority,
    pub asset: Address,
    pub amount: u64,
}

/// A request to issue one new unit of `asset` into a holding account, on the
/// word of `authority`.
#[derive(Clone, Copy, Debug, PartialEq, Eq)]
pub struct MintOne {
    pub asset: Address,
    pub to: Address,
    pub authority: Authority,
}

/// A request to close a holding account, on the word of `authority`.
/// `destination` names who takes back the storage deposit, which the ledger
/// of this library does not track.
#[derive(Clone, Copy, Debug, PartialEq, Eq)]
pub struct CloseAccount {
    pub account: Address,
    pub destination: Address,
    pub authority: Authority,
}

/// The ledger as four maps.
#[verifier::ext_equal]
pub struct LedgerView {
    /// Each open holding account, with its owner.
    pub accounts: Map<Address, Authority>,
    /// Each asset class, with the authority that may issue it.
    pub assets: Map<Address, Authority>,
    /// Units held, per account and asset class; nothing stored means zero.
    pub balances: Map<Slot, u64>,
    /// Each live escrow record, by its address.
    pub records: Map<Address, Escrow>,
}

impl LedgerView {
    /// Units of `asset` held at `holder`.
    pub open spec fn balance(self, holder: Address, asset: Address) -> u64 {
        let slot = Slot { holder, asset };
        if self.balances.contains_key(slot) {
            self.balances[slot]
        } else {
            0
        }
    }

    /// `account` is open and `owner` owns it.
    pub open spec fn owned_by(self, account: Address, owner: Authority) -> bool {
        self.accounts.contains_key(account) && self.accounts[account] == owner
    }

    /// `asset` is an asset class that `controller` may issue.
    pub open spec fn issued_by(self, asset: Address, controller: Authority) -> bool {
        self.assets.contains_key(asset) && self.assets[asset] == controller
    }

    /// The ledger with `amount` more units of `asset` at `holder`.
    pub open spec fn credit(self, holder: Address, asset: Address, amount: u64) -> LedgerView {
        LedgerView {
            balances: self.balances.insert(
                Slot { holder, asset },
                (self.balance(holder, asset) + amount) as u64,
            ),
            ..self
        }
    }

    /// The ledger with `amount` fewer units of `asset` at `holder`.
    pub open spec fn debit(self, holder: Address, asset: Address, amount: u64) -> LedgerView {
        LedgerView {
            balances: self.balances.insert(
                Slot { holder, asset },
                (self.balance(holder, asset) - amount) as u64,
            ),
            ..self
        }
    }

    /// The transfer is allowed: the source is open and owned by the
    /// authority, the destination is open, the source holds the amount and
    /// the destination has room for it.
    pub open spec fn can_transfer(self, t: Transfer) -> bool {
        &&& self.owned_by(t.from, t.authority)
        &&& self.accounts.contains_key(t.to)
        &&& t.amount <= self.balance(t.from, t.asset)
        &&& t.from != t.to ==> self.balance(t.to, t.asset) + t.amount <= u64::MAX
    }

    /// The ledger after an allowed transfer. A transfer from an account to
    /// itself changes nothing.
    pub open spec fn transfer(self, t: Transfer) -> LedgerView {
        if t.from == t.to {
            self
        } else {
            self.debit(t.from, t.asset, t.amount).credit(t.to, t.asset, t.amount)
        }
    }

    /// Issuing is allowed: the authority controls the asset class, the
    /// destination is open and has room for the amount.
    pub open spec fn can_issue(
        self,
        asset: Address,
        to: Address,
        authority: Authority,
        amount: u64,
    ) -> bool {
        &&& self.issued_by(asset, authority)
        &&& self.accounts.contains_key(to)
        &&& self.balance(to, asset) + amount <= u64::MAX
    }

    /// Issuing the one unit of the request is allowed.
    pub open spec fn can_mint_one(self, m: MintOne) -> bool {
        self.can_issue(m.asset, m.to, m.authority, 1)
    }

    /// The ledger after one unit was issued.
    pub open spec fn mint_one(self, m: MintOne) -> LedgerView {
        self.credit(m.to, m.asset, 1)
    }

    /// Closing is allowed: the account is open and owned by the authority.
    pub open spec fn can_close(self, c: CloseAccount) -> bool {
        self.owned_by(c.account, c.authority)
    }

    /// The ledger after the account was closed.
    pub open spec fn close(self, c: CloseAccount) -> LedgerView {
        LedgerView { accounts: self.accounts.remove(c.account), ..self }
    }

    /// The ledger with a new holding account.
    pub open spec fn open(self, account: Address, owner: Authority) -> LedgerView {
        LedgerView { accounts: self.accounts.insert(account, owner), ..self }
    }

    /// The ledger with a new asset class.
    pub open spec fn register(self, asset: Address, controller: Authority) -> LedgerView {
        LedgerView { assets: self.assets.insert(asset, controller), ..self }
    }

    /// The ledger with a record stored at `escrow`.
    pub open spec fn put_record(self, escrow: Address, record: Escrow) -> LedgerView {
        LedgerView { records: self.records.insert(escrow, record), ..self }
    }

    /// The ledger without the record at `escrow`.
    pub open spec fn drop_record(self, escrow: Address) -> LedgerView {
        LedgerView { records: self.records.remove(escrow), ..self }
    }
}

/// What an operation that may be refused leaves behind: the new ledger where
/// it was allowed, and the old one with `ConstraintViolation` where not.
pub open spec fn settled(
    allowed: bool,
    before: LedgerView,
    after: LedgerView,
    r: Result<(), EscrowError>,
    now: LedgerView,
) -> bool {
    if allowed {
        r == Ok::<(), EscrowError>(()) && now == after
    } else {
        r == Err::<(), EscrowError>(EscrowError::ConstraintViolation) && now == before
    }
}

/// The ledger, as it is kept at run time.
pub struct Ledger {
    accounts: Table<Address, Authority>,
    assets: Table<Address, Authority>,
    balances: Table<Slot, u64>,
    records: Table<Address, Escrow>,
}

impl View for Ledger {
    type V = LedgerView;

    closed spec fn view(&self) -> LedgerView {
        LedgerView {
            accounts: self.accounts@,
            assets: self.assets@,
            balances: self.balances@,
            records: self.records@,
        }
    }
}

impl Ledger {
    /// Each of the four tables is in order, and every record offers one
    /// unit.
    pub closed spec fn wf(&self) -> bool {
        &&& self.accounts.wf()
        &&& self.assets.wf()
        &&& self.balances.wf()
        &&& self.records.wf()
        &&& forall|a: Address| #[trigger]
            self.records@.contains_key(a) ==> self.records@[a].wf()
    }

    /// A ledger with no account, no asset class, no balance and no record.
    pub fn new() -> (l: Ledger)
        ensures
            l.wf(),
            l@.accounts == Map::<Address, Authority>::empty(),
            l@.assets == Map::<Address, Authority>::empty(),
            l@.balances == Map::<Slot, u64>::empty(),
            l@.records == Map::<Address, Escrow>::empty(),
    {
        Ledger {
            accounts: Table::new(),
            assets: Table::new(),
            balances: Table::new(),
            records: Table::new(),
        }
    }

    /// Units of `asset` held at `holder`.
    pub fn balance(&self, holder: &Address, asset: &Address) -> (b: u64)
        requires
            self.wf(),
        ensures
            b == self@.balance(*holder, *asset),
    {
        match self.balances.get(&Slot { holder: *holder, asset: *asset }) {
            Some(b) => b,
            None => 0,
        }
    }

    /// The owner of a holding account, if the account is open.
    pub fn owner_of(&self, account: &Address) -> (o: Option<Authority>)
        requires
            self.wf(),
        ensures
            o == (if self@.accounts.contains_key(*account) {
                Some(self@.accounts[*account])
            } else {
                None
            }),
    {
        self.accounts.get(account)
    }

    /// The authority that may issue an asset class, if the class is known.
    pub fn controller_of(&self, asset: &Address) -> (c: Option<Authority>)
        requires
            self.wf(),
        ensures
            c == (if self@.assets.contains_key(*asset) {
                Some(self@.assets[*asset])
            } else {
                None
            }),
    {
        self.assets.get(asset)
    }

    /// The escrow record at an address, if one is live there. A live
    /// record offers one unit.
    pub fn record(&self, escrow: &Address) -> (e: Option<Escrow>)
        requires
            self.wf(),
        ensures
            e == (if self@.records.contains_key(*escrow) {
                Some(self@.records[*escrow])
            } else {
                None
            }),
            e matches Some(record) ==> record.wf(),
    {
        self.records.get(escrow)
    }

    /// Whether `owner` owns the open account `account`.
    pub fn is_owned_by(&self, account: &Address, owner: &Authority) -> (r: bool)
        requires
            self.wf(),
        ensures
            r == self@.owned_by(*account, *owner),
    {
        match self.accounts.get(account) {
            Some(o) => o.same(owner),
            None => false,
        }
    }

    /// Whether `controller` may issue the asset class `asset`.
    pub fn is_issued_by(&self, asset: &Address, controller: &Authority) -> (r: bool)
        requires
            self.wf(),
        ensures
            r == self@.issued_by(*asset, *controller),
    {
        match self.assets.get(asset) {
            Some(c) => c.same(controller),
            None => false,
        }
    }

    /// Opens a holding account for an owner of either kind.
    pub(crate) fn open_for(&mut self, account: Address, owner: Authority) -> (r: Result<
        (),
        EscrowError,
    >)
        requires
            old(self).wf(),
        ensures
            final(self).wf(),
            settled(
                !old(self)@.accounts.contains_key(account),
                old(self)@,
                old(self)@.open(account, owner),
                r,
                final(self)@,
            ),
    {
        match self.accounts.get(&account) {
            Some(_) => Err(EscrowError::ConstraintViolation),
            None => {
                self.accounts.set(account, owner);
                Ok(())
            },
        }
    }

    /// Issues units on the word of an authority of either kind.
    pub(crate) fn issue_for(
        &mut self,
        asset: &Address,
        to: &Address,
        authority: &Authority,
        amount: u64,
    ) -> (r: Result<(), EscrowError>)
        requires
            old(self).wf(),
        ensures
            final(self).wf(),
            settled(
                old(self)@.can_issue(*asset, *to, *authority, amount),
                old(self)@,
                old(self)@.credit(*to, *asset, amount),
                r,
                final(self)@,
            ),
    {
        if !self.is_issued_by(asset, authority) || self.accounts.get(to).is_none() {
            return Err(EscrowError::ConstraintViolation);
        }
        let held = self.balance(to, asset);
        if amount > u64::MAX - held {
            return Err(EscrowError::ConstraintViolation);
        }
        self.balances.set(Slot { holder: *to, asset: *asset }, held + amount);
        Ok(())
    }

    /// Moves units on the word of an authority of either kind.
    pub(crate) fn transfer_for(&mut self, t: &Transfer) -> (r: Result<(), EscrowError>)
        requires
            old(self).wf(),
        ensures
            final(self).wf(),
            settled(
                old(self)@.can_transfer(*t),
                old(self)@,
                old(self)@.transfer(*t),
                r,
                final(self)@,
            ),
    {
        if !self.is_owned_by(&t.from, &t.authority) || self.accounts.get(&t.to).is_none() {
            return Err(EscrowError::ConstraintViolation);
        }
        let held = self.balance(&t.from, &t.asset);
        if t.amount > held {
            return Err(EscrowError::ConstraintViolation);
        }
        if t.from.same(&t.to) {
            return Ok(());
        }
        let there = self.balance(&t.to, &t.asset);
        if t.amount > u64::MAX - there {
            return Err(EscrowError::ConstraintViolation);
        }
        self.balances.set(Slot { holder: t.from, asset: t.asset }, held - t.amount);
        self.balances.set(Slot { holder: t.to, asset: t.asset }, there + t.amount);
        Ok(())
    }

    /// Closes an account on the word of an authority of either kind.
    pub(crate) fn close_for(&mut self, c: &CloseAccount) -> (r: Result<(), EscrowError>)
        requires
            old(self).wf(),
        ensures
            final(self).wf(),
            settled(
                old(self)@.can_close(*c),
                old(self)@,
                old(self)@.close(*c),
                r,
                final(self)@,
            ),
    {
        if !self.is_owned_by(&c.account, &c.authority) {
            return Err(EscrowError::ConstraintViolation);
        }
        self.accounts.remove(&c.account);
        Ok(())
    }

    /// Opens a holding account for the party `owner`. Refused where the
    /// address already holds an open account.
    pub fn open_account(&mut self, account: Address, owner: Address) -> (r: Result<(), EscrowError>)
        requires
            old(self).wf(),
        ensures
            final(self).wf(),
            settled(
                !old(self)@.accounts.contains_key(account),
                old(self)@,
                old(self)@.open(account, Authority::spec_party(owner)),
                r,
                final(self)@,
            ),
    {
        self.open_for(account, Authority::party(owner))
    }

    /// Makes `asset` an asset class that `controller` may issue. Refused
    /// where the class is already known.
    pub fn register_asset(&mut self, asset: Address, controller: Authority) -> (r: Result<
        (),
        EscrowError,
    >)
        requires
            old(self).wf(),
        ensures
            final(self).wf(),
            settled(
                !old(self)@.assets.contains_key(asset),
                old(self)@,
                old(self)@.register(asset, controller),
                r,
                final(self)@,
            ),
    {
        match self.assets.get(&asset) {
            Some(_) => Err(EscrowError::ConstraintViolation),
            None => {
                self.assets.set(asset, controller);
                Ok(())
            },
        }
    }

    /// Issues `amount` new units of `asset` into the account `to`, on the
    /// word of the party `issuer`.
    pub fn issue(&mut self, asset: &Address, to: &Address, issuer: &Address, amount: u64) -> (r:
        Result<(), EscrowError>)
        requires
            old(self).wf(),
        ensures
            final(self).wf(),
            settled(
                old(self)@.can_issue(*asset, *to, Authority::spec_party(*issuer), amount),
                old(self)@,
                old(self)@.credit(*to, *asset, amount),
                r,
                final(self)@,
            ),
    {
        self.issue_for(asset, to, &Authority::party(*issuer), amount)
    }

    /// Issues one new unit, as a party's request says. A request in the
    /// name of a derived authority is refused.
    pub fn mint_one(&mut self, m: &MintOne) -> (r: Result<(), EscrowError>)
        requires
            old(self).wf(),
        ensures
            final(self).wf(),
            settled(
                !m.authority.derived && old(self)@.can_mint_one(*m),
                old(self)@,
                old(self)@.mint_one(*m),
                r,
                final(self)@,
            ),
    {
        if m.authority.derived {
            return Err(EscrowError::ConstraintViolation);
        }
        self.issue_for(&m.asset, &m.to, &m.authority, 1)
    }

    /// Moves units between two accounts, as a party's request says. A
    /// request in the name of a derived authority is refused.
    pub fn transfer(&mut self, t: &Transfer) -> (r: Result<(), EscrowError>)
        requires
            old(self).wf(),
        ensures
            final(self).wf(),
            settled(
                !t.authority.derived && old(self)@.can_transfer(*t),
                old(self)@,
                old(self)@.transfer(*t),
                r,
                final(self)@,
            ),
    {
        if t.authority.derived {
            return Err(EscrowError::ConstraintViolation);
        }
        self.transfer_for(t)
    }

    /// Closes a holding account, as a party's request says. A request in
    /// the name of a derived authority is refused.
    pub fn close_account(&mut self, c: &CloseAccount) -> (r: Result<(), EscrowError>)
        requires
            old(self).wf(),
        ensures
            final(self).wf(),
            settled(
                !c.authority.derived && old(self)@.can_close(*c),
                old(self)@,
                old(self)@.close(*c),
                r,
                final(self)@,
            ),
    {
        if c.authority.derived {
            return Err(EscrowError::ConstraintViolation);
        }
        self.close_for(c)
    }

    /// Stores a record at `escrow`, replacing what was there.
    pub(crate) fn put_record(&mut self, escrow: Address, record: Escrow)
        requires
            old(self).wf(),
            record.wf(),
        ensures
            final(self).wf(),
            final(self)@ == old(self)@.put_record(escrow, record),
    {
        self.records.set(escrow, record);
    }

    /// Removes the record at `escrow`.
    pub(crate) fn drop_record(&mut self, escrow: &Address)
        requires
            old(self).wf(),
        ensures
            final(self).wf(),
            final(self)@ == old(self)@.drop_record(*escrow),
    {
        self.records.remove(escrow);
    }
}

} // verus!
