//! What holds of the four transitions, whatever the ledger and the call.

use vstd::prelude::*;
use crate::address::Address;
use crate::contexts::{Make, Refund, Take};
use crate::custody::{Custody, MakeCustody};
use crate::errors::EscrowError;
use crate::ledger::{Authority, LedgerView};

verus! {

/// Units of an escrow's two asset classes that lie at `holder`. Where the
/// two classes are one, its units are counted once.
pub open spec fn units(l: LedgerView, holder: Address, first: Address, second: Address) -> int {
    if first == second {
        l.balance(holder, first) as int
    } else {
        l.balance(holder, first) + l.balance(holder, second)
    }
}

/// `to` has room for all that `vault` holds of the two asset classes.
pub open spec fn has_room(
    l: LedgerView,
    vault: Address,
    to: Address,
    first: Address,
    second: Address,
) -> bool {
    &&& l.balance(to, first) + l.balance(vault, first) <= u64::MAX
    &&& l.balance(to, second) + l.balance(vault, second) <= u64::MAX
}

/// Emptying a vault into another open account succeeds exactly where that
/// account has room, and then moves every unit of the two asset classes: the
/// vault is left with none, the receiver gains what the vault held, and
/// accounts, asset classes and records stay as they were.
pub proof fn law_drain(
    l: LedgerView,
    vault: Address,
    to: Address,
    auth: Authority,
    first: Address,
    second: Address,
)
    requires
        l.owned_by(vault, auth),
        l.accounts.contains_key(to),
        to != vault,
    ensures
        l.drain(vault, to, auth, first, second) is Ok <==> has_room(l, vault, to, first, second),
        l.drain(vault, to, auth, first, second) matches Ok(post) ==> {
            &&& post.balance(vault, first) == 0
            &&& post.balance(vault, second) == 0
            &&& post.balance(to, first) == l.balance(to, first) + l.balance(vault, first)
            &&& post.balance(to, second) == l.balance(to, second) + l.balance(vault, second)
            &&& units(post, to, first, second) == units(l, to, first, second) + units(
                l,
                vault,
                first,
                second,
            )
            &&& post.accounts == l.accounts
            &&& post.assets == l.assets
            &&& post.records == l.records
        },
{
}

/// After a creation that succeeds, the vault holds exactly the deposit and
/// belongs to the authority; the nominated taker's new account holds one
/// more unit of the taker's asset class than lay at its address; the maker's
/// holding account holds the deposit less; and the record is stored with the
/// parties, asset classes, seed and timing of the call, an offer of one
/// unit, and the time of the call as its time of creation.
pub proof fn law_create(
    l: LedgerView,
    ctx: Make,
    seed: u64,
    deposit_amount: u64,
    expiry: u64,
    locking_period: u64,
    now: u64,
    custody: MakeCustody,
)
    ensures
        l.create(ctx, seed, deposit_amount, expiry, locking_period, now, custody) matches Ok(
            post,
        ) ==> {
            &&& units(post, ctx.vault, ctx.maker_mint, ctx.taker_mint) == deposit_amount
            &&& post.balance(ctx.vault, ctx.maker_mint) == deposit_amount
            &&& post.owned_by(ctx.vault, Authority::spec_derived(ctx.auth))
            &&& post.owned_by(ctx.taker_ata, Authority::spec_party(ctx.taker))
            &&& post.balance(ctx.taker_ata, ctx.taker_mint) == l.balance(
                ctx.taker_ata,
                ctx.taker_mint,
            ) + 1
            &&& post.balance(ctx.maker_ata, ctx.maker_mint) == l.balance(
                ctx.maker_ata,
                ctx.maker_mint,
            ) - deposit_amount
            &&& post.records.contains_key(ctx.escrow)
            &&& post.records[ctx.escrow].wf()
            &&& post.records[ctx.escrow].maker == ctx.maker
            &&& post.records[ctx.escrow].maker_mint == ctx.maker_mint
            &&& post.records[ctx.escrow].taker_mint == ctx.taker_mint
            &&& post.records[ctx.escrow].taker == ctx.taker
            &&& post.records[ctx.escrow].seed == seed
            &&& post.records[ctx.escrow].expiry == expiry
            &&& post.records[ctx.escrow].locking_period == locking_period
            &&& post.records[ctx.escrow].created_time == now
            &&& post.records[ctx.escrow].escrow_bump == custody.escrow.unwrap().bump
            &&& post.records[ctx.escrow].auth_bump == custody.auth.unwrap().bump
            &&& post.records[ctx.escrow].vault_bump == custody.vault.unwrap().bump
        },
{
}

/// An escrow's addresses follow from its maker and its seed alone: two
/// creations that succeed against the derived addresses, for one maker and
/// one seed, name the same record, the same asset class of the claim token,
/// the same authority and the same vault, on whatever ledgers and with
/// whatever deposits and timing.
pub proof fn law_addresses_follow_maker_and_seed(
    maker: Address,
    seed: u64,
    l: LedgerView,
    ctx: Make,
    deposit_amount: u64,
    expiry: u64,
    locking_period: u64,
    now: u64,
    other_l: LedgerView,
    other_ctx: Make,
    other_deposit: u64,
    other_expiry: u64,
    other_locking: u64,
    other_now: u64,
)
    requires
        ctx.maker == maker,
        other_ctx.maker == maker,
        l.create(
            ctx,
            seed,
            deposit_amount,
            expiry,
            locking_period,
            now,
            MakeCustody::spec_find(maker, seed, ctx.escrow),
        ) is Ok,
        other_l.create(
            other_ctx,
            seed,
            other_deposit,
            other_expiry,
            other_locking,
            other_now,
            MakeCustody::spec_find(maker, seed, other_ctx.escrow),
        ) is Ok,
    ensures
        ctx.escrow == other_ctx.escrow,
        ctx.taker_mint == other_ctx.taker_mint,
        ctx.auth == other_ctx.auth,
        ctx.vault == other_ctx.vault,
{
}

/// A maker has one live escrow under a seed: while a record is live at the
/// address named, no creation succeeds there, whatever else the call holds.
pub proof fn law_one_escrow_per_seed(
    l: LedgerView,
    ctx: Make,
    seed: u64,
    deposit_amount: u64,
    expiry: u64,
    locking_period: u64,
    now: u64,
    custody: MakeCustody,
)
    requires
        l.records.contains_key(ctx.escrow),
    ensures
        l.create(ctx, seed, deposit_amount, expiry, locking_period, now, custody) == Err::<
            LedgerView,
            EscrowError,
        >(EscrowError::ConstraintViolation),
{
}

/// A claim that names its accounts rightly comes from the nominated taker.
/// It is refused as expired exactly from the expiry on. Before the expiry
/// it succeeds wherever the taker's holding account has the unit and the
/// vault has room for it; the vault then holds one unit more of the taker's
/// asset class, the taker's account one less, and the record is untouched.
pub proof fn law_claim(l: LedgerView, ctx: Take, now: u64, custody: Custody)
    requires
        l.claim_accounts_ok(ctx, custody),
    ensures
        l.owned_by(ctx.taker_ata, Authority::spec_party(l.records[ctx.escrow].taker)),
        l.claim(ctx, now, custody) == Err::<LedgerView, EscrowError>(EscrowError::Expired) <==> now
            >= l.records[ctx.escrow].expiry,
        now < l.records[ctx.escrow].expiry && l.balance(ctx.taker_ata, ctx.taker_mint) >= 1
            && l.balance(ctx.vault, ctx.taker_mint) < u64::MAX ==> l.claim(
            ctx,
            now,
            custody,
        ) is Ok,
        l.claim(ctx, now, custody) matches Ok(post) ==> {
            &&& post.balance(ctx.vault, ctx.taker_mint) == l.balance(ctx.vault, ctx.taker_mint) + 1
            &&& post.balance(ctx.taker_ata, ctx.taker_mint) == l.balance(
                ctx.taker_ata,
                ctx.taker_mint,
            ) - 1
            &&& units(post, ctx.vault, ctx.maker_mint, ctx.taker_mint) == units(
                l,
                ctx.vault,
                ctx.maker_mint,
                ctx.taker_mint,
            ) + 1
            &&& post.records == l.records
            &&& post.accounts == l.accounts
            &&& post.assets == l.assets
        },
{
}

/// A settlement that names its accounts rightly pays into an account of the
/// nominated taker. It is refused as not yet unlockable exactly while the
/// time is short of the record's creation time plus its locking period. From
/// then on it succeeds wherever the taker's receiving account has room; the
/// whole of what the vault held is then in that account, the vault is empty
/// and closed, and the record is gone.
pub proof fn law_settle(l: LedgerView, ctx: Take, now: u64, custody: Custody)
    requires
        l.settle_accounts_ok(ctx, custody),
    ensures
        l.owned_by(ctx.taker_receive_ata, Authority::spec_party(l.records[ctx.escrow].taker)),
        l.settle(ctx, now, custody) == Err::<LedgerView, EscrowError>(
            EscrowError::NotYetUnlockable,
        ) <==> now < l.records[ctx.escrow].created_time + l.records[ctx.escrow].locking_period,
        now >= l.records[ctx.escrow].created_time + l.records[ctx.escrow].locking_period
            && has_room(l, ctx.vault, ctx.taker_receive_ata, ctx.maker_mint, ctx.taker_mint)
            ==> l.settle(ctx, now, custody) is Ok,
        l.settle(ctx, now, custody) matches Ok(post) ==> {
            &&& post.balance(ctx.taker_receive_ata, ctx.maker_mint) == l.balance(
                ctx.taker_receive_ata,
                ctx.maker_mint,
            ) + l.balance(ctx.vault, ctx.maker_mint)
            &&& units(post, ctx.taker_receive_ata, ctx.maker_mint, ctx.taker_mint) == units(
                l,
                ctx.taker_receive_ata,
                ctx.maker_mint,
                ctx.taker_mint,
            ) + units(l, ctx.vault, ctx.maker_mint, ctx.taker_mint)
            &&& units(post, ctx.vault, ctx.maker_mint, ctx.taker_mint) == 0
            &&& !post.accounts.contains_key(ctx.vault)
            &&& !post.records.contains_key(ctx.escrow)
        },
{
    let record = l.records[ctx.escrow];
    law_drain(
        l,
        ctx.vault,
        ctx.taker_receive_ata,
        Authority::spec_derived(ctx.auth),
        record.maker_mint,
        record.taker_mint,
    );
}

/// A refund that names its accounts rightly pays into an account of the
/// record's maker, and is judged without any regard to time: it succeeds
/// wherever the maker's holding account has room; the whole of what the
/// vault held is then in that account, the vault is empty and closed, and
/// the record is gone.
pub proof fn law_refund(l: LedgerView, ctx: Refund, custody: Custody)
    requires
        l.refund_accounts_ok(ctx, custody),
    ensures
        l.owned_by(ctx.maker_ata, Authority::spec_party(l.records[ctx.escrow].maker)),
        l.refund(ctx, custody) is Ok <==> has_room(
            l,
            ctx.vault,
            ctx.maker_ata,
            ctx.maker_mint,
            l.records[ctx.escrow].taker_mint,
        ),
        l.refund(ctx, custody) matches Ok(post) ==> {
            &&& post.balance(ctx.maker_ata, ctx.maker_mint) == l.balance(
                ctx.maker_ata,
                ctx.maker_mint,
            ) + l.balance(ctx.vault, ctx.maker_mint)
            &&& units(post, ctx.maker_ata, ctx.maker_mint, l.records[ctx.escrow].taker_mint)
                == units(l, ctx.maker_ata, ctx.maker_mint, l.records[ctx.escrow].taker_mint)
                + units(l, ctx.vault, ctx.maker_mint, l.records[ctx.escrow].taker_mint)
            &&& units(post, ctx.vault, ctx.maker_mint, l.records[ctx.escrow].taker_mint) == 0
            &&& !post.accounts.contains_key(ctx.vault)
            &&& !post.records.contains_key(ctx.escrow)
        },
{
    let record = l.records[ctx.escrow];
    law_drain(
        l,
        ctx.vault,
        ctx.maker_ata,
        Authority::spec_derived(ctx.auth),
        record.maker_mint,
        record.taker_mint,
    );
}

/// Where no record is live at an address, every claim, settlement and refund
/// that names the address is refused, and changes nothing.
pub proof fn law_no_record_no_transition(
    l: LedgerView,
    escrow: Address,
    take: Take,
    now: u64,
    refund: Refund,
    custody: Custody,
)
    requires
        !l.records.contains_key(escrow),
        take.escrow == escrow,
        refund.escrow == escrow,
    ensures
        l.claim(take, now, custody) == Err::<LedgerView, EscrowError>(
            EscrowError::ConstraintViolation,
        ),
        l.settle(take, now, custody) == Err::<LedgerView, EscrowError>(
            EscrowError::ConstraintViolation,
        ),
        l.refund(refund, custody) == Err::<LedgerView, EscrowError>(
            EscrowError::ConstraintViolation,
        ),
{
}

/// An escrow is settled once: after a settlement that succeeds, any further
/// claim, settlement or refund of the same escrow is refused.
pub proof fn law_settle_is_final(
    l: LedgerView,
    ctx: Take,
    now: u64,
    custody: Custody,
    take: Take,
    later: u64,
    refund: Refund,
    again: Custody,
)
    requires
        l.settle(ctx, now, custody) is Ok,
        take.escrow == ctx.escrow,
        refund.escrow == ctx.escrow,
    ensures
        l.settle(ctx, now, custody) matches Ok(post) && {
            &&& post.claim(take, later, again) == Err::<LedgerView, EscrowError>(
                EscrowError::ConstraintViolation,
            )
            &&& post.settle(take, later, again) == Err::<LedgerView, EscrowError>(
                EscrowError::ConstraintViolation,
            )
            &&& post.refund(refund, again) == Err::<LedgerView, EscrowError>(
                EscrowError::ConstraintViolation,
            )
        },
{
    let record = l.records[ctx.escrow];
    law_drain(
        l,
        ctx.vault,
        ctx.taker_receive_ata,
        Authority::spec_derived(ctx.auth),
        record.maker_mint,
        record.taker_mint,
    );
}

/// An escrow is refunded once: after a refund that succeeds, any further
/// claim, settlement or refund of the same escrow is refused.
pub proof fn law_refund_is_final(
    l: LedgerView,
    ctx: Refund,
    custody: Custody,
    take: Take,
    later: u64,
    refund: Refund,
    again: Custody,
)
    requires
        l.refund(ctx, custody) is Ok,
        take.escrow == ctx.escrow,
        refund.escrow == ctx.escrow,
    ensures
        l.refund(ctx, custody) matches Ok(post) && {
            &&& post.claim(take, later, again) == Err::<LedgerView, EscrowError>(
                EscrowError::ConstraintViolation,
            )
            &&& post.settle(take, later, again) == Err::<LedgerView, EscrowError>(
                EscrowError::ConstraintViolation,
            )
            &&& post.refund(refund, again) == Err::<LedgerView, EscrowError>(
                EscrowError::ConstraintViolation,
            )
        },
{
    let record = l.records[ctx.escrow];
    law_drain(
        l,
        ctx.vault,
        ctx.maker_ata,
        Authority::spec_derived(ctx.auth),
        record.maker_mint,
        record.taker_mint,
    );
}

/// One claim in the life of an escrow: its accounts, its time, and the
/// addresses it is checked against.
pub struct ClaimCall {
    pub ctx: Take,
    pub now: u64,
    pub custody: Custody,
}

/// The ledger after a row of claims, each made on what the one before left;
/// nothing where one of them is refused.
pub open spec fn after_claims(l: LedgerView, claims: Seq<ClaimCall>) -> Option<LedgerView>
    decreases claims.len(),
{
    if claims.len() == 0 {
        Some(l)
    } else {
        match after_claims(l, claims.drop_last()) {
            None => None,
            Some(mid) => match mid.claim(
                claims.last().ctx,
                claims.last().now,
                claims.last().custody,
            ) {
                Ok(post) => Some(post),
                Err(_) => None,
            },
        }
    }
}

/// Every claim of the row names the record at `escrow` and the vault at
/// `vault`.
pub open spec fn claims_name(claims: Seq<ClaimCall>, escrow: Address, vault: Address) -> bool {
    forall|i: int|
        0 <= i < claims.len() ==> (#[trigger] claims[i]).ctx.escrow == escrow && claims[i].ctx.vault
            == vault
}

/// The ledger after an escrow was created and then claimed from as the row
/// says; nothing where the creation or one of the claims is refused.
pub open spec fn funded(
    l: LedgerView,
    make: Make,
    seed: u64,
    deposit_amount: u64,
    expiry: u64,
    locking_period: u64,
    created: u64,
    found: MakeCustody,
    claims: Seq<ClaimCall>,
) -> Option<LedgerView> {
    match l.create(make, seed, deposit_amount, expiry, locking_period, created, found) {
        Ok(opened) => after_claims(opened, claims),
        Err(_) => None,
    }
}

/// A row of claims that all succeed leaves the records as they were and adds
/// one unit to the vault for each claim.
pub proof fn law_claims_fill_vault(
    l: LedgerView,
    claims: Seq<ClaimCall>,
    escrow: Address,
    vault: Address,
)
    requires
        l.records.contains_key(escrow),
        claims_name(claims, escrow, vault),
        after_claims(l, claims) is Some,
    ensures
        after_claims(l, claims) matches Some(post) && {
            &&& post.records == l.records
            &&& units(post, vault, l.records[escrow].maker_mint, l.records[escrow].taker_mint)
                == units(l, vault, l.records[escrow].maker_mint, l.records[escrow].taker_mint)
                + claims.len()
        },
    decreases claims.len(),
{
    if claims.len() > 0 {
        let head = claims.drop_last();
        let call = claims.last();
        assert(claims_name(head, escrow, vault)) by {
            assert forall|i: int| 0 <= i < head.len() implies (#[trigger] head[i]).ctx.escrow
                == escrow && head[i].ctx.vault == vault by {
                assert(head[i] == claims[i]);
            }
        }
        law_claims_fill_vault(l, head, escrow, vault);
        let mid = after_claims(l, head).unwrap();
        assert(call == claims[claims.len() - 1]);
        assert(mid.claim_accounts_ok(call.ctx, call.custody));
        law_claim(mid, call.ctx, call.now, call.custody);
    }
}

/// Nothing is made or lost on the way through an escrow that ends in a
/// settlement: what the taker's receiving account gains is the deposit and
/// one unit for each claim, which is all that ever went into the vault, and
/// the vault keeps nothing.
pub proof fn law_conservation_by_settlement(
    l: LedgerView,
    make: Make,
    seed: u64,
    deposit_amount: u64,
    expiry: u64,
    locking_period: u64,
    created: u64,
    found: MakeCustody,
    claims: Seq<ClaimCall>,
    ctx: Take,
    now: u64,
    custody: Custody,
)
    requires
        claims_name(claims, make.escrow, make.vault),
        ctx.escrow == make.escrow,
        ctx.vault == make.vault,
        funded(l, make, seed, deposit_amount, expiry, locking_period, created, found, claims)
            matches Some(before) && before.settle(ctx, now, custody) is Ok,
    ensures
        funded(l, make, seed, deposit_amount, expiry, locking_period, created, found, claims)
            matches Some(before) && before.settle(ctx, now, custody) matches Ok(post) && {
            &&& units(post, ctx.taker_receive_ata, make.maker_mint, make.taker_mint) == units(
                before,
                ctx.taker_receive_ata,
                make.maker_mint,
                make.taker_mint,
            ) + deposit_amount + claims.len()
            &&& units(post, make.vault, make.maker_mint, make.taker_mint) == 0
        },
{
    let opened = l.create(make, seed, deposit_amount, expiry, locking_period, created, found)->Ok_0;
    law_create(l, make, seed, deposit_amount, expiry, locking_period, created, found);
    law_claims_fill_vault(opened, claims, make.escrow, make.vault);
    let before = after_claims(opened, claims).unwrap();
    law_settle(before, ctx, now, custody);
}

/// Nothing is made or lost on the way through an escrow that ends in a
/// refund: what the maker's holding account gains is the deposit and one
/// unit for each claim, which is all that ever went into the vault, and the
/// vault keeps nothing.
pub proof fn law_conservation_by_refund(
    l: LedgerView,
    make: Make,
    seed: u64,
    deposit_amount: u64,
    expiry: u64,
    locking_period: u64,
    created: u64,
    found: MakeCustody,
    claims: Seq<ClaimCall>,
    ctx: Refund,
    custody: Custody,
)
    requires
        claims_name(claims, make.escrow, make.vault),
        ctx.escrow == make.escrow,
        ctx.vault == make.vault,
        funded(l, make, seed, deposit_amount, expiry, locking_period, created, found, claims)
            matches Some(before) && before.refund(ctx, custody) is Ok,
    ensures
        funded(l, make, seed, deposit_amount, expiry, locking_period, created, found, claims)
            matches Some(before) && before.refund(ctx, custody) matches Ok(post) && {
            &&& units(post, ctx.maker_ata, make.maker_mint, make.taker_mint) == units(
                before,
                ctx.maker_ata,
                make.maker_mint,
                make.taker_mint,
            ) + deposit_amount + claims.len()
            &&& units(post, make.vault, make.maker_mint, make.taker_mint) == 0
        },
{
    let opened = l.create(make, seed, deposit_amount, expiry, locking_period, created, found)->Ok_0;
    law_create(l, make, seed, deposit_amount, expiry, locking_period, created, found);
    law_claims_fill_vault(opened, claims, make.escrow, make.vault);
    let before = after_claims(opened, claims).unwrap();
    law_refund(before, ctx, custody);
}

} // verus!
