//! Laws of the marketplace state machine that relate several transitions.
//! Single-transition effects (which escrow moves, which records change, and
//! the all-or-nothing failure behaviour) are stated directly in the
//! `ensures` of the engine functions; the lemmas here compose them.

use vstd::prelude::*;
use crate::accounts::{ListingAccount, ListingState, custody_ok};
use crate::listing::{published, withdrawn};
use crate::bids::{bid_recorded, fresh_bid, sold};

verus! {

/// Publishing a listing and immediately withdrawing it puts the slot back
/// to unlisted with its live-bid count forced to zero, keeps its identity
/// fields, and leaves the asset where the custody discipline wants it: with
/// the original owner. It is an idempotent reset, not a true inverse: a
/// live-bid count that was not zero before publishing does not come back.
pub proof fn lemma_publish_then_withdraw(
    l: ListingAccount,
    kind: ListingState,
    price: u64,
    vault_key: u64,
)
    ensures
        withdrawn(published(l, kind, price)).state is Unlisted,
        withdrawn(published(l, kind, price)).real_bid_count == 0,
        withdrawn(published(l, kind, price)).owner == l.owner,
        withdrawn(published(l, kind, price)).mint == l.mint,
        withdrawn(published(l, kind, price)).historical_bid_count == l.historical_bid_count,
        custody_ok(withdrawn(published(l, kind, price)), l.owner, vault_key),
{
}

/// The custody discipline depends only on a listing's state and owner, so
/// every transition that leaves both alone (repricing, placing a bid,
/// cancelling a bid) keeps it, whatever else it changes.
pub proof fn lemma_custody_kept_without_state_change(
    l1: ListingAccount,
    l2: ListingAccount,
    holder: u64,
    vault_key: u64,
)
    requires
        l1.state == l2.state,
        l1.owner == l2.owner,
        custody_ok(l1, holder, vault_key),
    ensures
        custody_ok(l2, holder, vault_key),
{
}

/// After a sale the asset sits with the buyer while the slot reads
/// unlisted, so the unlisted custody discipline — asset with the recorded
/// owner — holds again exactly when the buyer is the recorded owner. The
/// slot keeps its original owner and cannot be re-published by the buyer.
pub proof fn lemma_custody_after_sale(l: ListingAccount, buyer: u64, vault_key: u64)
    ensures
        custody_ok(sold(l), buyer, vault_key) <==> buyer == l.owner,
{
}

/// Each placed bid is keyed by the listing's running bid sequence number,
/// which grows by one with every placement, so bid slot identifiers form a
/// strictly increasing sequence per listing and never collide, even across
/// cancelled bids.
pub proof fn lemma_bid_sequence_advances(
    l: ListingAccount,
    user: u64,
    mint: u64,
    price: u64,
    bump: u8,
)
    requires
        l.real_bid_count < u32::MAX,
        l.historical_bid_count < u32::MAX,
    ensures
        fresh_bid(l, user, mint, price, bump).index == l.historical_bid_count,
        bid_recorded(l).historical_bid_count == l.historical_bid_count + 1,
{
}

} // verus!
