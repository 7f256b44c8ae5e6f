//! The listing engine: allocation of a listing slot, publishing an asset
//! for sale, repricing it, and withdrawing it back to its owner.

use vstd::prelude::*;
use crate::accounts::{
    CustomError, ListingAccount, ListingState, Vault, LISTING_KIND_BID, LISTING_KIND_OFFER,
    compose_price, custody_ok, listed, price_of,
};
use crate::ledger::transfer_asset;

verus! {

/// The listing state a valid wire kind denotes.
pub open spec fn kind_state(kind: u8) -> ListingState
    recommends
        kind == LISTING_KIND_BID || kind == LISTING_KIND_OFFER,
{
    if kind == LISTING_KIND_BID {
        ListingState::BidListing
    } else {
        ListingState::OfferListing
    }
}

/// A listing right after publishing: same slot, new price, listed state.
pub open spec fn published(l: ListingAccount, kind: ListingState, price: u64) -> ListingAccount {
    ListingAccount { price, state: kind, ..l }
}

/// A listing right after repricing: same slot, new price.
pub open spec fn repriced(l: ListingAccount, price: u64) -> ListingAccount {
    ListingAccount { price, ..l }
}

/// A listing right after withdrawal: unlisted, with its live-bid count
/// forced to zero whatever it was before.
pub open spec fn withdrawn(l: ListingAccount) -> ListingAccount {
    ListingAccount { state: ListingState::Unlisted, real_bid_count: 0, ..l }
}

/// The failure, if any, that publishing must report, in check order.
pub open spec fn publish_error(
    l: ListingAccount,
    caller: u64,
    mint: u64,
    kind: u8,
    holder: u64,
) -> Option<CustomError> {
    if l.owner != caller {
        Some(CustomError::InvalidOwner)
    } else if l.mint != mint {
        Some(CustomError::InvalidNft)
    } else if kind != LISTING_KIND_BID && kind != LISTING_KIND_OFFER {
        Some(CustomError::InvalidState)
    } else if holder != caller {
        Some(CustomError::TransferFailed)
    } else {
        None
    }
}

/// The failure, if any, that repricing must report, in check order.
pub open spec fn reprice_error(l: ListingAccount, caller: u64, mint: u64) -> Option<CustomError> {
    if l.owner != caller {
        Some(CustomError::InvalidOwner)
    } else if l.mint != mint {
        Some(CustomError::InvalidNft)
    } else if !listed(l.state) {
        Some(CustomError::InvalidState)
    } else {
        None
    }
}

/// Establish the shared vault handle from its identity and authority salt.
pub fn initialize(key: u64, bump: u8) -> (v: Vault)
    ensures
        v.key == key,
        v.bump == bump,
{
    Vault { key, bump }
}

/// Allocate the one listing slot for `(owner, mint)`: unlisted, both bid
/// counts zero. Refusing a duplicate slot for the same pair is the storage
/// substrate's job, not this function's.
pub fn create_listing_account(owner: u64, mint: u64, bump: u8) -> (l: ListingAccount)
    ensures
        l.owner == owner,
        l.mint == mint,
        l.price == 0,
        l.real_bid_count == 0,
        l.historical_bid_count == 0,
        l.state is Unlisted,
        l.bump_listing == bump,
{
    ListingAccount {
        owner,
        mint,
        price: 0,
        real_bid_count: 0,
        historical_bid_count: 0,
        state: ListingState::Unlisted,
        bump_listing: bump,
    }
}

/// Publish the asset for sale: move it from the caller's custody into the
/// vault and open the listing under the requested kind and price. This is
/// the only transition that puts the asset into escrow. Fails, changing
/// nothing, unless the caller is the recorded owner, the asset matches, the
/// kind is a listed kind, and the caller in fact holds the asset.
pub fn create_listing(
    listing: &mut ListingAccount,
    owner: u64,
    mint: u64,
    kind: u8,
    price_high: u32,
    price_low: u32,
    asset_holder: &mut u64,
    vault: &Vault,
) -> (r: Result<(), CustomError>)
    ensures
        r is Ok <==> publish_error(*old(listing), owner, mint, kind, *old(asset_holder)) is None,
        r matches Err(e) ==> Some(e) == publish_error(
            *old(listing), owner, mint, kind, *old(asset_holder)),
        r is Err ==> *final(listing) == *old(listing) && *final(asset_holder) == *old(
            asset_holder),
        r is Ok ==> *final(listing) == published(
            *old(listing), kind_state(kind), price_of(price_high, price_low) as u64)
            && *final(asset_holder) == vault.key,
        custody_ok(*old(listing), *old(asset_holder), vault.key) ==> custody_ok(
            *final(listing), *final(asset_holder), vault.key),
{
    if listing.owner != owner {
        return Err(CustomError::InvalidOwner);
    }
    if listing.mint != mint {
        return Err(CustomError::InvalidNft);
    }
    if kind != LISTING_KIND_BID && kind != LISTING_KIND_OFFER {
        return Err(CustomError::InvalidState);
    }
    if !transfer_asset(asset_holder, owner, vault.key) {
        return Err(CustomError::TransferFailed);
    }
    listing.price = compose_price(price_high, price_low);
    listing.state = if kind == LISTING_KIND_BID {
        ListingState::BidListing
    } else {
        ListingState::OfferListing
    };
    Ok(())
}

/// Change the asking price of a live listing. No custody moves. Fails,
/// changing nothing, unless the caller is the recorded owner, the asset
/// matches, and the listing is currently listed.
pub fn update_listing(
    listing: &mut ListingAccount,
    owner: u64,
    mint: u64,
    price_high: u32,
    price_low: u32,
) -> (r: Result<(), CustomError>)
    ensures
        r is Ok <==> reprice_error(*old(listing), owner, mint) is None,
        r matches Err(e) ==> Some(e) == reprice_error(*old(listing), owner, mint),
        r is Err ==> *final(listing) == *old(listing),
        r is Ok ==> *final(listing) == repriced(
            *old(listing), price_of(price_high, price_low) as u64),
        final(listing).state == old(listing).state,
{
    if listing.owner != owner {
        return Err(CustomError::InvalidOwner);
    }
    if listing.mint != mint {
        return Err(CustomError::InvalidNft);
    }
    if listing.state == ListingState::Unlisted {
        return Err(CustomError::InvalidState);
    }
    listing.price = compose_price(price_high, price_low);
    Ok(())
}

/// Withdraw the asset from escrow back to the recorded owner and reset the
/// listing to unlisted with zero live bids. Fails, changing nothing, unless
/// the vault currently holds the asset. Live bids are not refunded here;
/// each must be cancelled on its own.
pub fn cancel_listing(
    listing: &mut ListingAccount,
    asset_holder: &mut u64,
    vault: &Vault,
) -> (r: Result<(), CustomError>)
    ensures
        r is Ok <==> *old(asset_holder) == vault.key,
        r is Err ==> r == Err::<(), CustomError>(CustomError::TransferFailed),
        r is Err ==> *final(listing) == *old(listing) && *final(asset_holder) == *old(
            asset_holder),
        r is Ok ==> *final(listing) == withdrawn(*old(listing)) && *final(asset_holder) == old(
            listing).owner,
        custody_ok(*old(listing), *old(asset_holder), vault.key) ==> custody_ok(
            *final(listing), *final(asset_holder), vault.key),
{
    if !transfer_asset(asset_holder, vault.key, listing.owner) {
        return Err(CustomError::TransferFailed);
    }
    listing.state = ListingState::Unlisted;
    listing.real_bid_count = 0;
    Ok(())
}

} // verus!
