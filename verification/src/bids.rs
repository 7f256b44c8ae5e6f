//! The bid engine: placing a bid against a listing, accepting one, and
//! cancelling one, together with the value escrow each of those moves.

use vstd::prelude::*;
use crate::accounts::{
    BidAccount, BidState, CustomError, ListingAccount, ListingState, Vault, compose_price,
    listed, price_of,
};
use crate::ledger::{transfer_asset, transfer_value};

verus! {

/// A listing right after a fresh bid was recorded against it: both bid
/// counts grow by one, everything else stays.
pub open spec fn bid_recorded(l: ListingAccount) -> ListingAccount
    recommends
        l.real_bid_count < u32::MAX,
        l.historical_bid_count < u32::MAX,
{
    ListingAccount {
        real_bid_count: (l.real_bid_count + 1) as u32,
        historical_bid_count: (l.historical_bid_count + 1) as u32,
        ..l
    }
}

/// The fresh bid record that a successful placement allocates.
pub open spec fn fresh_bid(
    l: ListingAccount,
    user: u64,
    mint: u64,
    price: u64,
    bump: u8,
) -> BidAccount {
    BidAccount {
        user,
        mint,
        index: l.historical_bid_count,
        bid_price: price,
        state: BidState::Pending,
        bump_bid: bump,
    }
}

/// A listing right after one of its bids was accepted: the sale closes and
/// the slot returns to unlisted.
pub open spec fn sold(l: ListingAccount) -> ListingAccount {
    ListingAccount { state: ListingState::Unlisted, ..l }
}

/// A bid right after acceptance: permanently accepted.
pub open spec fn accepted(b: BidAccount) -> BidAccount {
    BidAccount { state: BidState::Accepted, ..b }
}

/// A bid right after cancellation: its slot is retired.
pub open spec fn retired(b: BidAccount) -> BidAccount {
    BidAccount { state: BidState::Inactive, ..b }
}

/// A listing right after one of its bids was cancelled: one fewer live bid.
/// The count floors at zero because a withdrawal may already have reset it
/// while the bid stayed pending.
pub open spec fn bid_removed(l: ListingAccount) -> ListingAccount {
    ListingAccount {
        real_bid_count: if l.real_bid_count >= 1 {
            (l.real_bid_count - 1) as u32
        } else {
            0u32
        },
        ..l
    }
}

/// Whether the value-transfer primitive can move `amount` between the two
/// balances.
pub open spec fn value_movable(from: u64, to: u64, amount: u64) -> bool {
    from >= amount && to + amount <= u64::MAX
}

/// The failure, if any, that placing a bid must report, in check order.
pub open spec fn place_bid_error(
    l: ListingAccount,
    mint: u64,
    price: int,
    user_balance: u64,
    vault_balance: u64,
) -> Option<CustomError> {
    if l.mint != mint {
        Some(CustomError::InvalidNft)
    } else if !listed(l.state) {
        Some(CustomError::InvalidState)
    } else if l.price > price {
        Some(CustomError::UnAcceptablePrice)
    } else if l.state is BidListing && !value_movable(user_balance, vault_balance, price as u64) {
        Some(CustomError::TransferFailed)
    } else {
        None
    }
}

/// The failure, if any, that accepting a bid must report, in check order.
/// Both a refused value transfer and an asset missing from the vault
/// surface as the propagated transfer failure.
pub open spec fn accept_bid_error(
    l: ListingAccount,
    b: BidAccount,
    caller: u64,
    user: u64,
    mint: u64,
    holder: u64,
    owner_balance: u64,
    vault_balance: u64,
    vault_key: u64,
) -> Option<CustomError> {
    if l.owner != caller {
        Some(CustomError::InvalidOwner)
    } else if l.mint != mint {
        Some(CustomError::InvalidNft)
    } else if !listed(l.state) {
        Some(CustomError::InvalidState)
    } else if b.user != user {
        Some(CustomError::InvalidUser)
    } else if b.mint != mint {
        Some(CustomError::InvalidNft)
    } else if holder != vault_key {
        Some(CustomError::TransferFailed)
    } else if l.state is BidListing && !value_movable(vault_balance, owner_balance, b.bid_price) {
        Some(CustomError::TransferFailed)
    } else {
        None
    }
}

/// The failure, if any, that cancelling a bid must report, in check order.
/// Only a pending bid can be cancelled, so a second cancellation of the
/// same bid is refused instead of refunding twice.
pub open spec fn cancel_bid_error(
    l: ListingAccount,
    b: BidAccount,
    caller: u64,
    mint: u64,
    user_balance: u64,
    vault_balance: u64,
) -> Option<CustomError> {
    if l.mint != mint {
        Some(CustomError::InvalidNft)
    } else if b.user != caller {
        Some(CustomError::InvalidUser)
    } else if b.mint != mint {
        Some(CustomError::InvalidNft)
    } else if !(b.state is Pending) {
        Some(CustomError::InvalidState)
    } else if l.state is BidListing && !value_movable(vault_balance, user_balance, b.bid_price) {
        Some(CustomError::TransferFailed)
    } else {
        None
    }
}

/// Place a bid: allocate a fresh pending bid record keyed by the listing's
/// running bid sequence number, count it, and, when the listing collects
/// bids, escrow the full bid price from the bidder into the vault at once.
/// On an offer listing no value moves until acceptance. Fails, changing
/// nothing, unless the asset matches, the listing is live, the offered
/// price meets the asking price, and any required escrow can move.
pub fn create_bid(
    listing: &mut ListingAccount,
    user: u64,
    mint: u64,
    bid_price_high: u32,
    bid_price_low: u32,
    bump: u8,
    user_balance: &mut u64,
    vault_balance: &mut u64,
) -> (r: Result<BidAccount, CustomError>)
    requires
        old(listing).real_bid_count < u32::MAX,
        old(listing).historical_bid_count < u32::MAX,
    ensures
        r is Ok <==> place_bid_error(
            *old(listing), mint, price_of(bid_price_high, bid_price_low),
            *old(user_balance), *old(vault_balance)) is None,
        r matches Err(e) ==> Some(e) == place_bid_error(
            *old(listing), mint, price_of(bid_price_high, bid_price_low),
            *old(user_balance), *old(vault_balance)),
        r is Err ==> *final(listing) == *old(listing) && *final(user_balance) == *old(
            user_balance) && *final(vault_balance) == *old(vault_balance),
        r matches Ok(b) ==> b == fresh_bid(
            *old(listing), user, mint, price_of(bid_price_high, bid_price_low) as u64, bump),
        r is Ok ==> *final(listing) == bid_recorded(*old(listing)),
        r is Ok && old(listing).state is BidListing ==> *final(user_balance) == *old(
            user_balance) - price_of(bid_price_high, bid_price_low) && *final(vault_balance)
            == *old(vault_balance) + price_of(bid_price_high, bid_price_low),
        r is Ok && old(listing).state is OfferListing ==> *final(user_balance) == *old(
            user_balance) && *final(vault_balance) == *old(vault_balance),
        final(listing).state == old(listing).state,
{
    if listing.mint != mint {
        return Err(CustomError::InvalidNft);
    }
    if listing.state == ListingState::Unlisted {
        return Err(CustomError::InvalidState);
    }
    let bid_price: u64 = compose_price(bid_price_high, bid_price_low);
    if listing.price > bid_price {
        return Err(CustomError::UnAcceptablePrice);
    }
    if listing.state == ListingState::BidListing {
        if !transfer_value(user_balance, vault_balance, bid_price) {
            return Err(CustomError::TransferFailed);
        }
    }
    let bid = BidAccount {
        user,
        mint,
        index: listing.historical_bid_count,
        bid_price,
        state: BidState::Pending,
        bump_bid: bump,
    };
    listing.real_bid_count = listing.real_bid_count + 1;
    listing.historical_bid_count = listing.historical_bid_count + 1;
    Ok(bid)
}

/// Accept a bid: on a bid-collecting listing the vault pays the escrowed
/// bid price to the listing owner; in both listing kinds the vault then
/// hands the asset to the bidder, the bid becomes a permanent accepted
/// record, and the listing returns to unlisted. All of it happens, or, on
/// any failure, none of it. Fails unless the caller is the recorded owner,
/// asset and bidder identities match, the listing is live, the vault holds
/// the asset, and any owed payment can move.
pub fn accept_bid(
    listing: &mut ListingAccount,
    bid: &mut BidAccount,
    owner: u64,
    user: u64,
    mint: u64,
    asset_holder: &mut u64,
    owner_balance: &mut u64,
    vault_balance: &mut u64,
    vault: &Vault,
) -> (r: Result<(), CustomError>)
    ensures
        r is Ok <==> accept_bid_error(
            *old(listing), *old(bid), owner, user, mint, *old(asset_holder),
            *old(owner_balance), *old(vault_balance), vault.key) is None,
        r matches Err(e) ==> Some(e) == accept_bid_error(
            *old(listing), *old(bid), owner, user, mint, *old(asset_holder),
            *old(owner_balance), *old(vault_balance), vault.key),
        r is Err ==> *final(listing) == *old(listing) && *final(bid) == *old(bid) && *final(
            asset_holder) == *old(asset_holder) && *final(owner_balance) == *old(owner_balance)
            && *final(vault_balance) == *old(vault_balance),
        r is Ok ==> *final(listing) == sold(*old(listing)) && *final(bid) == accepted(*old(bid))
            && *final(asset_holder) == user,
        r is Ok && old(listing).state is BidListing ==> *final(vault_balance) == *old(
            vault_balance) - old(bid).bid_price && *final(owner_balance) == *old(owner_balance)
            + old(bid).bid_price,
        r is Ok && old(listing).state is OfferListing ==> *final(vault_balance) == *old(
            vault_balance) && *final(owner_balance) == *old(owner_balance),
{
    if listing.owner != owner {
        return Err(CustomError::InvalidOwner);
    }
    if listing.mint != mint {
        return Err(CustomError::InvalidNft);
    }
    if listing.state == ListingState::Unlisted {
        return Err(CustomError::InvalidState);
    }
    if bid.user != user {
        return Err(CustomError::InvalidUser);
    }
    if bid.mint != mint {
        return Err(CustomError::InvalidNft);
    }
    if *asset_holder != vault.key {
        return Err(CustomError::TransferFailed);
    }
    if listing.state == ListingState::BidListing {
        if !transfer_value(vault_balance, owner_balance, bid.bid_price) {
            return Err(CustomError::TransferFailed);
        }
    }
    let moved = transfer_asset(asset_holder, vault.key, user);
    assert(moved);
    bid.state = BidState::Accepted;
    listing.state = ListingState::Unlisted;
    Ok(())
}

/// Cancel a pending bid: when the listing collects bids up front the vault
/// refunds exactly the escrowed bid price to the bidder, the bid's slot is
/// retired, and the listing counts one fewer live bid. A bid that is not
/// pending is refused, so no bid can be refunded twice. Fails, changing
/// nothing, unless asset and bidder identities match and any owed refund
/// can move.
pub fn cancel_bid(
    listing: &mut ListingAccount,
    bid: &mut BidAccount,
    user: u64,
    mint: u64,
    user_balance: &mut u64,
    vault_balance: &mut u64,
) -> (r: Result<(), CustomError>)
    ensures
        r is Ok <==> cancel_bid_error(
            *old(listing), *old(bid), user, mint, *old(user_balance),
            *old(vault_balance)) is None,
        r matches Err(e) ==> Some(e) == cancel_bid_error(
            *old(listing), *old(bid), user, mint, *old(user_balance), *old(vault_balance)),
        r is Err ==> *final(listing) == *old(listing) && *final(bid) == *old(bid) && *final(
            user_balance) == *old(user_balance) && *final(vault_balance) == *old(vault_balance),
        r is Ok ==> *final(listing) == bid_removed(*old(listing)) && *final(bid) == retired(
            *old(bid)),
        r is Ok && old(listing).state is BidListing ==> *final(vault_balance) == *old(
            vault_balance) - old(bid).bid_price && *final(user_balance) == *old(user_balance)
            + old(bid).bid_price,
        r is Ok && !(old(listing).state is BidListing) ==> *final(vault_balance) == *old(
            vault_balance) && *final(user_balance) == *old(user_balance),
        final(listing).state == old(listing).state,
{
    if listing.mint != mint {
        return Err(CustomError::InvalidNft);
    }
    if bid.user != user {
        return Err(CustomError::InvalidUser);
    }
    if bid.mint != mint {
        return Err(CustomError::InvalidNft);
    }
    if bid.state != BidState::Pending {
        return Err(CustomError::InvalidState);
    }
    if listing.state == ListingState::BidListing {
        if !transfer_value(vault_balance, user_balance, bid.bid_price) {
            return Err(CustomError::TransferFailed);
        }
    }
    if listing.real_bid_count >= 1 {
        listing.real_bid_count = listing.real_bid_count - 1;
    }
    bid.state = BidState::Inactive;
    Ok(())
}

} // verus!
