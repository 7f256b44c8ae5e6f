//! Record types of the marketplace core: the listing record, the bid record,
//! the vault handle, and the error taxonomy shared by every transition.

use vstd::prelude::*;

verus! {

/// One whole unit of value. Prices cross the caller interface as two 32-bit
/// components combined as `high * VALUE_UNIT + low`.
pub const VALUE_UNIT: u64 = 1000000000;

/// Wire encoding of the bid-collecting listing kind.
pub const LISTING_KIND_BID: u8 = 1;

/// Wire encoding of the offer-collecting listing kind.
pub const LISTING_KIND_OFFER: u8 = 2;

/// Lifecycle state of a listing record.
#[derive(Clone, Copy, PartialEq, Eq, Structural, Debug)]
pub enum ListingState {
    /// The asset sits with its owner; no sale is open.
    Unlisted,
    /// The asset is escrowed and bidders must escrow value up front.
    BidListing,
    /// The asset is escrowed and value moves only when a bid is accepted.
    OfferListing,
}

/// Lifecycle state of a bid record.
#[derive(Clone, Copy, PartialEq, Eq, Structural, Debug)]
pub enum BidState {
    /// The bid was cancelled; its slot is retired.
    Inactive,
    /// The bid is live and may be accepted or cancelled.
    Pending,
    /// The bid was accepted; kept permanently as a historical record.
    Accepted,
}

/// Every failure a transition can report. The first five are precondition
/// failures; `TransferFailed` propagates a refusal of the ledger's transfer
/// primitives (insufficient balance, wrong custodian, or a destination that
/// cannot absorb the amount). Every failure aborts the whole transition
/// before any record changes.
#[derive(Clone, Copy, PartialEq, Eq, Structural, Debug)]
pub enum CustomError {
    InvalidOwner,
    InvalidNft,
    InvalidState,
    InvalidUser,
    UnAcceptablePrice,
    TransferFailed,
}

/// One persistent listing record: governs a single asset's availability.
/// The slot is reused across list/cancel cycles; `owner` and `mint` are set
/// once at allocation and never change afterwards.
#[derive(Clone, Copy, PartialEq, Eq, Structural, Debug)]
pub struct ListingAccount {
    /// Identity of the asset's original holder.
    pub owner: u64,
    /// Identity of the non-fungible unit this listing governs.
    pub mint: u64,
    /// Current asking price, in the combined two-component encoding.
    pub price: u64,
    /// Number of currently-live bids against this listing.
    pub real_bid_count: u32,
    /// Count of all bids ever created against this listing; only grows, and
    /// serves to derive unique bid slot identifiers.
    pub historical_bid_count: u32,
    /// Where the listing stands in its lifecycle.
    pub state: ListingState,
    /// Salt of the record's derived address.
    pub bump_listing: u8,
}

/// One persistent bid record: a single party's offer against a listing.
#[derive(Clone, Copy, PartialEq, Eq, Structural, Debug)]
pub struct BidAccount {
    /// Identity of the bidder.
    pub user: u64,
    /// Asset the bid is for; equals the parent listing's `mint` at creation.
    pub mint: u64,
    /// Sequence number of this bid within its listing.
    pub index: u32,
    /// Offered price, in the combined two-component encoding.
    pub bid_price: u64,
    /// Where the bid stands in its lifecycle.
    pub state: BidState,
    /// Salt of the record's derived address.
    pub bump_bid: u8,
}

/// Handle of the shared custody vault: a capability whose authority is a
/// deterministic function of a fixed label and the `bump` salt, passed
/// explicitly into every transition that moves escrowed custody.
#[derive(Clone, Copy, PartialEq, Eq, Structural, Debug)]
pub struct Vault {
    /// Identity under which the vault holds escrowed assets and value.
    pub key: u64,
    /// Salt of the vault's derived authority.
    pub bump: u8,
}

/// A listing in either of the two states that accept bids.
pub open spec fn listed(s: ListingState) -> bool {
    s is BidListing || s is OfferListing
}

/// The price a pair of caller-supplied components denotes.
pub open spec fn price_of(high: u32, low: u32) -> int {
    high * VALUE_UNIT + low
}

/// Custody discipline of a listing: while unlisted the asset sits with the
/// recorded owner, while listed it sits with the vault.
pub open spec fn custody_ok(l: ListingAccount, holder: u64, vault_key: u64) -> bool {
    match l.state {
        ListingState::Unlisted => holder == l.owner,
        ListingState::BidListing => holder == vault_key,
        ListingState::OfferListing => holder == vault_key,
    }
}

/// Combine the two caller-supplied price components into one value.
/// The largest possible pair still fits: `u32::MAX * VALUE_UNIT + u32::MAX`
/// is below `u64::MAX`.
pub fn compose_price(high: u32, low: u32) -> (p: u64)
    ensures
        p == price_of(high, low),
{
    high as u64 * VALUE_UNIT + low as u64
}

} // verus!
