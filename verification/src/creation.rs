use vstd::prelude::*;
use crate::custody::AssetRef;
use crate::error::AuctionError;
use crate::identity::Identity;
use crate::record::Auction;

verus! {

/// What the substrate presents when an auction is to be created: the
/// storage slot that the auction identifier addresses, `None` while the
/// identifier is unused, the verified identity of the seller, and the
/// handle of the asset that the auction takes into its custody.
#[derive(Clone, Copy, Debug, PartialEq, Eq)]
pub struct CreateAuction {
    pub auction: Option<Auction>,
    pub seller: Identity,
    pub asset_reference: AssetRef,
}

/// The rule that stands against creating an auction, if one does: the
/// window must start before it ends, and the slot must be unused.
pub open spec fn creation_rejection(slot: Option<Auction>, start_time: i64, end_time: i64)
    -> Option<AuctionError> {
    if start_time >= end_time {
        Some(AuctionError::InvalidWindow)
    } else if slot is Some {
        Some(AuctionError::DuplicateAuctionId)
    } else {
        None
    }
}

/// The record of a newly created auction: nobody has bid, the reserve price
/// stands in for the high bid as a floor, and escrow is empty.
pub open spec fn fresh_auction(
    auction_id: u64,
    seller: Identity,
    asset_reference: AssetRef,
    reserve_price: u64,
    start_time: i64,
    end_time: i64,
    bid_increment: u64,
) -> Auction {
    Auction {
        auction_id,
        seller,
        asset_reference,
        reserve_price,
        highest_bid: reserve_price,
        highest_bidder: None,
        escrowed_amount: 0,
        start_time,
        end_time,
        bid_increment,
        settled: false,
        settled_by: None,
    }
}

/// Creates the record of an auction in the slot of its identifier. An empty
/// window is refused with `InvalidWindow`, a slot in use with
/// `DuplicateAuctionId`; a refusal leaves the slot as it was.
pub fn create_auction(
    ctx: &mut CreateAuction,
    auction_id: u64,
    reserve_price: u64,
    start_time: i64,
    end_time: i64,
    bid_increment: u64,
) -> (done: Result<(), AuctionError>)
    ensures
        match creation_rejection(old(ctx).auction, start_time, end_time) {
            Some(refusal) => done == Err::<(), AuctionError>(refusal) && *final(ctx) == *old(ctx),
            None => done is Ok && final(ctx).auction == Some(
                fresh_auction(
                    auction_id,
                    old(ctx).seller,
                    old(ctx).asset_reference,
                    reserve_price,
                    start_time,
                    end_time,
                    bid_increment,
                ),
            ),
        },
        final(ctx).seller == old(ctx).seller,
        final(ctx).asset_reference == old(ctx).asset_reference,
        // A record that was created is well formed.
        done is Ok ==> final(ctx).auction is Some && final(ctx).auction->Some_0.wf(),
{
    if start_time >= end_time {
        return Err(AuctionError::InvalidWindow);
    }
    match ctx.auction {
        Some(_) => Err(AuctionError::DuplicateAuctionId),
        None => {
            ctx.auction = Some(
                Auction {
                    auction_id,
                    seller: ctx.seller,
                    asset_reference: ctx.asset_reference,
                    reserve_price,
                    highest_bid: reserve_price,
                    highest_bidder: None,
                    escrowed_amount: 0,
                    start_time,
                    end_time,
                    bid_increment,
                    settled: false,
                    settled_by: None,
                },
            );
            Ok(())
        },
    }
}

} // verus!
