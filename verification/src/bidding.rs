use vstd::prelude::*;
use crate::custody::{CustodyAction, CustodyOutcome};
use crate::error::AuctionError;
use crate::identity::Identity;
use crate::record::{Auction, Phase};

verus! {

/// What the substrate and the custody collaborator present with a bid: the
/// record, the verified identity of the bidder, and a reading of what the
/// bidder's funds source has available.
#[derive(Clone, Copy, Debug, PartialEq, Eq)]
pub struct PlaceBid {
    pub auction: Auction,
    pub bidder: Identity,
    pub funds_available: u64,
}

/// The first admission rule that a bid breaks, if it breaks any. The rules
/// are tried in a fixed order: the auction is open, the amount reaches the
/// high bid plus the increment, the bidder does not hold the high bid
/// already, and the funds source covers the amount.
pub open spec fn bid_rejection(
    auction: Auction,
    now: i64,
    bidder: Identity,
    bid_amount: u64,
    funds_available: u64,
) -> Option<AuctionError> {
    if auction.phase_at(now) != Phase::Open {
        Some(AuctionError::AuctionNotOpen)
    } else if bid_amount < auction.highest_bid + auction.bid_increment {
        Some(AuctionError::BidTooLow)
    } else if auction.highest_bidder == Some(bidder) {
        Some(AuctionError::AlreadyHighestBidder)
    } else if funds_available < bid_amount {
        Some(AuctionError::InsufficientFunds)
    } else {
        None
    }
}

/// The custody instructions of an admitted bid: the escrow of the outbid
/// party, if there is one, goes back to it first, and only then is the new
/// bid captured.
pub open spec fn bid_transfers(auction: Auction, bidder: Identity, bid_amount: u64) -> Seq<
    CustodyAction,
> {
    match auction.highest_bidder {
        Some(previous) => seq![
            CustodyAction::Release { amount: auction.escrowed_amount, to: previous },
            CustodyAction::Hold { amount: bid_amount, from: bidder },
        ],
        None => seq![CustodyAction::Hold { amount: bid_amount, from: bidder }],
    }
}

/// The record once `bidder` holds the high bid of `bid_amount`.
pub open spec fn with_bid(auction: Auction, bidder: Identity, bid_amount: u64) -> Auction {
    Auction {
        highest_bid: bid_amount,
        highest_bidder: Some(bidder),
        escrowed_amount: bid_amount,
        ..auction
    }
}

/// Whether a bid goes through: no admission rule is broken and custody
/// completed the transfers.
pub open spec fn bid_accepted(
    auction: Auction,
    now: i64,
    bidder: Identity,
    bid_amount: u64,
    funds_available: u64,
    custody: CustodyOutcome,
) -> bool {
    bid_rejection(auction, now, bidder, bid_amount, funds_available) is None && custody
        == CustodyOutcome::Completed
}

/// The record after a bid has been dealt with: updated when the bid went
/// through, untouched otherwise.
pub open spec fn after_bid(
    auction: Auction,
    now: i64,
    bidder: Identity,
    bid_amount: u64,
    funds_available: u64,
    custody: CustodyOutcome,
) -> Auction {
    if bid_accepted(auction, now, bidder, bid_amount, funds_available, custody) {
        with_bid(auction, bidder, bid_amount)
    } else {
        auction
    }
}

/// Decides on a bid without touching anything: the refusal the bid meets,
/// or the custody instructions that admitting it calls for, in order.
pub fn plan_bid(ctx: &PlaceBid, now: i64, bid_amount: u64) -> (plan: Result<
    Vec<CustodyAction>,
    AuctionError,
>)
    ensures
        match bid_rejection(ctx.auction, now, ctx.bidder, bid_amount, ctx.funds_available) {
            Some(refusal) => plan == Err::<Vec<CustodyAction>, AuctionError>(refusal),
            None => plan is Ok && plan->Ok_0@ == bid_transfers(
                ctx.auction,
                ctx.bidder,
                bid_amount,
            ),
        },
{
    if ctx.auction.phase(now) != Phase::Open {
        return Err(AuctionError::AuctionNotOpen);
    }
    match ctx.auction.highest_bid.checked_add(ctx.auction.bid_increment) {
        Some(least) => {
            if bid_amount < least {
                return Err(AuctionError::BidTooLow);
            }
        },
        None => {
            return Err(AuctionError::BidTooLow);
        },
    }
    if ctx.auction.highest_bidder == Some(ctx.bidder) {
        return Err(AuctionError::AlreadyHighestBidder);
    }
    if ctx.funds_available < bid_amount {
        return Err(AuctionError::InsufficientFunds);
    }
    let mut transfers: Vec<CustodyAction> = Vec::new();
    match ctx.auction.highest_bidder {
        Some(previous) => {
            transfers.push(
                CustodyAction::Release { amount: ctx.auction.escrowed_amount, to: previous },
            );
        },
        None => {},
    }
    transfers.push(CustodyAction::Hold { amount: bid_amount, from: ctx.bidder });
    assert(transfers@ =~= bid_transfers(ctx.auction, ctx.bidder, bid_amount));
    Ok(transfers)
}

/// Deals with one bid as one atomic operation. `custody` is the
/// collaborator's report on the instructions that `plan_bid` names for this
/// bid. The bid goes through when no admission rule is broken and custody
/// completed: the bidder then holds the high bid, escrow holds its amount,
/// and the instructions that took effect are returned. In every other case
/// the error says why and the record is untouched.
pub fn place_bid(ctx: &mut PlaceBid, now: i64, bid_amount: u64, custody: CustodyOutcome) -> (done:
    Result<Vec<CustodyAction>, AuctionError>)
    ensures
        match bid_rejection(
            old(ctx).auction,
            now,
            old(ctx).bidder,
            bid_amount,
            old(ctx).funds_available,
        ) {
            Some(refusal) => done == Err::<Vec<CustodyAction>, AuctionError>(refusal),
            None => match custody {
                CustodyOutcome::Failed => done == Err::<Vec<CustodyAction>, AuctionError>(
                    AuctionError::CustodyTransferFailed,
                ),
                CustodyOutcome::Completed => done is Ok && done->Ok_0@ == bid_transfers(
                    old(ctx).auction,
                    old(ctx).bidder,
                    bid_amount,
                ),
            },
        },
        done is Ok <==> bid_accepted(
            old(ctx).auction,
            now,
            old(ctx).bidder,
            bid_amount,
            old(ctx).funds_available,
            custody,
        ),
        final(ctx).auction == after_bid(
            old(ctx).auction,
            now,
            old(ctx).bidder,
            bid_amount,
            old(ctx).funds_available,
            custody,
        ),
        final(ctx).bidder == old(ctx).bidder,
        final(ctx).funds_available == old(ctx).funds_available,
        // A refusal changes nothing.
        done is Err ==> *final(ctx) == *old(ctx),
        // Outside the window every bid is refused.
        now < old(ctx).auction.start_time || now >= old(ctx).auction.end_time ==> done == Err::<
            Vec<CustodyAction>,
            AuctionError,
        >(AuctionError::AuctionNotOpen),
        // A settled record never changes.
        old(ctx).auction.settled ==> *final(ctx) == *old(ctx),
        // An admitted bid tops the high bid by the increment at least.
        done is Ok ==> final(ctx).auction.highest_bid >= old(ctx).auction.highest_bid + old(
            ctx,
        ).auction.bid_increment,
        // The outbid party gets its escrow back before the new bid is captured.
        done is Ok ==> (old(ctx).auction.highest_bidder matches Some(previous) ==> done->Ok_0@.len()
            == 2 && done->Ok_0@[0] == (CustodyAction::Release {
            amount: old(ctx).auction.escrowed_amount,
            to: previous,
        }) && done->Ok_0@[1] == (CustodyAction::Hold { amount: bid_amount, from: old(ctx).bidder })),
        // The invariants of the record are kept.
        old(ctx).auction.wf() ==> final(ctx).auction.wf(),
{
    match plan_bid(ctx, now, bid_amount) {
        Err(refusal) => Err(refusal),
        Ok(transfers) => match custody {
            CustodyOutcome::Failed => Err(AuctionError::CustodyTransferFailed),
            CustodyOutcome::Completed => {
                ctx.auction.highest_bid = bid_amount;
                ctx.auction.highest_bidder = Some(ctx.bidder);
                ctx.auction.escrowed_amount = bid_amount;
                Ok(transfers)
            },
        },
    }
}

} // verus!
