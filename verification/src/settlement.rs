use vstd::prelude::*;
use crate::custody::{CustodyAction, CustodyOutcome};
use crate::error::AuctionError;
use crate::identity::Identity;
use crate::record::Auction;

verus! {

/// What the substrate presents when settlement is asked for: the record and
/// the verified identity of whoever asks. Anyone may ask; the payouts follow
/// from the record alone.
#[derive(Clone, Copy, Debug, PartialEq, Eq)]
pub struct EndAuction {
    pub auction: Auction,
    pub caller: Identity,
}

/// The rule that stands against settling at `now`, if one does: the window
/// must be over, and the auction must not have been settled before.
pub open spec fn settlement_rejection(auction: Auction, now: i64) -> Option<AuctionError> {
    if now < auction.end_time {
        Some(AuctionError::AuctionNotYetEnded)
    } else if auction.settled {
        Some(AuctionError::AlreadySettled)
    } else {
        None
    }
}

/// The custody instructions of a settlement. Without a bidder the asset
/// goes back to the seller and no funds move. With one, the escrow is paid
/// to the seller and the asset goes to the high bidder.
pub open spec fn settlement_transfers(auction: Auction) -> Seq<CustodyAction> {
    match auction.highest_bidder {
        Some(winner) => seq![
            CustodyAction::Release { amount: auction.escrowed_amount, to: auction.seller },
            CustodyAction::MoveAsset { asset: auction.asset_reference, to: winner },
        ],
        None => seq![CustodyAction::MoveAsset { asset: auction.asset_reference, to: auction.seller }],
    }
}

/// The record once it has been settled at the request of `caller`: escrow
/// that was paid out is gone, and the record is marked and names the caller.
pub open spec fn settled_record(auction: Auction, caller: Identity) -> Auction {
    Auction {
        escrowed_amount: if auction.highest_bidder is Some {
            0
        } else {
            auction.escrowed_amount
        },
        settled: true,
        settled_by: Some(caller),
        ..auction
    }
}

/// Whether a settlement goes through: no rule stands against it and custody
/// completed the transfers.
pub open spec fn settlement_accepted(auction: Auction, now: i64, custody: CustodyOutcome) -> bool {
    settlement_rejection(auction, now) is None && custody == CustodyOutcome::Completed
}

/// The record after a request for settlement has been dealt with: settled
/// when the request went through, untouched otherwise.
pub open spec fn after_settlement(
    auction: Auction,
    now: i64,
    caller: Identity,
    custody: CustodyOutcome,
) -> Auction {
    if settlement_accepted(auction, now, custody) {
        settled_record(auction, caller)
    } else {
        auction
    }
}

/// Decides on a settlement without touching anything: the refusal it meets,
/// or the custody instructions that it calls for, in order.
pub fn plan_settlement(ctx: &EndAuction, now: i64) -> (plan: Result<
    Vec<CustodyAction>,
    AuctionError,
>)
    ensures
        match settlement_rejection(ctx.auction, now) {
            Some(refusal) => plan == Err::<Vec<CustodyAction>, AuctionError>(refusal),
            None => plan is Ok && plan->Ok_0@ == settlement_transfers(ctx.auction),
        },
{
    if now < ctx.auction.end_time {
        return Err(AuctionError::AuctionNotYetEnded);
    }
    if ctx.auction.settled {
        return Err(AuctionError::AlreadySettled);
    }
    let mut transfers: Vec<CustodyAction> = Vec::new();
    match ctx.auction.highest_bidder {
        Some(winner) => {
            transfers.push(
                CustodyAction::Release {
                    amount: ctx.auction.escrowed_amount,
                    to: ctx.auction.seller,
                },
            );
            transfers.push(
                CustodyAction::MoveAsset { asset: ctx.auction.asset_reference, to: winner },
            );
        },
        None => {
            transfers.push(
                CustodyAction::MoveAsset {
                    asset: ctx.auction.asset_reference,
                    to: ctx.auction.seller,
                },
            );
        },
    }
    assert(transfers@ =~= settlement_transfers(ctx.auction));
    Ok(transfers)
}

/// Settles the auction as one atomic operation. `custody` is the
/// collaborator's report on the instructions that `plan_settlement` names.
/// The settlement goes through when the window is over, the auction has not
/// been settled before and custody completed: the record is then marked as
/// settled, last of all, and names the caller, and the instructions that
/// took effect are returned. In every other case the error says why and the
/// record is untouched, so that a failed settlement can be asked for again.
pub fn end_auction(ctx: &mut EndAuction, now: i64, custody: CustodyOutcome) -> (done: Result<
    Vec<CustodyAction>,
    AuctionError,
>)
    ensures
        match settlement_rejection(old(ctx).auction, now) {
            Some(refusal) => done == Err::<Vec<CustodyAction>, AuctionError>(refusal),
            None => match custody {
                CustodyOutcome::Failed => done == Err::<Vec<CustodyAction>, AuctionError>(
                    AuctionError::SettlementTransferFailed,
                ),
                CustodyOutcome::Completed => done is Ok && done->Ok_0@ == settlement_transfers(
                    old(ctx).auction,
                ),
            },
        },
        done is Ok <==> settlement_accepted(old(ctx).auction, now, custody),
        final(ctx).auction == after_settlement(old(ctx).auction, now, old(ctx).caller, custody),
        final(ctx).caller == old(ctx).caller,
        // A refusal changes nothing.
        done is Err ==> *final(ctx) == *old(ctx),
        // A settled record never changes, and is never settled again.
        old(ctx).auction.settled ==> done is Err && *final(ctx) == *old(ctx),
        // A settlement that went through leaves the record settled.
        done is Ok ==> final(ctx).auction.settled && final(ctx).auction.settled_by == Some(
            old(ctx).caller,
        ),
        // The invariants of the record are kept.
        old(ctx).auction.wf() ==> final(ctx).auction.wf(),
{
    match plan_settlement(ctx, now) {
        Err(refusal) => Err(refusal),
        Ok(transfers) => match custody {
            CustodyOutcome::Failed => Err(AuctionError::SettlementTransferFailed),
            CustodyOutcome::Completed => {
                match ctx.auction.highest_bidder {
                    Some(_) => {
                        ctx.auction.escrowed_amount = 0;
                    },
                    None => {},
                }
                ctx.auction.settled_by = Some(ctx.caller);
                ctx.auction.settled = true;
                Ok(transfers)
            },
        },
    }
}

} // verus!
