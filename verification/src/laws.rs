use vstd::prelude::*;
use crate::bidding::{after_bid, bid_accepted, bid_rejection, bid_transfers, with_bid};
use crate::custody::{CustodyAction, CustodyOutcome, Holdings};
use crate::error::AuctionError;
use crate::identity::Identity;
use crate::record::Auction;
use crate::settlement::{
    after_settlement,
    settled_record,
    settlement_accepted,
    settlement_rejection,
    settlement_transfers,
};

verus! {

/// One bid as the engine meets it: the instant, the bidder, the amount, the
/// reading of the bidder's funds, and custody's report on the transfers.
pub struct BidAttempt {
    pub now: i64,
    pub bidder: Identity,
    pub bid_amount: u64,
    pub funds_available: u64,
    pub custody: CustodyOutcome,
}

/// Whether `attempt` goes through on `auction`.
pub open spec fn attempt_accepted(auction: Auction, attempt: BidAttempt) -> bool {
    bid_accepted(
        auction,
        attempt.now,
        attempt.bidder,
        attempt.bid_amount,
        attempt.funds_available,
        attempt.custody,
    )
}

/// The record after `attempts` have been dealt with one after another.
pub open spec fn after_bids(auction: Auction, attempts: Seq<BidAttempt>) -> Auction
    decreases attempts.len(),
{
    if attempts.len() == 0 {
        auction
    } else {
        let last = attempts.last();
        after_bid(
            after_bids(auction, attempts.drop_last()),
            last.now,
            last.bidder,
            last.bid_amount,
            last.funds_available,
            last.custody,
        )
    }
}

/// The amounts of those of `attempts` that went through, in order.
pub open spec fn accepted_bids(auction: Auction, attempts: Seq<BidAttempt>) -> Seq<u64>
    decreases attempts.len(),
{
    if attempts.len() == 0 {
        Seq::empty()
    } else {
        let earlier = accepted_bids(auction, attempts.drop_last());
        if attempt_accepted(after_bids(auction, attempts.drop_last()), attempts.last()) {
            earlier.push(attempts.last().bid_amount)
        } else {
            earlier
        }
    }
}

/// Bids change nothing but the high bid, its holder and the escrow.
pub proof fn lemma_bids_touch_only_the_high_bid(auction: Auction, attempts: Seq<BidAttempt>)
    ensures
        after_bids(auction, attempts) == (Auction {
            highest_bid: after_bids(auction, attempts).highest_bid,
            highest_bidder: after_bids(auction, attempts).highest_bidder,
            escrowed_amount: after_bids(auction, attempts).escrowed_amount,
            ..auction
        }),
    decreases attempts.len(),
{
    if attempts.len() > 0 {
        lemma_bids_touch_only_the_high_bid(auction, attempts.drop_last());
    }
}

/// Whatever bids arrive, in whatever order and at whatever time, a well
/// formed record stays well formed after each of them: the high bid never
/// lies under the reserve price, and escrow holds exactly the high bid of
/// the one high bidder, or nothing while nobody has bid.
pub proof fn lemma_bids_keep_the_invariants(auction: Auction, attempts: Seq<BidAttempt>)
    requires
        auction.wf(),
    ensures
        forall|k: int|
            #![trigger attempts.take(k)]
            0 <= k <= attempts.len() ==> {
                let reached = after_bids(auction, attempts.take(k));
                &&& reached.wf()
                &&& reached.highest_bid >= reached.reserve_price
                &&& !reached.settled ==> reached.escrowed_amount == match reached.highest_bidder {
                    Some(_) => reached.highest_bid,
                    None => 0,
                }
            },
{
    assert forall|k: int| #![trigger attempts.take(k)] 0 <= k <= attempts.len() implies {
        let reached = after_bids(auction, attempts.take(k));
        &&& reached.wf()
        &&& reached.highest_bid >= reached.reserve_price
        &&& !reached.settled ==> reached.escrowed_amount == match reached.highest_bidder {
            Some(_) => reached.highest_bid,
            None => 0,
        }
    } by {
        lemma_bids_end_well_formed(auction, attempts.take(k));
    }
}

proof fn lemma_bids_end_well_formed(auction: Auction, attempts: Seq<BidAttempt>)
    requires
        auction.wf(),
    ensures
        after_bids(auction, attempts).wf(),
    decreases attempts.len(),
{
    if attempts.len() > 0 {
        lemma_bids_end_well_formed(auction, attempts.drop_last());
    }
}

/// Among the bids that went through, each one tops the one before it by the
/// increment at least, and the first one tops the high bid from which the
/// sequence started in the same way. The record ends with the last of them
/// as its high bid.
pub proof fn lemma_accepted_bids_climb(auction: Auction, attempts: Seq<BidAttempt>)
    ensures
        ({
            let amounts = accepted_bids(auction, attempts);
            &&& amounts.len() <= attempts.len()
            &&& amounts.len() > 0 ==> amounts[0] >= auction.highest_bid + auction.bid_increment
            &&& forall|i: int|
                0 <= i && i + 1 < amounts.len() ==> #[trigger] amounts[i + 1] >= amounts[i]
                    + auction.bid_increment
            &&& after_bids(auction, attempts).highest_bid == if amounts.len() > 0 {
                amounts.last()
            } else {
                auction.highest_bid
            }
        }),
    decreases attempts.len(),
{
    if attempts.len() > 0 {
        lemma_accepted_bids_climb(auction, attempts.drop_last());
        lemma_bids_touch_only_the_high_bid(auction, attempts.drop_last());
    }
}

/// With an increment above zero, each bid that went through is strictly
/// greater than the one before it, and the first one strictly greater than
/// the high bid from which the sequence started.
pub proof fn lemma_accepted_bids_strictly_climb(auction: Auction, attempts: Seq<BidAttempt>)
    requires
        auction.bid_increment > 0,
    ensures
        ({
            let amounts = accepted_bids(auction, attempts);
            &&& amounts.len() > 0 ==> amounts[0] > auction.highest_bid
            &&& forall|i: int|
                0 <= i && i + 1 < amounts.len() ==> #[trigger] amounts[i + 1] > amounts[i]
        }),
{
    lemma_accepted_bids_climb(auction, attempts);
}

/// When a bid is admitted over a standing high bidder, custody is told to
/// give that bidder its escrow back first and to capture the new bid second:
/// after the first instruction the outbid party owns exactly the old escrow
/// more than before, escrow holds that much less, and nothing of the new bid
/// has been taken yet.
pub proof fn lemma_refund_precedes_capture(
    auction: Auction,
    bidder: Identity,
    bid_amount: u64,
    previous: Identity,
    books: Holdings,
)
    requires
        auction.highest_bidder == Some(previous),
    ensures
        ({
            let plan = bid_transfers(auction, bidder, bid_amount);
            let refunded = books.apply(plan[0]);
            &&& plan.len() == 2
            &&& plan[0] == (CustodyAction::Release { amount: auction.escrowed_amount, to: previous })
            &&& plan[1] == (CustodyAction::Hold { amount: bid_amount, from: bidder })
            &&& refunded.balance_of(previous) == books.balance_of(previous)
                + auction.escrowed_amount
            &&& refunded.escrow == books.escrow - auction.escrowed_amount
            &&& forall|other: Identity|
                other != previous ==> #[trigger] refunded.balance_of(other) == books.balance_of(
                    other,
                )
            &&& books.apply_all(plan) == refunded.apply(plan[1])
        }),
{
    let plan = bid_transfers(auction, bidder, bid_amount);
    lemma_apply_two(books, plan);
}

/// While custody's escrow agrees with the record, an admitted bid keeps it
/// so, and at no point between the instructions does escrow hold more than
/// one bidder's funds: it is empty once the outbid party has its refund, and
/// holds the new bid alone at the end.
pub proof fn lemma_escrow_follows_bids(
    auction: Auction,
    bidder: Identity,
    bid_amount: u64,
    books: Holdings,
)
    requires
        auction.wf(),
        !auction.settled,
        books.escrow == auction.escrowed_amount,
    ensures
        ({
            let plan = bid_transfers(auction, bidder, bid_amount);
            &&& books.apply_all(plan).escrow == with_bid(auction, bidder, bid_amount).escrowed_amount
            &&& books.apply_all(plan).escrow == bid_amount
            &&& plan.len() == 2 ==> books.apply(plan[0]).escrow == 0
        }),
{
    let plan = bid_transfers(auction, bidder, bid_amount);
    if auction.highest_bidder is Some {
        lemma_apply_two(books, plan);
    } else {
        lemma_apply_one(books, plan);
    }
}

/// While custody's escrow agrees with the record, settlement empties it:
/// with a high bidder the seller receives the whole escrow and the high
/// bidder the asset; without one the asset returns to the seller and no
/// balance changes.
pub proof fn lemma_settlement_drains_escrow(auction: Auction, caller: Identity, books: Holdings)
    requires
        auction.wf(),
        !auction.settled,
        books.escrow == auction.escrowed_amount,
    ensures
        ({
            let paid = books.apply_all(settlement_transfers(auction));
            &&& paid.escrow == 0
            &&& paid.escrow == settled_record(auction, caller).escrowed_amount
            &&& paid.balance_of(auction.seller) == books.balance_of(auction.seller)
                + auction.escrowed_amount
            &&& forall|other: Identity|
                other != auction.seller ==> #[trigger] paid.balance_of(other) == books.balance_of(
                    other,
                )
            &&& paid.assets.dom().contains(auction.asset_reference)
            &&& paid.assets[auction.asset_reference] == match auction.highest_bidder {
                Some(winner) => winner,
                None => auction.seller,
            }
        }),
{
    let plan = settlement_transfers(auction);
    if auction.highest_bidder is Some {
        lemma_apply_two(books, plan);
    } else {
        lemma_apply_one(books, plan);
    }
}

/// An auction is settled once. After a settlement that went through, every
/// later request is refused with `AlreadySettled`, whoever asks and whatever
/// custody reports, and leaves the record as the first settlement left it.
pub proof fn lemma_settlement_happens_once(
    auction: Auction,
    now: i64,
    caller: Identity,
    later: i64,
    again_by: Identity,
    custody: CustodyOutcome,
)
    requires
        settlement_accepted(auction, now, CustodyOutcome::Completed),
        now <= later,
    ensures
        ({
            let settled = after_settlement(auction, now, caller, CustodyOutcome::Completed);
            &&& settled == settled_record(auction, caller)
            &&& settlement_rejection(settled, later) == Some(AuctionError::AlreadySettled)
            &&& !settlement_accepted(settled, later, custody)
            &&& after_settlement(settled, later, again_by, custody) == settled
        }),
{
}

/// No operation takes an auction back to an earlier phase: as the clock
/// moves on from `now` to `later`, the phase after a bid or after a request
/// for settlement is never before the phase in which the operation found
/// the auction.
pub proof fn lemma_phase_never_regresses(
    auction: Auction,
    attempt: BidAttempt,
    caller: Identity,
    custody: CustodyOutcome,
    later: i64,
)
    requires
        attempt.now <= later,
    ensures
        after_bid(
            auction,
            attempt.now,
            attempt.bidder,
            attempt.bid_amount,
            attempt.funds_available,
            attempt.custody,
        ).phase_at(later).rank() >= auction.phase_at(attempt.now).rank(),
        after_settlement(auction, attempt.now, caller, custody).phase_at(later).rank()
            >= auction.phase_at(attempt.now).rank(),
{
}

/// A settled record is final: every bid is refused with `AuctionNotOpen`,
/// no settlement goes through, and neither changes the record.
pub proof fn lemma_settled_is_final(
    auction: Auction,
    attempt: BidAttempt,
    caller: Identity,
    custody: CustodyOutcome,
)
    requires
        auction.settled,
    ensures
        bid_rejection(
            auction,
            attempt.now,
            attempt.bidder,
            attempt.bid_amount,
            attempt.funds_available,
        ) == Some(AuctionError::AuctionNotOpen),
        after_bid(
            auction,
            attempt.now,
            attempt.bidder,
            attempt.bid_amount,
            attempt.funds_available,
            attempt.custody,
        ) == auction,
        !settlement_accepted(auction, attempt.now, custody),
        after_settlement(auction, attempt.now, caller, custody) == auction,
{
}

proof fn lemma_apply_one(books: Holdings, plan: Seq<CustodyAction>)
    requires
        plan.len() == 1,
    ensures
        books.apply_all(plan) == books.apply(plan[0]),
{
    reveal_with_fuel(Holdings::apply_all, 2);
}

proof fn lemma_apply_two(books: Holdings, plan: Seq<CustodyAction>)
    requires
        plan.len() == 2,
    ensures
        books.apply_all(plan) == books.apply(plan[0]).apply(plan[1]),
{
    reveal_with_fuel(Holdings::apply_all, 3);
    assert(plan.drop_first().len() == 1);
    assert(plan.drop_first()[0] == plan[1]);
}

} // verus!
