use vstd::prelude::*;
use crate::custody::AssetRef;
use crate::identity::Identity;

verus! {

/// Where an auction stands. `Pending`, `Open` and `Closed` follow from the
/// clock alone; only `Settled` is kept in the record.
#[derive(Clone, Copy, Debug, PartialEq, Eq, Structural)]
pub enum Phase {
    /// The window has not started.
    Pending,
    /// Bids are taken.
    Open,
    /// The window is over and the auction awaits settlement.
    Closed,
    /// Proceeds and asset have been handed out; nothing changes any more.
    Settled,
}

impl Phase {
    /// Position in the order `Pending`, `Open`, `Closed`, `Settled`.
    pub open spec fn rank(self) -> nat {
        match self {
            Phase::Pending => 0,
            Phase::Open => 1,
            Phase::Closed => 2,
            Phase::Settled => 3,
        }
    }
}

/// The record of one auction.
#[derive(Clone, Copy, Debug, PartialEq, Eq)]
pub struct Auction {
    /// Identifier chosen by the caller, unique among auctions.
    pub auction_id: u64,
    /// The party entitled to the proceeds.
    pub seller: Identity,
    /// Where the asset on sale is kept while the auction owns it.
    pub asset_reference: AssetRef,
    /// The least amount for which the asset is sold.
    pub reserve_price: u64,
    /// The high bid; until a bid is admitted, the reserve price as a floor.
    pub highest_bid: u64,
    /// Who holds the high bid; `None` until a bid is admitted.
    pub highest_bidder: Option<Identity>,
    /// Funds held in escrow on behalf of the high bidder.
    pub escrowed_amount: u64,
    /// First instant at which bids are taken.
    pub start_time: i64,
    /// First instant at which bids are no longer taken.
    pub end_time: i64,
    /// By how much a bid must exceed the high bid at least.
    pub bid_increment: u64,
    /// Whether the auction has been settled.
    pub settled: bool,
    /// Who asked for the settlement, kept for audit.
    pub settled_by: Option<Identity>,
}

impl Auction {
    /// What holds of a record after every operation: the window is not
    /// empty, the high bid never lies under the reserve price, escrow holds
    /// the high bid of the one high bidder and nothing else, and a settled
    /// auction holds nothing and names who settled it.
    pub open spec fn wf(self) -> bool {
        &&& self.start_time < self.end_time
        &&& self.highest_bid >= self.reserve_price
        &&& self.highest_bidder is None ==> self.highest_bid == self.reserve_price
            && self.escrowed_amount == 0
        &&& self.highest_bidder is Some && !self.settled ==> self.escrowed_amount
            == self.highest_bid
        &&& self.settled ==> self.escrowed_amount == 0
        &&& self.settled <==> self.settled_by is Some
    }

    /// The phase of the auction at the instant `now`.
    pub open spec fn phase_at(self, now: i64) -> Phase {
        if self.settled {
            Phase::Settled
        } else if now < self.start_time {
            Phase::Pending
        } else if now < self.end_time {
            Phase::Open
        } else {
            Phase::Closed
        }
    }

    /// Tells whether the record is well formed.
    pub fn is_well_formed(&self) -> (ok: bool)
        ensures
            ok == self.wf(),
    {
        let escrow_in_order = if self.settled {
            self.escrowed_amount == 0
        } else {
            match self.highest_bidder {
                Some(_) => self.escrowed_amount == self.highest_bid,
                None => self.escrowed_amount == 0,
            }
        };
        let floor_in_order = match self.highest_bidder {
            Some(_) => self.highest_bid >= self.reserve_price,
            None => self.highest_bid == self.reserve_price,
        };
        let audit_in_order = match self.settled_by {
            Some(_) => self.settled,
            None => !self.settled,
        };
        self.start_time < self.end_time && floor_in_order && escrow_in_order && audit_in_order
    }

    /// The phase of the auction at the instant `now`.
    pub fn phase(&self, now: i64) -> (p: Phase)
        ensures
            p == self.phase_at(now),
    {
        if self.settled {
            Phase::Settled
        } else if now < self.start_time {
            Phase::Pending
        } else if now < self.end_time {
            Phase::Open
        } else {
            Phase::Closed
        }
    }
}

} // verus!
