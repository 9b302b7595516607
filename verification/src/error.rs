use vstd::prelude::*;

verus! {

/// Why an operation on an auction was refused. Every refusal leaves the
/// record exactly as it was.
#[derive(Clone, Copy, Debug, PartialEq, Eq, Structural)]
pub enum AuctionError {
    /// The bidding window is empty: it does not start before it ends.
    InvalidWindow,
    /// The auction identifier already names a record.
    DuplicateAuctionId,
    /// Bidding has not started, is over, or the auction is settled.
    AuctionNotOpen,
    /// The bid does not reach the high bid plus the increment.
    BidTooLow,
    /// The bidder already holds the high bid.
    AlreadyHighestBidder,
    /// The funds source does not cover the bid.
    InsufficientFunds,
    /// The custody collaborator failed to refund or to capture.
    CustodyTransferFailed,
    /// Settlement was asked for before the window closed.
    AuctionNotYetEnded,
    /// The auction has been settled before.
    AlreadySettled,
    /// The custody collaborator failed to pay out or to hand over the asset.
    SettlementTransferFailed,
}

/// The three families of refusal.
#[derive(Clone, Copy, Debug, PartialEq, Eq, Structural)]
pub enum ErrorKind {
    /// The request breaks a rule; the caller may correct it and ask again.
    Validation,
    /// The caller or the environment lacks something the request needs.
    Resource,
    /// The custody collaborator could not move funds or the asset.
    Custody,
}

impl AuctionError {
    /// The family an error belongs to.
    pub open spec fn spec_kind(self) -> ErrorKind {
        match self {
            AuctionError::InvalidWindow => ErrorKind::Validation,
            AuctionError::BidTooLow => ErrorKind::Validation,
            AuctionError::AlreadyHighestBidder => ErrorKind::Validation,
            AuctionError::AuctionNotOpen => ErrorKind::Validation,
            AuctionError::AuctionNotYetEnded => ErrorKind::Validation,
            AuctionError::AlreadySettled => ErrorKind::Validation,
            AuctionError::InsufficientFunds => ErrorKind::Resource,
            AuctionError::DuplicateAuctionId => ErrorKind::Resource,
            AuctionError::CustodyTransferFailed => ErrorKind::Custody,
            AuctionError::SettlementTransferFailed => ErrorKind::Custody,
        }
    }

    /// The family an error belongs to.
    #[verifier::when_used_as_spec(spec_kind)]
    pub fn kind(self) -> (k: ErrorKind)
        ensures
            k == self.spec_kind(),
    {
        match self {
            AuctionError::InvalidWindow
            | AuctionError::BidTooLow
            | AuctionError::AlreadyHighestBidder
            | AuctionError::AuctionNotOpen
            | AuctionError::AuctionNotYetEnded
            | AuctionError::AlreadySettled => ErrorKind::Validation,
            AuctionError::InsufficientFunds | AuctionError::DuplicateAuctionId => {
                ErrorKind::Resource
            },
            AuctionError::CustodyTransferFailed | AuctionError::SettlementTransferFailed => {
                ErrorKind::Custody
            },
        }
    }
}

} // verus!
