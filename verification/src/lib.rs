//! An auction settlement engine.
//!
//! The engine keeps the record of one timed, ascending-price auction for a
//! single asset, decides which bids are admitted, and settles the auction
//! once its window has closed. It never moves funds itself: each operation
//! names the custody transfers it calls for, in order, and takes the custody
//! collaborator's report on them. The clock, storage and the verification of
//! identities belong to the substrate that applies each operation atomically.

pub mod bidding;
pub mod creation;
pub mod custody;
pub mod error;
pub mod identity;
pub mod laws;
pub mod record;
pub mod settlement;

pub use bidding::{place_bid, plan_bid, PlaceBid};
pub use creation::{create_auction, CreateAuction};
pub use custody::{AssetRef, CustodyAction, CustodyOutcome, Holdings};
pub use error::{AuctionError, ErrorKind};
pub use identity::Identity;
pub use record::{Auction, Phase};
pub use settlement::{end_auction, plan_settlement, EndAuction};
