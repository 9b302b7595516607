use onchain_auction::{
    create_auction, AssetRef, Auction, AuctionError, CreateAuction, ErrorKind, Identity, Phase,
};

fn party(tag: u8) -> Identity {
    Identity { key: [tag; 32] }
}

fn asset() -> AssetRef {
    AssetRef { handle: [5; 32] }
}

fn empty_slot() -> CreateAuction {
    CreateAuction { auction: None, seller: party(1), asset_reference: asset() }
}

#[test]
fn created_record_starts_at_the_reserve_price() {
    let mut ctx = empty_slot();
    assert_eq!(create_auction(&mut ctx, 11, 250, 10, 20, 5), Ok(()));
    assert_eq!(
        ctx.auction,
        Some(Auction {
            auction_id: 11,
            seller: party(1),
            asset_reference: asset(),
            reserve_price: 250,
            highest_bid: 250,
            highest_bidder: None,
            escrowed_amount: 0,
            start_time: 10,
            end_time: 20,
            bid_increment: 5,
            settled: false,
            settled_by: None,
        })
    );
    assert!(ctx.auction.unwrap().is_well_formed());
    assert_eq!(ctx.seller, party(1));
    assert_eq!(ctx.asset_reference, asset());
}

#[test]
fn empty_window_is_refused() {
    let mut ctx = empty_slot();
    assert_eq!(create_auction(&mut ctx, 11, 250, 20, 20, 5), Err(AuctionError::InvalidWindow));
    assert_eq!(ctx, empty_slot());
    assert_eq!(create_auction(&mut ctx, 11, 250, 21, 20, 5), Err(AuctionError::InvalidWindow));
    assert_eq!(
        create_auction(&mut ctx, 11, 250, i64::MAX, i64::MIN, 5),
        Err(AuctionError::InvalidWindow)
    );
    assert_eq!(ctx, empty_slot());
}

#[test]
fn window_of_one_instant_is_accepted() {
    let mut ctx = empty_slot();
    assert_eq!(create_auction(&mut ctx, 11, 250, 19, 20, 5), Ok(()));
    let auction = ctx.auction.unwrap();
    assert_eq!(auction.phase(18), Phase::Pending);
    assert_eq!(auction.phase(19), Phase::Open);
    assert_eq!(auction.phase(20), Phase::Closed);
}

#[test]
fn identifier_in_use_is_refused() {
    let mut ctx = empty_slot();
    assert_eq!(create_auction(&mut ctx, 11, 250, 10, 20, 5), Ok(()));
    let first = ctx;
    assert_eq!(
        create_auction(&mut ctx, 11, 900, 100, 200, 1),
        Err(AuctionError::DuplicateAuctionId)
    );
    assert_eq!(ctx, first);
}

#[test]
fn empty_window_is_reported_before_the_identifier() {
    let mut ctx = empty_slot();
    assert_eq!(create_auction(&mut ctx, 11, 250, 10, 20, 5), Ok(()));
    let first = ctx;
    assert_eq!(create_auction(&mut ctx, 11, 250, 20, 10, 5), Err(AuctionError::InvalidWindow));
    assert_eq!(ctx, first);
}

#[test]
fn phase_follows_the_clock() {
    let mut ctx = empty_slot();
    assert_eq!(create_auction(&mut ctx, 1, 0, -100, 100, 0), Ok(()));
    let mut auction = ctx.auction.unwrap();
    assert_eq!(auction.phase(i64::MIN), Phase::Pending);
    assert_eq!(auction.phase(-101), Phase::Pending);
    assert_eq!(auction.phase(-100), Phase::Open);
    assert_eq!(auction.phase(99), Phase::Open);
    assert_eq!(auction.phase(100), Phase::Closed);
    assert_eq!(auction.phase(i64::MAX), Phase::Closed);
    auction.settled = true;
    auction.settled_by = Some(party(1));
    for now in [i64::MIN, -100, 0, 100, i64::MAX] {
        assert_eq!(auction.phase(now), Phase::Settled);
    }
}

#[test]
fn well_formedness_is_told_apart() {
    let mut ctx = empty_slot();
    assert_eq!(create_auction(&mut ctx, 1, 100, 0, 10, 1), Ok(()));
    let good = ctx.auction.unwrap();
    assert!(good.is_well_formed());

    assert!(!Auction { end_time: 0, ..good }.is_well_formed());
    assert!(!Auction { highest_bid: 99, ..good }.is_well_formed());
    assert!(!Auction { highest_bid: 101, ..good }.is_well_formed());
    assert!(!Auction { escrowed_amount: 1, ..good }.is_well_formed());
    assert!(!Auction { settled: true, ..good }.is_well_formed());
    assert!(!Auction { settled_by: Some(party(1)), ..good }.is_well_formed());
    assert!(Auction { settled: true, settled_by: Some(party(1)), ..good }.is_well_formed());

    let bid = Auction {
        highest_bid: 150,
        highest_bidder: Some(party(2)),
        escrowed_amount: 150,
        ..good
    };
    assert!(bid.is_well_formed());
    assert!(!Auction { escrowed_amount: 149, ..bid }.is_well_formed());
    assert!(!Auction { escrowed_amount: 0, ..bid }.is_well_formed());
    assert!(!Auction { highest_bid: 99, escrowed_amount: 99, ..bid }.is_well_formed());
    assert!(!Auction { settled: true, settled_by: Some(party(3)), ..bid }.is_well_formed());
    assert!(Auction { settled: true, settled_by: Some(party(3)), escrowed_amount: 0, ..bid }
        .is_well_formed());
}

#[test]
fn errors_fall_into_three_kinds() {
    let validation = [
        AuctionError::InvalidWindow,
        AuctionError::BidTooLow,
        AuctionError::AlreadyHighestBidder,
        AuctionError::AuctionNotOpen,
        AuctionError::AuctionNotYetEnded,
        AuctionError::AlreadySettled,
    ];
    for error in validation {
        assert_eq!(error.kind(), ErrorKind::Validation);
    }
    for error in [AuctionError::InsufficientFunds, AuctionError::DuplicateAuctionId] {
        assert_eq!(error.kind(), ErrorKind::Resource);
    }
    for error in [AuctionError::CustodyTransferFailed, AuctionError::SettlementTransferFailed] {
        assert_eq!(error.kind(), ErrorKind::Custody);
    }
}

#[test]
fn identities_compare_by_all_their_bytes() {
    assert!(party(4) == party(4));
    assert!(party(4) != party(5));
    for at in 0..32 {
        let mut key = [4u8; 32];
        key[at] = 5;
        assert!(Identity { key } != party(4));
    }
}
