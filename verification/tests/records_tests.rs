use oak_xcm::call::AccountId;
use oak_xcm::records::Bid;
use oak_xcm::records::MatchRegistry;
use oak_xcm::records::Offer;
use oak_xcm::records::TradeStore;
use oak_xcm::records::is_match;

fn account(fill: u8) -> AccountId {
    AccountId { bytes: vec![fill; 32] }
}

fn bid() -> Bid {
    Bid {
        uuid: 12,
        market_uuid: Some(b"market-a".to_vec()),
        asset_uuid: Some(b"asset-a".to_vec()),
        max_energy: 100,
        time_slot: b"slot-1".to_vec(),
    }
}

fn offer() -> Offer {
    Offer {
        uuid: 12,
        market_uuid: b"market-a".to_vec(),
        asset_uuid: b"asset-a".to_vec(),
        energy_type: b"solar".to_vec(),
        max_energy: 100,
        time_slot: b"slot-1".to_vec(),
    }
}

#[test]
fn it_works_for_default_value() {
    let mut store = TradeStore::new();
    store.store_trade_map(
        b"42".to_vec(),
        b"42".to_vec(),
        100,
        b"42".to_vec(),
        account(200),
        account(200),
        100,
        12,
    );
    let found = store.trade_map(&b"42".to_vec()).expect("the stored trade is found");
    assert_eq!(found.energy, 100);
    assert_eq!(found.rate, 12);
}

#[test]
fn latest_write_wins_on_lookup() {
    let mut store = TradeStore::new();
    store.store_trade_map(
        b"sim".to_vec(),
        b"m1".to_vec(),
        1,
        b"trade".to_vec(),
        account(1),
        account(2),
        10,
        20,
    );
    store.store_trade_map(
        b"sim".to_vec(),
        b"m1".to_vec(),
        2,
        b"trade".to_vec(),
        account(3),
        account(4),
        30,
        40,
    );
    let found = store.trade_map(&b"trade".to_vec()).expect("found");
    assert_eq!(found.energy, 30);
    assert_eq!(found.rate, 40);
    assert_eq!(found.buyer.bytes, vec![3u8; 32]);
    assert!(store.trade_map(&b"absent".to_vec()).is_none());
}

#[test]
fn matching_pairs_verify_and_register() {
    let mut registry = MatchRegistry::new();
    assert!(is_match(&bid(), &offer()));
    assert!(!registry.valid_trades(12));
    let (returned_bid, returned_offer) = registry.verify_match(bid(), offer());
    assert_eq!(returned_bid.uuid, 12);
    assert_eq!(returned_offer.uuid, 12);
    assert!(registry.valid_trades(12));
    assert!(!registry.valid_trades(13));
}

#[test]
fn mismatched_pairs_fail_the_rule() {
    let mut wrong_uuid = bid();
    wrong_uuid.uuid = 13;
    assert!(!is_match(&wrong_uuid, &offer()));

    let mut wrong_market = bid();
    wrong_market.market_uuid = Some(b"market-b".to_vec());
    assert!(!is_match(&wrong_market, &offer()));

    let mut missing_asset = bid();
    missing_asset.asset_uuid = None;
    assert!(!is_match(&missing_asset, &offer()));
}
