use nftmx_marketplace::engine::Marketplace;
use nftmx_marketplace::error::ContractError;
use nftmx_marketplace::types::{Asset, AssetInfo, Bid, Effect, Expiration, Order};

fn ux(amount: u128) -> Asset {
    Asset { info: AssetInfo::NativeToken { denom: "uX".to_string() }, amount }
}

const NOW: u64 = 1000000;

#[test]
fn full_sale_of_one_asset() {
    let mut m = Marketplace::new();

    // owner A lists item 1 of collection X at 100uX, never expiring
    let r = m
        .create_order(
            NOW,
            "A".to_string(),
            &"A".to_string(),
            "1".to_string(),
            "X".to_string(),
            ux(100),
            Expiration::Never,
        )
        .unwrap();
    assert_eq!(0, r.effects.len());

    // B offers 50: below the asking price
    let r = m.create_bid(NOW, "B".to_string(), "1".to_string(), "X".to_string(), ux(50), Expiration::Never);
    assert_eq!(r.unwrap_err(), ContractError::MinPrice { min_bid_amount: 100 });

    // B offers 150: accepted, nothing to refund
    let r = m
        .create_bid(NOW, "B".to_string(), "1".to_string(), "X".to_string(), ux(150), Expiration::Never)
        .unwrap();
    assert_eq!(0, r.effects.len());

    // C offers 200: accepted, B's 150uX goes back
    let r = m
        .create_bid(NOW, "C".to_string(), "1".to_string(), "X".to_string(), ux(200), Expiration::Never)
        .unwrap();
    assert_eq!(
        r.effects,
        vec![Effect::TransferValue { value: ux(150), recipient: "B".to_string() }]
    );

    // A settles: 200uX to A, the asset to C, and both records are gone
    let r = m
        .execute_order(&"A".to_string(), "1".to_string(), "X".to_string())
        .unwrap();
    assert_eq!(
        r.effects,
        vec![
            Effect::TransferValue { value: ux(200), recipient: "A".to_string() },
            Effect::TransferAsset {
                nft_address: "X".to_string(),
                token_id: "1".to_string(),
                recipient: "C".to_string(),
            },
        ]
    );
    assert!(m.query_order(&"1".to_string(), &"X".to_string()).is_none());
    assert!(m.query_bid(&"1".to_string(), &"X".to_string()).is_none());
}

#[test]
fn round_trip_order_query() {
    let mut m = Marketplace::new();
    let price = Asset { info: AssetInfo::Token { contract_addr: "cw20contract".to_string() }, amount: 77 };
    m.create_order(
        NOW,
        "A".to_string(),
        &"A".to_string(),
        "9".to_string(),
        "X".to_string(),
        price,
        Expiration::AtHeight(123456),
    )
    .unwrap();
    let o = m.query_order(&"9".to_string(), &"X".to_string()).unwrap();
    assert_eq!(o.token_id, "9");
    assert_eq!(o.nft_address, "X");
    assert_eq!(o.seller, "A");
    assert_eq!(
        o.price,
        Asset { info: AssetInfo::Token { contract_addr: "cw20contract".to_string() }, amount: 77 }
    );
    assert_eq!(o.expire_at, Expiration::AtHeight(123456));
}

#[test]
fn operations_leave_other_keys_untouched() {
    let mut m = Marketplace::new();
    m.create_order(
        NOW,
        "A".to_string(),
        &"A".to_string(),
        "1".to_string(),
        "X".to_string(),
        ux(100),
        Expiration::Never,
    )
    .unwrap();
    m.create_order(
        NOW,
        "D".to_string(),
        &"D".to_string(),
        "2".to_string(),
        "X".to_string(),
        ux(300),
        Expiration::Never,
    )
    .unwrap();
    m.create_bid(NOW, "B".to_string(), "2".to_string(), "X".to_string(), ux(400), Expiration::Never)
        .unwrap();

    m.cancel_order(&"A".to_string(), "1".to_string(), "X".to_string()).unwrap();

    // the second listing and its bid are still there
    let o = m.query_order(&"2".to_string(), &"X".to_string()).unwrap();
    assert_eq!(o.seller, "D");
    let b = m.query_bid(&"2".to_string(), &"X".to_string()).unwrap();
    assert_eq!(b.bidder, "B");
    assert_eq!(b.price, ux(400));
}

#[test]
fn relisting_replaces_the_order() {
    let mut m = Marketplace::new();
    m.create_order(
        NOW,
        "A".to_string(),
        &"A".to_string(),
        "1".to_string(),
        "X".to_string(),
        ux(100),
        Expiration::Never,
    )
    .unwrap();
    m.create_order(
        NOW,
        "A".to_string(),
        &"A".to_string(),
        "1".to_string(),
        "X".to_string(),
        ux(250),
        Expiration::Never,
    )
    .unwrap();
    let o = m.query_order(&"1".to_string(), &"X".to_string()).unwrap();
    assert_eq!(o.price, ux(250));
}

#[test]
fn restored_records_are_queryable() {
    let mut m = Marketplace::new();
    m.restore_order(Order {
        token_id: "1".to_string(),
        nft_address: "X".to_string(),
        seller: "A".to_string(),
        price: ux(100),
        expire_at: Expiration::Never,
    });
    m.restore_bid(Bid {
        token_id: "1".to_string(),
        nft_address: "X".to_string(),
        bidder: "B".to_string(),
        seller: "A".to_string(),
        price: ux(150),
        expire_at: Expiration::Never,
    });
    let o = m.query_order(&"1".to_string(), &"X".to_string()).unwrap();
    assert_eq!(o.seller, "A");
    let b = m.query_bid(&"1".to_string(), &"X".to_string()).unwrap();
    assert_eq!(b.bidder, "B");

    // a restored pair settles exactly like a freshly created one
    let r = m
        .execute_order(&"A".to_string(), "1".to_string(), "X".to_string())
        .unwrap();
    assert_eq!(r.effects.len(), 2);
}

#[test]
fn zero_bid_on_zero_priced_order() {
    // a listing created through the engine always has a positive price, but
    // host storage could hand back one without; a zero offer on it is still
    // rejected rather than escrowing nothing
    let mut m = Marketplace::new();
    m.restore_order(Order {
        token_id: "1".to_string(),
        nft_address: "X".to_string(),
        seller: "A".to_string(),
        price: ux(0),
        expire_at: Expiration::Never,
    });
    let r = m.create_bid(NOW, "B".to_string(), "1".to_string(), "X".to_string(), ux(0), Expiration::Never);
    assert_eq!(r.unwrap_err(), ContractError::ZeroBidAmount);
}
