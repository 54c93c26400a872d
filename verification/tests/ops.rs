use nftmx_marketplace::engine::{version, Marketplace};
use nftmx_marketplace::error::ContractError;
use nftmx_marketplace::types::{Asset, AssetInfo, AttrValue, Effect, Expiration};

fn native(denom: &str, amount: u128) -> Asset {
    Asset { info: AssetInfo::NativeToken { denom: denom.to_string() }, amount }
}

const NOW: u64 = 1571797419;
const TOKEN: &str = "47850";
const NFT: &str = "terra13rxnrpjk5l8c77zsdzzq63zmavu03hwn532wn0";

fn list(m: &mut Marketplace, seller: &str, amount: u128) {
    let r = m
        .create_order(
            NOW,
            seller.to_string(),
            &seller.to_string(),
            TOKEN.to_string(),
            NFT.to_string(),
            native("uluna", amount),
            Expiration::Never,
        )
        .unwrap();
    assert_eq!(0, r.effects.len());
}

#[test]
fn _create_order_works() {
    let mut m = Marketplace::new();
    let expiration = Expiration::AtTime(1648938996);
    let price = native("uluna", 1);
    let res = m
        .create_order(
            NOW,
            "signer".to_string(),
            &"signer".to_string(),
            TOKEN.to_string(),
            NFT.to_string(),
            price,
            expiration,
        )
        .unwrap();
    assert_eq!(0, res.effects.len());
}

#[test]
fn _create_bid_works() {
    let mut m = Marketplace::new();
    let expiration = Expiration::AtTime(1648938996);
    let price = native("uluna", 1);
    let order_res = m
        .create_order(
            NOW,
            "signer".to_string(),
            &"signer".to_string(),
            TOKEN.to_string(),
            NFT.to_string(),
            price,
            expiration,
        )
        .unwrap();
    assert_eq!(0, order_res.effects.len());

    let price = native("uluna", 1);
    let res = m
        .create_bid(NOW, "signer".to_string(), TOKEN.to_string(), NFT.to_string(), price, expiration)
        .unwrap();
    assert_eq!(0, res.effects.len());
}

#[test]
fn create_order_stores_inputs() {
    let mut m = Marketplace::new();
    list(&mut m, "alice", 100);
    let o = m.query_order(&TOKEN.to_string(), &NFT.to_string()).unwrap();
    assert_eq!(o.token_id, TOKEN);
    assert_eq!(o.nft_address, NFT);
    assert_eq!(o.seller, "alice");
    assert_eq!(o.price, native("uluna", 100));
    assert_eq!(o.expire_at, Expiration::Never);
}

#[test]
fn create_order_rejects_zero_price() {
    let mut m = Marketplace::new();
    let r = m.create_order(
        NOW,
        "alice".to_string(),
        &"alice".to_string(),
        TOKEN.to_string(),
        NFT.to_string(),
        native("uluna", 0),
        Expiration::Never,
    );
    assert_eq!(r.unwrap_err(), ContractError::InvalidPrice);
    assert!(m.query_order(&TOKEN.to_string(), &NFT.to_string()).is_none());
}

#[test]
fn create_order_rejects_non_owner() {
    let mut m = Marketplace::new();
    let r = m.create_order(
        NOW,
        "mallory".to_string(),
        &"alice".to_string(),
        TOKEN.to_string(),
        NFT.to_string(),
        native("uluna", 100),
        Expiration::Never,
    );
    assert_eq!(r.unwrap_err(), ContractError::NoOwner);
}

#[test]
fn create_order_rejects_near_expiration() {
    let mut m = Marketplace::new();
    let r = m.create_order(
        NOW,
        "alice".to_string(),
        &"alice".to_string(),
        TOKEN.to_string(),
        NFT.to_string(),
        native("uluna", 100),
        Expiration::AtTime(NOW + 59),
    );
    assert_eq!(r.unwrap_err(), ContractError::InvalidExpiration);
    let ok = m.create_order(
        NOW,
        "alice".to_string(),
        &"alice".to_string(),
        TOKEN.to_string(),
        NFT.to_string(),
        native("uluna", 100),
        Expiration::AtTime(NOW + 60),
    );
    assert!(ok.is_ok());
}

#[test]
fn create_order_attributes() {
    let mut m = Marketplace::new();
    let r = m
        .create_order(
            NOW,
            "alice".to_string(),
            &"alice".to_string(),
            TOKEN.to_string(),
            NFT.to_string(),
            native("uluna", 100),
            Expiration::Never,
        )
        .unwrap();
    assert_eq!(r.attributes.len(), 5);
    assert_eq!(r.attributes[0].key, "action");
    assert_eq!(r.attributes[0].value, AttrValue::Text("create_order".to_string()));
    assert_eq!(r.attributes[3].key, "seller");
    assert_eq!(r.attributes[3].value, AttrValue::Text("alice".to_string()));
    assert_eq!(r.attributes[4].key, "price");
    assert_eq!(r.attributes[4].value, AttrValue::Amount(100));
}

#[test]
fn create_bid_requires_order() {
    let mut m = Marketplace::new();
    let r = m.create_bid(
        NOW,
        "bob".to_string(),
        TOKEN.to_string(),
        NFT.to_string(),
        native("uluna", 100),
        Expiration::Never,
    );
    assert_eq!(r.unwrap_err(), ContractError::OrderNotFound);
}

#[test]
fn create_bid_rejects_expired_order() {
    let mut m = Marketplace::new();
    let r = m
        .create_order(
            NOW,
            "alice".to_string(),
            &"alice".to_string(),
            TOKEN.to_string(),
            NFT.to_string(),
            native("uluna", 100),
            Expiration::AtTime(NOW + 60),
        )
        .unwrap();
    assert_eq!(0, r.effects.len());
    let r = m.create_bid(
        NOW + 61,
        "bob".to_string(),
        TOKEN.to_string(),
        NFT.to_string(),
        native("uluna", 100),
        Expiration::Never,
    );
    assert_eq!(r.unwrap_err(), ContractError::Expired);
}

#[test]
fn create_bid_rejects_below_asking() {
    let mut m = Marketplace::new();
    list(&mut m, "alice", 100);
    let r = m.create_bid(
        NOW,
        "bob".to_string(),
        TOKEN.to_string(),
        NFT.to_string(),
        native("uluna", 99),
        Expiration::Never,
    );
    assert_eq!(r.unwrap_err(), ContractError::MinPrice { min_bid_amount: 100 });
    assert!(m.query_bid(&TOKEN.to_string(), &NFT.to_string()).is_none());
}

#[test]
fn create_bid_must_strictly_outbid_live_bid() {
    let mut m = Marketplace::new();
    list(&mut m, "alice", 100);
    let r = m
        .create_bid(
            NOW,
            "bob".to_string(),
            TOKEN.to_string(),
            NFT.to_string(),
            native("uluna", 150),
            Expiration::Never,
        )
        .unwrap();
    assert_eq!(0, r.effects.len());

    // an equal offer does not supersede a live bid
    let r = m.create_bid(
        NOW,
        "carol".to_string(),
        TOKEN.to_string(),
        NFT.to_string(),
        native("uluna", 150),
        Expiration::Never,
    );
    assert_eq!(r.unwrap_err(), ContractError::InvalidBidAmount);

    // neither does a lower one
    let r = m.create_bid(
        NOW,
        "carol".to_string(),
        TOKEN.to_string(),
        NFT.to_string(),
        native("uluna", 120),
        Expiration::Never,
    );
    assert_eq!(r.unwrap_err(), ContractError::InvalidBidAmount);

    // the first bid is still stored unchanged
    let b = m.query_bid(&TOKEN.to_string(), &NFT.to_string()).unwrap();
    assert_eq!(b.bidder, "bob");
    assert_eq!(b.price, native("uluna", 150));
}

#[test]
fn create_bid_supersedes_and_refunds() {
    let mut m = Marketplace::new();
    list(&mut m, "alice", 100);
    m.create_bid(
        NOW,
        "bob".to_string(),
        TOKEN.to_string(),
        NFT.to_string(),
        native("uluna", 150),
        Expiration::Never,
    )
    .unwrap();
    let r = m
        .create_bid(
            NOW,
            "carol".to_string(),
            TOKEN.to_string(),
            NFT.to_string(),
            native("uluna", 200),
            Expiration::Never,
        )
        .unwrap();
    assert_eq!(
        r.effects,
        vec![Effect::TransferValue { value: native("uluna", 150), recipient: "bob".to_string() }]
    );
    let b = m.query_bid(&TOKEN.to_string(), &NFT.to_string()).unwrap();
    assert_eq!(b.bidder, "carol");
    assert_eq!(b.price, native("uluna", 200));
    assert_eq!(b.seller, "alice");
}

#[test]
fn create_bid_outbids_expired_bid_without_minimum_raise() {
    let mut m = Marketplace::new();
    list(&mut m, "alice", 100);
    m.create_bid(
        NOW,
        "bob".to_string(),
        TOKEN.to_string(),
        NFT.to_string(),
        native("uluna", 150),
        Expiration::AtTime(NOW + 10),
    )
    .unwrap();
    // bob's bid has expired: a lower (but positive, above-asking) offer succeeds
    let r = m
        .create_bid(
            NOW + 11,
            "carol".to_string(),
            TOKEN.to_string(),
            NFT.to_string(),
            native("uluna", 100),
            Expiration::Never,
        )
        .unwrap();
    assert_eq!(
        r.effects,
        vec![Effect::TransferValue { value: native("uluna", 150), recipient: "bob".to_string() }]
    );
    let b = m.query_bid(&TOKEN.to_string(), &NFT.to_string()).unwrap();
    assert_eq!(b.bidder, "carol");
}

#[test]
fn cancel_order_refunds_bid_and_returns_asset() {
    let mut m = Marketplace::new();
    list(&mut m, "alice", 100);
    m.create_bid(
        NOW,
        "bob".to_string(),
        TOKEN.to_string(),
        NFT.to_string(),
        native("uluna", 150),
        Expiration::Never,
    )
    .unwrap();
    let r = m
        .cancel_order(&"alice".to_string(), TOKEN.to_string(), NFT.to_string())
        .unwrap();
    assert_eq!(
        r.effects,
        vec![
            Effect::TransferValue { value: native("uluna", 150), recipient: "bob".to_string() },
            Effect::TransferAsset {
                nft_address: NFT.to_string(),
                token_id: TOKEN.to_string(),
                recipient: "alice".to_string(),
            },
        ]
    );
    assert!(m.query_order(&TOKEN.to_string(), &NFT.to_string()).is_none());
    assert!(m.query_bid(&TOKEN.to_string(), &NFT.to_string()).is_none());
}

#[test]
fn cancel_order_requires_seller() {
    let mut m = Marketplace::new();
    list(&mut m, "alice", 100);
    let r = m.cancel_order(&"mallory".to_string(), TOKEN.to_string(), NFT.to_string());
    assert_eq!(r.unwrap_err(), ContractError::Unauthorized);
    let r = m.cancel_order(&"alice".to_string(), "somethingelse".to_string(), NFT.to_string());
    assert_eq!(r.unwrap_err(), ContractError::OrderNotFound);
}

#[test]
fn cancel_bid_refunds_bidder() {
    let mut m = Marketplace::new();
    list(&mut m, "alice", 100);
    m.create_bid(
        NOW,
        "bob".to_string(),
        TOKEN.to_string(),
        NFT.to_string(),
        native("uluna", 150),
        Expiration::Never,
    )
    .unwrap();
    let r = m.cancel_bid(TOKEN.to_string(), NFT.to_string()).unwrap();
    assert_eq!(
        r.effects,
        vec![Effect::TransferValue { value: native("uluna", 150), recipient: "bob".to_string() }]
    );
    assert!(m.query_bid(&TOKEN.to_string(), &NFT.to_string()).is_none());
    // the order itself is untouched
    assert!(m.query_order(&TOKEN.to_string(), &NFT.to_string()).is_some());
}

#[test]
fn cancel_bid_requires_bid() {
    let mut m = Marketplace::new();
    list(&mut m, "alice", 100);
    let r = m.cancel_bid(TOKEN.to_string(), NFT.to_string());
    assert_eq!(r.unwrap_err(), ContractError::BidNotFound);
}

#[test]
fn execute_order_settles_and_clears() {
    let mut m = Marketplace::new();
    list(&mut m, "alice", 100);
    m.create_bid(
        NOW,
        "bob".to_string(),
        TOKEN.to_string(),
        NFT.to_string(),
        native("uluna", 150),
        Expiration::Never,
    )
    .unwrap();
    let r = m
        .execute_order(&"alice".to_string(), TOKEN.to_string(), NFT.to_string())
        .unwrap();
    assert_eq!(
        r.effects,
        vec![
            Effect::TransferValue { value: native("uluna", 150), recipient: "alice".to_string() },
            Effect::TransferAsset {
                nft_address: NFT.to_string(),
                token_id: TOKEN.to_string(),
                recipient: "bob".to_string(),
            },
        ]
    );
    assert!(m.query_order(&TOKEN.to_string(), &NFT.to_string()).is_none());
    assert!(m.query_bid(&TOKEN.to_string(), &NFT.to_string()).is_none());
}

#[test]
fn execute_order_fails_without_bid() {
    let mut m = Marketplace::new();
    list(&mut m, "alice", 100);
    let r = m.execute_order(&"alice".to_string(), TOKEN.to_string(), NFT.to_string());
    assert_eq!(r.unwrap_err(), ContractError::NoBid);
    // store state is unchanged
    let o = m.query_order(&TOKEN.to_string(), &NFT.to_string()).unwrap();
    assert_eq!(o.seller, "alice");
}

#[test]
fn execute_order_requires_order_and_seller() {
    let mut m = Marketplace::new();
    let r = m.execute_order(&"alice".to_string(), TOKEN.to_string(), NFT.to_string());
    assert_eq!(r.unwrap_err(), ContractError::Unauthorized);
    list(&mut m, "alice", 100);
    let r = m.execute_order(&"bob".to_string(), TOKEN.to_string(), NFT.to_string());
    assert_eq!(r.unwrap_err(), ContractError::Unauthorized);
}

#[test]
fn version_string() {
    assert_eq!(version(), "1.72");
}
