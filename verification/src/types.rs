use vstd::prelude::*;

verus! {

/// A point after which an order or bid no longer admits new activity: a block
/// height, a wall-clock time in seconds, or no bound at all.
#[derive(Clone, Copy, Debug, PartialEq, Eq, Structural)]
pub enum Expiration {
    AtHeight(u64),
    AtTime(u64),
    Never,
}

/// The kind of fungible value an amount is denominated in: a native currency
/// denomination, or a token identified by its issuing contract.
#[derive(Debug, PartialEq, Eq)]
pub enum AssetInfo {
    NativeToken { denom: String },
    Token { contract_addr: String },
}

/// Specification-level image of an `AssetInfo`.
pub enum AssetInfoV {
    NativeToken { denom: Seq<char> },
    Token { contract_addr: Seq<char> },
}

impl View for AssetInfo {
    type V = AssetInfoV;

    open spec fn view(&self) -> AssetInfoV {
        match self {
            AssetInfo::NativeToken { denom } => AssetInfoV::NativeToken { denom: denom@ },
            AssetInfo::Token { contract_addr } => AssetInfoV::Token {
                contract_addr: contract_addr@,
            },
        }
    }
}

/// An amount of fungible value together with its denomination; enough to
/// construct a value-transfer instruction to a named recipient.
#[derive(Debug, PartialEq, Eq)]
pub struct Asset {
    pub info: AssetInfo,
    pub amount: u128,
}

/// Specification-level image of an `Asset`.
pub struct AssetV {
    pub info: AssetInfoV,
    pub amount: u128,
}

impl View for Asset {
    type V = AssetV;

    open spec fn view(&self) -> AssetV {
        AssetV { info: self.info@, amount: self.amount }
    }
}

impl AssetInfo {
    /// An owned copy with the same content.
    pub fn duplicate(&self) -> (r: AssetInfo)
        ensures
            r@ == self@,
    {
        match self {
            AssetInfo::NativeToken { denom } => AssetInfo::NativeToken { denom: denom.clone() },
            AssetInfo::Token { contract_addr } => AssetInfo::Token {
                contract_addr: contract_addr.clone(),
            },
        }
    }
}

impl Asset {
    /// An owned copy with the same content.
    pub fn duplicate(&self) -> (r: Asset)
        ensures
            r@ == self@,
    {
        Asset { info: self.info.duplicate(), amount: self.amount }
    }
}

/// A seller's standing offer to sell one specific asset at a fixed minimum
/// price until an expiration. At most one order exists per asset key.
#[derive(Debug, PartialEq, Eq)]
pub struct Order {
    pub token_id: String,
    pub nft_address: String,
    pub seller: String,
    pub price: Asset,
    pub expire_at: Expiration,
}

/// Specification-level image of an `Order`.
pub struct OrderView {
    pub token_id: Seq<char>,
    pub nft_address: Seq<char>,
    pub seller: Seq<char>,
    pub price: AssetV,
    pub expire_at: Expiration,
}

impl View for Order {
    type V = OrderView;

    open spec fn view(&self) -> OrderView {
        OrderView {
            token_id: self.token_id@,
            nft_address: self.nft_address@,
            seller: self.seller@,
            price: self.price@,
            expire_at: self.expire_at,
        }
    }
}

/// The single standing offer to buy the asset referenced by an order. The
/// escrowed amount is `price`; `seller` is copied from the order at creation
/// time. At most one bid exists per asset key: a newer, higher bid supersedes
/// and refunds the previous one.
#[derive(Debug, PartialEq, Eq)]
pub struct Bid {
    pub token_id: String,
    pub nft_address: String,
    pub bidder: String,
    pub seller: String,
    pub price: Asset,
    pub expire_at: Expiration,
}

/// Specification-level image of a `Bid`.
pub struct BidView {
    pub token_id: Seq<char>,
    pub nft_address: Seq<char>,
    pub bidder: Seq<char>,
    pub seller: Seq<char>,
    pub price: AssetV,
    pub expire_at: Expiration,
}

impl View for Bid {
    type V = BidView;

    open spec fn view(&self) -> BidView {
        BidView {
            token_id: self.token_id@,
            nft_address: self.nft_address@,
            bidder: self.bidder@,
            seller: self.seller@,
            price: self.price@,
            expire_at: self.expire_at,
        }
    }
}

/// One instruction for the host to carry out: move the identified asset, or
/// move an amount of value, to a recipient. The host executes the returned
/// instructions in order, atomically with the state mutation.
#[derive(Debug, PartialEq, Eq)]
pub enum Effect {
    TransferAsset { nft_address: String, token_id: String, recipient: String },
    TransferValue { value: Asset, recipient: String },
}

/// Specification-level image of an `Effect`.
pub enum EffectV {
    TransferAsset { nft_address: Seq<char>, token_id: Seq<char>, recipient: Seq<char> },
    TransferValue { value: AssetV, recipient: Seq<char> },
}

impl View for Effect {
    type V = EffectV;

    open spec fn view(&self) -> EffectV {
        match self {
            Effect::TransferAsset { nft_address, token_id, recipient } => EffectV::TransferAsset {
                nft_address: nft_address@,
                token_id: token_id@,
                recipient: recipient@,
            },
            Effect::TransferValue { value, recipient } => EffectV::TransferValue {
                value: value@,
                recipient: recipient@,
            },
        }
    }
}

/// The value of one descriptive attribute: text, or a raw amount that the
/// host renders.
#[derive(Debug, PartialEq, Eq)]
pub enum AttrValue {
    Text(String),
    Amount(u128),
}

/// Specification-level image of an `AttrValue`.
pub enum AttrValueV {
    Text(Seq<char>),
    Amount(u128),
}

impl View for AttrValue {
    type V = AttrValueV;

    open spec fn view(&self) -> AttrValueV {
        match self {
            AttrValue::Text(s) => AttrValueV::Text(s@),
            AttrValue::Amount(a) => AttrValueV::Amount(*a),
        }
    }
}

/// One descriptive key/value pair emitted alongside a successful operation.
#[derive(Debug, PartialEq, Eq)]
pub struct Attribute {
    pub key: String,
    pub value: AttrValue,
}

/// Specification-level image of an `Attribute`.
pub struct AttrV {
    pub key: Seq<char>,
    pub value: AttrValueV,
}

impl View for Attribute {
    type V = AttrV;

    open spec fn view(&self) -> AttrV {
        AttrV { key: self.key@, value: self.value@ }
    }
}

/// What a successful operation hands back to the host: the ordered list of
/// external-effect instructions, and descriptive attributes.
#[derive(Debug, PartialEq, Eq)]
pub struct OpResponse {
    pub effects: Vec<Effect>,
    pub attributes: Vec<Attribute>,
}

impl OpResponse {
    /// The instructions as a sequence of their specification images.
    pub open spec fn effects_view(&self) -> Seq<EffectV> {
        self.effects@.map_values(|e: Effect| e@)
    }

    /// The attributes as a sequence of their specification images.
    pub open spec fn attrs_view(&self) -> Seq<AttrV> {
        self.attributes@.map_values(|a: Attribute| a@)
    }
}

/// A text attribute image.
pub open spec fn attr_text(key: Seq<char>, value: Seq<char>) -> AttrV {
    AttrV { key, value: AttrValueV::Text(value) }
}

/// An amount attribute image.
pub open spec fn attr_amount(key: Seq<char>, value: u128) -> AttrV {
    AttrV { key, value: AttrValueV::Amount(value) }
}

} // verus!
