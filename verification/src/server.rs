use vstd::prelude::*;

use crate::error::WSError;
use crate::request::RequestId;

verus! {

/// Client order id (u64 wrapper for type safety).
pub type ClientOrderId = u64;

#[derive(Clone, Copy, Debug, PartialEq, Eq, Structural)]
pub enum MessageType {
    /// A full snapshot (`"s"` on the wire).
    Snapshot,
    /// An incremental update (`"u"` on the wire).
    Update,
}

/// The JSON value type of `serde_json`, carried through as it is.
#[verifier::external_type_specification]
#[verifier::external_body]
pub struct ExJsonValue(serde_json::Value);

/// `Clone` of `serde_json::Value`, which the derived `Clone` of
/// [`DataMessage`] calls. Nothing is claimed of the copy it returns.
pub assume_specification[ <serde_json::Value as Clone>::clone ](v: &serde_json::Value) -> serde_json::Value;

#[derive(Clone, Debug)]
pub struct DataMessage {
    pub channel: String,
    pub symbol: String,
    pub ts: u64,
    pub msg_type: MessageType,
    pub data: serde_json::Value,
}

/// Status message for connection lifecycle events
#[derive(Clone, Debug)]
pub struct StatusMessage {
    /// Event time (ms)
    pub event_time: u64,
    pub status: String,
    pub client_id: String,
    pub reason: Option<String>,
}

#[derive(Clone, Debug)]
pub struct PongMessage {
    pub id: Option<RequestId>,
    /// Event time (ms)
    pub event_time: u64,
}

/// Error message from the server
#[derive(Clone, Debug)]
pub struct ErrorMessage {
    pub id: Option<RequestId>,
    /// Event time (ms)
    pub event_time: u64,
    pub error: WSError,
}

/// Generic success envelope returned for `subscribe`, `unsubscribe`, etc.
/// Wraps a `result: "success"` value plus the request id (echoed back from
/// the client message) and the server-side event time.
#[derive(Clone, Debug)]
pub struct MethodResult {
    pub id: Option<RequestId>,
    /// Event time (us)
    pub event_time: u64,
    /// Always `"success"` for these envelopes.
    pub result: String,
}

/// Response to a `subscribe` client request.
#[derive(Clone, Debug)]
pub struct SubscribeOk(pub MethodResult);

/// Response to an `unsubscribe` client request.
#[derive(Clone, Debug)]
pub struct UnsubscribeOk(pub MethodResult);

/// Response to a `list_subscriptions` client request.
///
/// `result` is the list of currently-subscribed topics for the connection.
#[derive(Clone, Debug)]
pub struct ListSubscriptionsMessage {
    pub id: Option<RequestId>,
    /// Event time (us)
    pub event_time: u64,
    pub result: Vec<String>,
}

/// Price level as [price, quantity]; on the wire a two-element array.
#[derive(Clone, Debug)]
pub struct PriceLevel(pub String, pub String);

/// Binance-compatible depth update message
#[derive(Clone, Debug)]
pub struct DepthUpdate {
    pub event_type: String,
    pub event_time: u64,
    pub transaction_time: u64,
    pub symbol: String,
    pub first_update_id: u64,
    pub last_update_id: u64,
    pub prev_update_id: u64,
    pub bids: Vec<PriceLevel>,
    pub asks: Vec<PriceLevel>,
    pub msg_type: MessageType,
}

/// AggTrade message with DEX-specific fields.
///
/// As of trading-api 2026-05-23, the DEX-specific fields (`ua`, `oi`, `mk`,
/// `ff`, `lq`, `fe`, `nf`, `fa`, `co`, `sd`, `ft`, `z`, `Z`, `rs`) are
/// emitted as deprecated empty/zero placeholders. Consumers should treat
/// their values as meaningless and use `@user.orders` for real fill data.
#[derive(Clone, Debug)]
pub struct AggTradeMessage {
    pub event_type: String,
    pub event_time: u64,
    pub symbol: String,
    pub agg_trade_id: u64,
    pub price: String,
    pub quantity: String,
    pub first_trade_id: u64,
    pub last_trade_id: u64,
    pub trade_time: u64,
    pub is_buyer_maker: bool,
    /// DEX-specific fields below are all deprecated as of 2026-05-23; use @user.orders.
    pub tx_hash: String,
    /// Deprecated: empty-string placeholder as of 2026-05-23. Use `@user.orders`.
    pub user_address: Option<String>,
    /// Deprecated: zero placeholder as of 2026-05-23. Use `@user.orders` `i` field.
    pub order_id: Option<u64>,
    /// Deprecated: empty placeholder as of 2026-05-23. Use `@user.orders` `m` field.
    pub is_maker: Option<bool>,
    /// Deprecated: empty placeholder as of 2026-05-23. Use order status `X` or `rs == 0`.
    pub is_full_fill: Option<bool>,
    /// Deprecated: empty placeholder as of 2026-05-23. Use `@user.orders` fill type `ft`.
    pub is_liquidation: Option<bool>,
    /// Deprecated: zero placeholder as of 2026-05-23. Use `@user.orders` `n`.
    pub fee: Option<String>,
    /// Deprecated: zero placeholder as of 2026-05-23.
    pub net_fee: Option<String>,
    /// Deprecated: empty-string placeholder as of 2026-05-23. Use `@user.orders` `N`.
    pub fee_asset: Option<String>,
    /// Deprecated: empty placeholder as of 2026-05-23. Use `@user.orders` `co`.
    pub client_order_id: Option<ClientOrderId>,
    /// Deprecated: empty-string placeholder as of 2026-05-23. Use `@user.orders` `S`.
    pub side: Option<String>,
    /// Deprecated: emitted as zero/empty placeholder. Use `@user.orders` `ft`.
    pub fill_type: Option<String>,
    /// Deprecated: emitted as zero/empty placeholder. Use `@user.orders` `z`.
    pub cumulative_filled_size: Option<String>,
    /// Deprecated: emitted as zero/empty placeholder. Use `@user.orders` `Z`.
    pub cumulative_filled_cot: Option<String>,
    /// Deprecated: emitted as zero/empty placeholder. Use `@user.orders` `rs`.
    pub remaining_size: Option<String>,
}

/// Binance-compatible bookTicker (BBO) message
#[derive(Clone, Debug)]
pub struct BookTickerMessage {
    pub event_type: String,
    pub update_id: u64,
    pub event_time: u64,
    pub transaction_time: u64,
    pub symbol: String,
    pub best_bid_price: String,
    pub best_bid_qty: String,
    pub best_ask_price: String,
    pub best_ask_qty: String,
    pub msg_type: MessageType,
}

/// Binance-compatible forceOrder message for liquidation trades
#[derive(Clone, Debug)]
pub struct ForceOrderMessage {
    pub event_type: String,
    pub event_time: u64,
    pub order: ForceOrderDetails,
}

/// Order details within a forceOrder message
#[derive(Clone, Debug)]
pub struct ForceOrderDetails {
    pub symbol: String,
    pub side: String,
    pub order_type: String,
    pub time_in_force: String,
    pub quantity: Option<String>,
    pub filled_qty: Option<String>,
    pub price: String,
    pub avg_price: String,
    pub status: String,
    pub last_filled_qty: String,
    pub trade_time: u64,
    /// DEX-specific fields
    pub tx_hash: String,
    pub user_address: String,
    pub order_id: u64,
    pub trade_id: u64,
}

/// Binance-compatible markPrice message
#[derive(Clone, Debug)]
pub struct MarkPriceMessage {
    pub event_type: String,
    pub event_time: u64,
    pub symbol: String,
    pub mark_price: String,
    pub index_price: String,
    pub estimated_settle_price: Option<String>,
    pub funding_rate: String,
    pub next_funding_time: Option<u64>,
    pub tx_hash: Option<String>,
}

/// User order update message (Binance ORDER_TRADE_UPDATE style)
#[derive(Clone, Debug)]
pub struct OrderUpdateMessage {
    pub event_type: String,
    pub event_time: u64,
    pub order: OrderUpdateData,
}

/// Common fields for all order update events
#[derive(Clone, Debug)]
pub struct OrderUpdateCommon {
    pub symbol: String,
    pub order_id: u64,
    pub client_order_id: Option<ClientOrderId>,
    pub status: String,
    pub execution_type: String,
    pub transaction_time: u64,
    pub tx_hash: String,
    /// Deprecated as of 2026-05-23: empty-string placeholder. The address is
    /// implicit from the authenticated user stream, so the field carries no
    /// information. Will be dropped from the wire in a future release.
    pub user_address: Option<String>,
}

/// Order data for NEW order placement
#[derive(Clone, Debug)]
pub struct PlaceOrderData {
    pub common: OrderUpdateCommon,
    pub side: String,
    pub order_type: String,
    pub time_in_force: String,
    pub price: String,
    pub quantity: String,
}

/// Order data for CANCELED orders
#[derive(Clone, Debug)]
pub struct CancelOrderData {
    pub common: OrderUpdateCommon,
}

/// Order data for TRADE fills.
///
/// Fields populated only for orderbook fills (when the rollup emits cumulative
/// counters) are wrapped in `Option`: `ap`, `ft`, `z`, `Z`, `rs`. Liquidation
/// fills typically omit these — use `X == "FILLED"` from `OrderUpdateCommon`
/// as the canonical "fully filled" signal in that case.
#[derive(Clone, Debug)]
pub struct TradeFillData {
    pub common: OrderUpdateCommon,
    pub side: String,
    pub price: Option<String>,
    /// Average fill price across cumulative fills. Added 2026-05-23.
    pub avg_price: Option<String>,
    pub quantity: Option<String>,
    pub last_filled_qty: String,
    pub last_filled_price: String,
    pub commission: String,
    /// Commission asset (e.g. `"USDC"`). Added 2026-05-23.
    pub commission_asset: String,
    /// Whether this fill was on the maker side.
    pub is_maker: bool,
    /// Sequencer-assigned trade id.
    pub trade_id: u64,
    /// Realized PnL for this fill. Added 2026-05-23.
    pub realized_pnl: String,
    /// Fill type: `"orderbook"` (`"o"`) for book fills, `"liquidation"` (`"l"`)
    /// for liquidation fills. Absent on legacy fills.
    pub fill_type: Option<String>,
    /// Cumulative filled size across partial fills. Absent when upstream did
    /// not provide it (e.g. liquidations).
    pub cumulative_filled_size: Option<String>,
    /// Cumulative quote notional filled. Absent when upstream did not provide it.
    pub cumulative_filled_cot: Option<String>,
    /// Remaining size on the order (`"0"` means fully filled). Absent when
    /// upstream did not provide it; fall back to `X == "FILLED"` for that case.
    pub remaining_size: Option<String>,
}

/// The data of an order update; on the wire the variant's fields stand
/// directly in the object, with no tag.
#[derive(Clone, Debug)]
pub enum OrderUpdateData {
    /// Boxed because `TradeFillData` is much larger than the other variants.
    TradeFill(Box<TradeFillData>),
    PlaceOrder(PlaceOrderData),
    Cancel(CancelOrderData),
}

} // verus!
