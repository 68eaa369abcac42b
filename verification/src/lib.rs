//! Shared types for the Trading API WebSocket protocol.
//!
//! This crate holds the message types exchanged between clients and the
//! trading API server over WebSocket, together with the rules that the
//! protocol attaches to them: request identifiers and their decimal
//! rendering, the numeric error codes and their wire encoding, error
//! payloads, and the sequencer's transaction status.

mod client;
mod error;
mod request;
mod response;
mod server;

pub use request::{
    decimal, decimal_value, digit_char, digit_value, is_digit, is_shortest_decimal,
    lemma_decimal_characterized, lemma_decimal_is_shortest, lemma_decimal_round_trip,
    lemma_request_id_eq, lemma_shortest_decimal_unique, RequestId,
};
pub use error::{
    code_of, decode_of, is_known_code, lemma_code_of_injective, lemma_decode_code, opt_view,
    subscription_exists_message, symbol_not_found_message, text_of, ErrorCode, WSError, WSErrorView,
};
pub use client::{ClientMessage, OrderParams};
pub use response::{OrderResultMessage, OrderResultPayload, TxStatus};
pub use server::{
    AggTradeMessage, BookTickerMessage, CancelOrderData, ClientOrderId, DataMessage, DepthUpdate,
    ErrorMessage, ForceOrderDetails, ForceOrderMessage, ListSubscriptionsMessage, MarkPriceMessage,
    MessageType, MethodResult, OrderUpdateCommon, OrderUpdateData, OrderUpdateMessage,
    PlaceOrderData, PongMessage, PriceLevel, StatusMessage, SubscribeOk, TradeFillData,
    UnsubscribeOk,
};
