use vstd::prelude::*;

use crate::request::RequestId;

verus! {

/// Parameters for a transaction submission.
#[derive(Clone, Debug)]
pub struct OrderParams {
    /// Base64-encoded raw transaction bytes
    pub tx: String,
}

/// Messages sent from client to server (Binance-style).
///
/// On the wire each message is a JSON object whose `method` field names
/// the variant in screaming snake case (`SUBSCRIBE`, `SUBMIT`, ...), the
/// per-action order variants as `ORDER.PLACE`, `ORDER.CANCEL`,
/// `ORDER.AMEND` and `ORDER.CANCEL_ALL`.
#[derive(Clone, Debug)]
pub enum ClientMessage {
    /// Subscribe to market data topics or user data streams.
    /// Possible errors: ValidationError, TooManyRequests, InvalidSubscriptionFormat,
    /// Unauthorized, InvalidSymbol, ClientNotFound.
    Subscribe { id: Option<RequestId>, params: Vec<String> },
    /// Unsubscribe from market data topics or user data streams
    /// (idempotent: invalid topics are silently skipped).
    Unsubscribe { id: Option<RequestId>, params: Vec<String> },
    /// List all active subscriptions for the client.
    ListSubscriptions { id: Option<RequestId> },
    /// Ping the server to check connection health.
    Ping { id: Option<RequestId> },
    /// Submit a signed transaction over the rollup WebSocket.
    ///
    /// The action — place, cancel, amend, cancel-all, cancel-and-place, etc. —
    /// is encoded in the signed transaction itself; the server decodes the
    /// transaction and dispatches on the inner action. Prefer this over the
    /// per-action `ORDER.*` methods below, which restate — without
    /// enforcing — the action already in `tx`.
    Submit { id: Option<RequestId>, params: OrderParams },
    /// Place an order via the rollup WebSocket (deprecated since 0.3.0: use
    /// `Submit`; the action is decoded from the signed tx).
    OrderPlace { id: Option<RequestId>, params: OrderParams },
    /// Cancel an order via the rollup WebSocket (deprecated since 0.3.0: use
    /// `Submit`).
    OrderCancel { id: Option<RequestId>, params: OrderParams },
    /// Amend an order via the rollup WebSocket (deprecated since 0.3.0: use
    /// `Submit`).
    OrderAmend { id: Option<RequestId>, params: OrderParams },
    /// Cancel all open orders via the rollup WebSocket (deprecated since
    /// 0.3.0: use `Submit`).
    OrderCancelAll { id: Option<RequestId>, params: OrderParams },
}

} // verus!
