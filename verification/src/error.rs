use vstd::prelude::*;

verus! {

/// Error codes aligned with the Binance API.
#[derive(Debug, Clone, Copy, PartialEq, Eq, Structural)]
pub enum ErrorCode {
    // general errors
    Unknown,
    Disconnected,
    Unauthorized,
    TooManyRequests,
    UnexpectedResponse,
    Timeout,
    UnknownOrder,
    TooManyOrders,
    ServiceUnavailable,
    UnsupportedOperation,
    InvalidTimestamp,
    InvalidSignature,
    MandatoryParamMissing,
    BadPrecision,
    InvalidOrderType,
    InvalidSide,
    InvalidSymbol,
    // custom error for when address is not passed or invalid
    InvalidUserAddress,
    // order errors
    NewOrderRejected,
    CancelRejected,
    NoSuchOrder,
    ApiKeyFormatInvalid,
    InvalidApiKeyIpPermissions,
    OrderWouldTrigger,
    // subscription errors (custom codes)
    InvalidSubscriptionFormat,
    SymbolNotFound,
    ValidationError,
    SubscriptionExists,
    // server errors (internal)
    ClientNotFound,
    CouldNotSendMessage,
}

/// The number that stands for an error code on the wire.
pub open spec fn code_of(c: ErrorCode) -> i32 {
    match c {
        ErrorCode::Unknown => -1000i32,
        ErrorCode::Disconnected => -1001i32,
        ErrorCode::Unauthorized => -1002i32,
        ErrorCode::TooManyRequests => -1003i32,
        ErrorCode::UnexpectedResponse => -1006i32,
        ErrorCode::Timeout => -1007i32,
        ErrorCode::UnknownOrder => -1014i32,
        ErrorCode::TooManyOrders => -1015i32,
        ErrorCode::ServiceUnavailable => -1016i32,
        ErrorCode::UnsupportedOperation => -1020i32,
        ErrorCode::InvalidTimestamp => -1021i32,
        ErrorCode::InvalidSignature => -1022i32,
        ErrorCode::MandatoryParamMissing => -1102i32,
        ErrorCode::BadPrecision => -1111i32,
        ErrorCode::InvalidOrderType => -1116i32,
        ErrorCode::InvalidSide => -1117i32,
        ErrorCode::InvalidSymbol => -1122i32,
        ErrorCode::InvalidUserAddress => -1123i32,
        ErrorCode::NewOrderRejected => -2010i32,
        ErrorCode::CancelRejected => -2011i32,
        ErrorCode::NoSuchOrder => -2013i32,
        ErrorCode::ApiKeyFormatInvalid => -2014i32,
        ErrorCode::InvalidApiKeyIpPermissions => -2015i32,
        ErrorCode::OrderWouldTrigger => -2021i32,
        ErrorCode::InvalidSubscriptionFormat => -1004i32,
        ErrorCode::SymbolNotFound => -1005i32,
        ErrorCode::ValidationError => -1008i32,
        ErrorCode::SubscriptionExists => -1010i32,
        ErrorCode::ClientNotFound => -4001i32,
        ErrorCode::CouldNotSendMessage => -4002i32,
    }
}

/// The human-readable text of an error code.
pub open spec fn text_of(c: ErrorCode) -> Seq<char> {
    match c {
        ErrorCode::Unknown => "Unknown error"@,
        ErrorCode::Disconnected => "Disconnected"@,
        ErrorCode::Unauthorized => "Unauthorized"@,
        ErrorCode::TooManyRequests => "Too many requests"@,
        ErrorCode::UnexpectedResponse => "Unexpected response"@,
        ErrorCode::Timeout => "Timeout"@,
        ErrorCode::UnknownOrder => "Unknown order"@,
        ErrorCode::TooManyOrders => "Too many orders"@,
        ErrorCode::ServiceUnavailable => "Service unavailable"@,
        ErrorCode::UnsupportedOperation => "Unsupported operation"@,
        ErrorCode::InvalidTimestamp => "Invalid timestamp"@,
        ErrorCode::InvalidSignature => "Invalid signature"@,
        ErrorCode::MandatoryParamMissing => "Mandatory parameter missing"@,
        ErrorCode::BadPrecision => "Bad precision"@,
        ErrorCode::InvalidOrderType => "Invalid order type"@,
        ErrorCode::InvalidSide => "Invalid side"@,
        ErrorCode::InvalidSymbol => "Invalid symbol"@,
        ErrorCode::InvalidUserAddress => "Invalid user address"@,
        ErrorCode::NewOrderRejected => "New order rejected"@,
        ErrorCode::CancelRejected => "Cancel rejected"@,
        ErrorCode::NoSuchOrder => "No such order"@,
        ErrorCode::ApiKeyFormatInvalid => "API key format invalid"@,
        ErrorCode::InvalidApiKeyIpPermissions => "Invalid API key/IP/permissions"@,
        ErrorCode::OrderWouldTrigger => "Order would immediately trigger"@,
        ErrorCode::InvalidSubscriptionFormat => "Invalid subscription format"@,
        ErrorCode::SymbolNotFound => "Symbol not found"@,
        ErrorCode::ValidationError => "Validation error"@,
        ErrorCode::SubscriptionExists => "Subscription already exists"@,
        ErrorCode::ClientNotFound => "Client not found"@,
        ErrorCode::CouldNotSendMessage => "Could not send message"@,
    }
}

/// `x` is the number of some error code.
pub open spec fn is_known_code(x: i32) -> bool {
    exists|c: ErrorCode| #[trigger] code_of(c) == x
}

/// What a number on the wire reads as: the error code that has it, or
/// `Unknown` for a number that no error code has.
pub open spec fn decode_of(x: i32) -> ErrorCode {
    if is_known_code(x) {
        choose|c: ErrorCode| #[trigger] code_of(c) == x
    } else {
        ErrorCode::Unknown
    }
}

impl ErrorCode {
    /// The number that stands for this code on the wire.
    pub fn code(self) -> (n: i32)
        ensures
            n == code_of(self),
    {
        match self {
            ErrorCode::Unknown => -1000i32,
            ErrorCode::Disconnected => -1001i32,
            ErrorCode::Unauthorized => -1002i32,
            ErrorCode::TooManyRequests => -1003i32,
            ErrorCode::UnexpectedResponse => -1006i32,
            ErrorCode::Timeout => -1007i32,
            ErrorCode::UnknownOrder => -1014i32,
            ErrorCode::TooManyOrders => -1015i32,
            ErrorCode::ServiceUnavailable => -1016i32,
            ErrorCode::UnsupportedOperation => -1020i32,
            ErrorCode::InvalidTimestamp => -1021i32,
            ErrorCode::InvalidSignature => -1022i32,
            ErrorCode::MandatoryParamMissing => -1102i32,
            ErrorCode::BadPrecision => -1111i32,
            ErrorCode::InvalidOrderType => -1116i32,
            ErrorCode::InvalidSide => -1117i32,
            ErrorCode::InvalidSymbol => -1122i32,
            ErrorCode::InvalidUserAddress => -1123i32,
            ErrorCode::NewOrderRejected => -2010i32,
            ErrorCode::CancelRejected => -2011i32,
            ErrorCode::NoSuchOrder => -2013i32,
            ErrorCode::ApiKeyFormatInvalid => -2014i32,
            ErrorCode::InvalidApiKeyIpPermissions => -2015i32,
            ErrorCode::OrderWouldTrigger => -2021i32,
            ErrorCode::InvalidSubscriptionFormat => -1004i32,
            ErrorCode::SymbolNotFound => -1005i32,
            ErrorCode::ValidationError => -1008i32,
            ErrorCode::SubscriptionExists => -1010i32,
            ErrorCode::ClientNotFound => -4001i32,
            ErrorCode::CouldNotSendMessage => -4002i32,
        }
    }

    /// Reads an error code from its number; a number that no code has
    /// reads as `Unknown`.
    pub fn from_code(x: i32) -> (c: ErrorCode)
        ensures
            is_known_code(x) ==> code_of(c) == x,
            !is_known_code(x) ==> c == ErrorCode::Unknown,
            c == decode_of(x),
    {
        let c = match x {
            -1000 => ErrorCode::Unknown,
            -1001 => ErrorCode::Disconnected,
            -1002 => ErrorCode::Unauthorized,
            -1003 => ErrorCode::TooManyRequests,
            -1004 => ErrorCode::InvalidSubscriptionFormat,
            -1005 => ErrorCode::SymbolNotFound,
            -1006 => ErrorCode::UnexpectedResponse,
            -1007 => ErrorCode::Timeout,
            -1008 => ErrorCode::ValidationError,
            -1010 => ErrorCode::SubscriptionExists,
            -1014 => ErrorCode::UnknownOrder,
            -1015 => ErrorCode::TooManyOrders,
            -1016 => ErrorCode::ServiceUnavailable,
            -1020 => ErrorCode::UnsupportedOperation,
            -1021 => ErrorCode::InvalidTimestamp,
            -1022 => ErrorCode::InvalidSignature,
            -1102 => ErrorCode::MandatoryParamMissing,
            -1111 => ErrorCode::BadPrecision,
            -1116 => ErrorCode::InvalidOrderType,
            -1117 => ErrorCode::InvalidSide,
            -1122 => ErrorCode::InvalidSymbol,
            -1123 => ErrorCode::InvalidUserAddress,
            -2010 => ErrorCode::NewOrderRejected,
            -2011 => ErrorCode::CancelRejected,
            -2013 => ErrorCode::NoSuchOrder,
            -2014 => ErrorCode::ApiKeyFormatInvalid,
            -2015 => ErrorCode::InvalidApiKeyIpPermissions,
            -2021 => ErrorCode::OrderWouldTrigger,
            -4001 => ErrorCode::ClientNotFound,
            -4002 => ErrorCode::CouldNotSendMessage,
            _ => ErrorCode::Unknown,
        };
        proof {
            lemma_code_of_injective();
            lemma_known_codes(x);
            if is_known_code(x) {
                assert(code_of(c) == x);
            }
        }
        c
    }

    /// The human-readable text of this code.
    pub fn to_string(&self) -> (s: String)
        ensures
            s@ == text_of(*self),
    {
        let t: &str = match self {
            ErrorCode::Unknown => "Unknown error",
            ErrorCode::Disconnected => "Disconnected",
            ErrorCode::Unauthorized => "Unauthorized",
            ErrorCode::TooManyRequests => "Too many requests",
            ErrorCode::UnexpectedResponse => "Unexpected response",
            ErrorCode::Timeout => "Timeout",
            ErrorCode::UnknownOrder => "Unknown order",
            ErrorCode::TooManyOrders => "Too many orders",
            ErrorCode::ServiceUnavailable => "Service unavailable",
            ErrorCode::UnsupportedOperation => "Unsupported operation",
            ErrorCode::InvalidTimestamp => "Invalid timestamp",
            ErrorCode::InvalidSignature => "Invalid signature",
            ErrorCode::MandatoryParamMissing => "Mandatory parameter missing",
            ErrorCode::BadPrecision => "Bad precision",
            ErrorCode::InvalidOrderType => "Invalid order type",
            ErrorCode::InvalidSide => "Invalid side",
            ErrorCode::InvalidSymbol => "Invalid symbol",
            ErrorCode::InvalidUserAddress => "Invalid user address",
            ErrorCode::NewOrderRejected => "New order rejected",
            ErrorCode::CancelRejected => "Cancel rejected",
            ErrorCode::NoSuchOrder => "No such order",
            ErrorCode::ApiKeyFormatInvalid => "API key format invalid",
            ErrorCode::InvalidApiKeyIpPermissions => "Invalid API key/IP/permissions",
            ErrorCode::OrderWouldTrigger => "Order would immediately trigger",
            ErrorCode::InvalidSubscriptionFormat => "Invalid subscription format",
            ErrorCode::SymbolNotFound => "Symbol not found",
            ErrorCode::ValidationError => "Validation error",
            ErrorCode::SubscriptionExists => "Subscription already exists",
            ErrorCode::ClientNotFound => "Client not found",
            ErrorCode::CouldNotSendMessage => "Could not send message",
        };
        String::from_str(t)
    }
}

/// The numbers that error codes have, one by one.
proof fn lemma_known_codes(x: i32)
    ensures
        is_known_code(x) <==> (false
            || x == -1000
            || x == -1001
            || x == -1002
            || x == -1003
            || x == -1006
            || x == -1007
            || x == -1014
            || x == -1015
            || x == -1016
            || x == -1020
            || x == -1021
            || x == -1022
            || x == -1102
            || x == -1111
            || x == -1116
            || x == -1117
            || x == -1122
            || x == -1123
            || x == -2010
            || x == -2011
            || x == -2013
            || x == -2014
            || x == -2015
            || x == -2021
            || x == -1004
            || x == -1005
            || x == -1008
            || x == -1010
            || x == -4001
            || x == -4002
        ),
{
    if is_known_code(x) {
        let c = choose|c: ErrorCode| #[trigger] code_of(c) == x;
        assert(code_of(c) == x);
    }
    if false
        || x == -1000
        || x == -1001
        || x == -1002
        || x == -1003
        || x == -1006
        || x == -1007
        || x == -1014
        || x == -1015
        || x == -1016
        || x == -1020
        || x == -1021
        || x == -1022
        || x == -1102
        || x == -1111
        || x == -1116
        || x == -1117
        || x == -1122
        || x == -1123
        || x == -2010
        || x == -2011
        || x == -2013
        || x == -2014
        || x == -2015
        || x == -2021
        || x == -1004
        || x == -1005
        || x == -1008
        || x == -1010
        || x == -4001
        || x == -4002
    {
        assert(code_of(ErrorCode::Unknown) == -1000);
        assert(code_of(ErrorCode::Disconnected) == -1001);
        assert(code_of(ErrorCode::Unauthorized) == -1002);
        assert(code_of(ErrorCode::TooManyRequests) == -1003);
        assert(code_of(ErrorCode::UnexpectedResponse) == -1006);
        assert(code_of(ErrorCode::Timeout) == -1007);
        assert(code_of(ErrorCode::UnknownOrder) == -1014);
        assert(code_of(ErrorCode::TooManyOrders) == -1015);
        assert(code_of(ErrorCode::ServiceUnavailable) == -1016);
        assert(code_of(ErrorCode::UnsupportedOperation) == -1020);
        assert(code_of(ErrorCode::InvalidTimestamp) == -1021);
        assert(code_of(ErrorCode::InvalidSignature) == -1022);
        assert(code_of(ErrorCode::MandatoryParamMissing) == -1102);
        assert(code_of(ErrorCode::BadPrecision) == -1111);
        assert(code_of(ErrorCode::InvalidOrderType) == -1116);
        assert(code_of(ErrorCode::InvalidSide) == -1117);
        assert(code_of(ErrorCode::InvalidSymbol) == -1122);
        assert(code_of(ErrorCode::InvalidUserAddress) == -1123);
        assert(code_of(ErrorCode::NewOrderRejected) == -2010);
        assert(code_of(ErrorCode::CancelRejected) == -2011);
        assert(code_of(ErrorCode::NoSuchOrder) == -2013);
        assert(code_of(ErrorCode::ApiKeyFormatInvalid) == -2014);
        assert(code_of(ErrorCode::InvalidApiKeyIpPermissions) == -2015);
        assert(code_of(ErrorCode::OrderWouldTrigger) == -2021);
        assert(code_of(ErrorCode::InvalidSubscriptionFormat) == -1004);
        assert(code_of(ErrorCode::SymbolNotFound) == -1005);
        assert(code_of(ErrorCode::ValidationError) == -1008);
        assert(code_of(ErrorCode::SubscriptionExists) == -1010);
        assert(code_of(ErrorCode::ClientNotFound) == -4001);
        assert(code_of(ErrorCode::CouldNotSendMessage) == -4002);
    }
}

/// No two error codes share a number.
pub proof fn lemma_code_of_injective()
    ensures
        forall|a: ErrorCode, b: ErrorCode| code_of(a) == code_of(b) ==> a == b,
{
}

/// Reading back the number of an error code gives the same code: what is
/// written on the wire for a code is read as that code.
pub proof fn lemma_decode_code(c: ErrorCode)
    ensures
        is_known_code(code_of(c)),
        decode_of(code_of(c)) == c,
{
    lemma_code_of_injective();
    assert(code_of(c) == code_of(c));
}

/// The abstract content of a [`WSError`].
pub struct WSErrorView {
    /// The parameter that the error concerns, if any.
    pub param: Option<Seq<char>>,
    pub code: ErrorCode,
    pub message: Seq<char>,
}

/// WebSocket error for both internal handling and client responses.
/// On the wire it reads `{"param": "...", "code": N, "msg": "..."}`.
#[derive(Debug, Clone)]
pub struct WSError {
    param: Option<String>,
    code: ErrorCode,
    message: String,
}

/// The view of an optional string.
pub open spec fn opt_view(o: Option<String>) -> Option<Seq<char>> {
    match o {
        Some(s) => Some(s@),
        None => None,
    }
}

impl View for WSError {
    type V = WSErrorView;

    closed spec fn view(&self) -> WSErrorView {
        WSErrorView { param: opt_view(self.param), code: self.code, message: self.message@ }
    }
}

/// The message of `WSError::symbol_not_found`.
pub open spec fn symbol_not_found_message(symbol: Seq<char>) -> Seq<char> {
    "symbol not found: "@ + symbol
}

/// The message of `WSError::subscription_exists`.
pub open spec fn subscription_exists_message() -> Seq<char> {
    "subscription already exists"@
}

impl WSError {
    /// An error with the default message of its code.
    pub fn new(code: ErrorCode) -> (e: Self)
        ensures
            e@ == (WSErrorView { param: None, code, message: text_of(code) }),
    {
        WSError { code, message: code.to_string(), param: None }
    }

    /// An error with a message of its own.
    pub fn with_message(code: ErrorCode, message: &str) -> (e: Self)
        ensures
            e@ == (WSErrorView { param: None, code, message: message@ }),
    {
        WSError { code, message: String::from_str(message), param: None }
    }

    /// An error that names the parameter that caused it (for atomic batch
    /// failures).
    pub fn with_param(code: ErrorCode, param: &str, message: &str) -> (e: Self)
        ensures
            e@ == (WSErrorView { param: Some(param@), code, message: message@ }),
    {
        WSError { code, message: String::from_str(message), param: Some(String::from_str(param)) }
    }

    /// The error code.
    pub fn error_code(&self) -> (c: ErrorCode)
        ensures
            c == self@.code,
    {
        self.code
    }

    /// The number of the error code, as it is written on the wire.
    pub fn code(&self) -> (n: i32)
        ensures
            n == code_of(self@.code),
    {
        self.code.code()
    }

    /// The parameter that caused the error, if there is one.
    pub fn param(&self) -> (p: Option<&str>)
        ensures
            p is Some <==> self@.param is Some,
            p is Some ==> p->0@ == self@.param->0,
    {
        match &self.param {
            Some(p) => Some(p.as_str()),
            None => None,
        }
    }

    /// The error message.
    pub fn message(&self) -> (m: &str)
        ensures
            m@ == self@.message,
    {
        self.message.as_str()
    }

    /// The error as it is displayed: its message.
    pub fn to_string(&self) -> (s: String)
        ensures
            s@ == self@.message,
    {
        self.message.clone()
    }

    pub fn invalid_request(msg: &str) -> (e: Self)
        ensures
            e@ == (WSErrorView { param: None, code: ErrorCode::ValidationError, message: msg@ }),
    {
        Self::with_message(ErrorCode::ValidationError, msg)
    }

    pub fn invalid_subscription(msg: &str) -> (e: Self)
        ensures
            e@ == (WSErrorView {
                param: None,
                code: ErrorCode::InvalidSubscriptionFormat,
                message: msg@,
            }),
    {
        Self::with_message(ErrorCode::InvalidSubscriptionFormat, msg)
    }

    pub fn invalid_subscription_with_param(param: &str, msg: &str) -> (e: Self)
        ensures
            e@ == (WSErrorView {
                param: Some(param@),
                code: ErrorCode::InvalidSubscriptionFormat,
                message: msg@,
            }),
    {
        Self::with_param(ErrorCode::InvalidSubscriptionFormat, param, msg)
    }

    pub fn symbol_not_found(symbol: &str) -> (e: Self)
        ensures
            e@ == (WSErrorView {
                param: Some(symbol@),
                code: ErrorCode::InvalidSymbol,
                message: symbol_not_found_message(symbol@),
            }),
    {
        let message = String::from_str("symbol not found: ").concat(symbol);
        WSError {
            code: ErrorCode::InvalidSymbol,
            message,
            param: Some(String::from_str(symbol)),
        }
    }

    pub fn unauthorized(msg: &str) -> (e: Self)
        ensures
            e@ == (WSErrorView { param: None, code: ErrorCode::Unauthorized, message: msg@ }),
    {
        Self::with_message(ErrorCode::Unauthorized, msg)
    }

    pub fn unauthorized_with_param(param: &str, msg: &str) -> (e: Self)
        ensures
            e@ == (WSErrorView {
                param: Some(param@),
                code: ErrorCode::Unauthorized,
                message: msg@,
            }),
    {
        Self::with_param(ErrorCode::Unauthorized, param, msg)
    }

    pub fn subscription_exists(param: &str) -> (e: Self)
        ensures
            e@ == (WSErrorView {
                param: Some(param@),
                code: ErrorCode::SubscriptionExists,
                message: subscription_exists_message(),
            }),
    {
        Self::with_param(ErrorCode::SubscriptionExists, param, "subscription already exists")
    }

    pub fn mandatory_param_missing(msg: &str) -> (e: Self)
        ensures
            e@ == (WSErrorView {
                param: None,
                code: ErrorCode::MandatoryParamMissing,
                message: msg@,
            }),
    {
        Self::with_message(ErrorCode::MandatoryParamMissing, msg)
    }

    pub fn server_busy(msg: &str) -> (e: Self)
        ensures
            e@ == (WSErrorView { param: None, code: ErrorCode::Disconnected, message: msg@ }),
    {
        Self::with_message(ErrorCode::Disconnected, msg)
    }
}

} // verus!
