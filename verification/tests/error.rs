use trading_ws_types::{ErrorCode, WSError};

const TABLE: [(ErrorCode, i32, &str); 30] = [
    (ErrorCode::Unknown, -1000, "Unknown error"),
    (ErrorCode::Disconnected, -1001, "Disconnected"),
    (ErrorCode::Unauthorized, -1002, "Unauthorized"),
    (ErrorCode::TooManyRequests, -1003, "Too many requests"),
    (ErrorCode::UnexpectedResponse, -1006, "Unexpected response"),
    (ErrorCode::Timeout, -1007, "Timeout"),
    (ErrorCode::UnknownOrder, -1014, "Unknown order"),
    (ErrorCode::TooManyOrders, -1015, "Too many orders"),
    (ErrorCode::ServiceUnavailable, -1016, "Service unavailable"),
    (ErrorCode::UnsupportedOperation, -1020, "Unsupported operation"),
    (ErrorCode::InvalidTimestamp, -1021, "Invalid timestamp"),
    (ErrorCode::InvalidSignature, -1022, "Invalid signature"),
    (ErrorCode::MandatoryParamMissing, -1102, "Mandatory parameter missing"),
    (ErrorCode::BadPrecision, -1111, "Bad precision"),
    (ErrorCode::InvalidOrderType, -1116, "Invalid order type"),
    (ErrorCode::InvalidSide, -1117, "Invalid side"),
    (ErrorCode::InvalidSymbol, -1122, "Invalid symbol"),
    (ErrorCode::InvalidUserAddress, -1123, "Invalid user address"),
    (ErrorCode::NewOrderRejected, -2010, "New order rejected"),
    (ErrorCode::CancelRejected, -2011, "Cancel rejected"),
    (ErrorCode::NoSuchOrder, -2013, "No such order"),
    (ErrorCode::ApiKeyFormatInvalid, -2014, "API key format invalid"),
    (ErrorCode::InvalidApiKeyIpPermissions, -2015, "Invalid API key/IP/permissions"),
    (ErrorCode::OrderWouldTrigger, -2021, "Order would immediately trigger"),
    (ErrorCode::InvalidSubscriptionFormat, -1004, "Invalid subscription format"),
    (ErrorCode::SymbolNotFound, -1005, "Symbol not found"),
    (ErrorCode::ValidationError, -1008, "Validation error"),
    (ErrorCode::SubscriptionExists, -1010, "Subscription already exists"),
    (ErrorCode::ClientNotFound, -4001, "Client not found"),
    (ErrorCode::CouldNotSendMessage, -4002, "Could not send message"),
];

#[test]
fn error_code_numbers() {
    for (c, n, _) in TABLE {
        assert_eq!(c.code(), n);
    }
}

#[test]
fn error_code_texts() {
    for (c, _, t) in TABLE {
        assert_eq!(c.to_string(), t);
    }
}

#[test]
fn error_code_reads_back_from_its_number() {
    for (c, n, _) in TABLE {
        assert_eq!(ErrorCode::from_code(n), c);
        assert_eq!(ErrorCode::from_code(c.code()), c);
    }
}

#[test]
fn unknown_numbers_read_as_unknown() {
    for n in [0, 1, -1, -999, -1009, -1011, -2012, -4003, i32::MIN, i32::MAX] {
        assert_eq!(ErrorCode::from_code(n), ErrorCode::Unknown);
    }
}

#[test]
fn new_uses_default_text() {
    let e = WSError::new(ErrorCode::Timeout);
    assert_eq!(e.error_code(), ErrorCode::Timeout);
    assert_eq!(e.code(), -1007);
    assert_eq!(e.message(), "Timeout");
    assert_eq!(e.param(), None);
    assert_eq!(e.to_string(), "Timeout");
}

#[test]
fn with_message_and_with_param() {
    let e = WSError::with_message(ErrorCode::NoSuchOrder, "order 5 is gone");
    assert_eq!(e.code(), -2013);
    assert_eq!(e.message(), "order 5 is gone");
    assert_eq!(e.param(), None);

    let e = WSError::with_param(ErrorCode::BadPrecision, "price", "too many decimals");
    assert_eq!(e.error_code(), ErrorCode::BadPrecision);
    assert_eq!(e.param(), Some("price"));
    assert_eq!(e.message(), "too many decimals");
    assert_eq!(e.to_string(), "too many decimals");
}

#[test]
fn convenience_constructors() {
    let e = WSError::invalid_request("bad json");
    assert_eq!((e.error_code(), e.code(), e.message(), e.param()), (ErrorCode::ValidationError, -1008, "bad json", None));

    let e = WSError::invalid_subscription("bad topic");
    assert_eq!((e.error_code(), e.code(), e.message(), e.param()), (ErrorCode::InvalidSubscriptionFormat, -1004, "bad topic", None));

    let e = WSError::invalid_subscription_with_param("x@y", "bad topic");
    assert_eq!((e.error_code(), e.message(), e.param()), (ErrorCode::InvalidSubscriptionFormat, "bad topic", Some("x@y")));

    let e = WSError::symbol_not_found("BTC-USD");
    assert_eq!((e.error_code(), e.code(), e.message(), e.param()), (ErrorCode::InvalidSymbol, -1122, "symbol not found: BTC-USD", Some("BTC-USD")));

    let e = WSError::unauthorized("no key");
    assert_eq!((e.error_code(), e.code(), e.message(), e.param()), (ErrorCode::Unauthorized, -1002, "no key", None));

    let e = WSError::unauthorized_with_param("account", "no key");
    assert_eq!((e.error_code(), e.message(), e.param()), (ErrorCode::Unauthorized, "no key", Some("account")));

    let e = WSError::subscription_exists("BTC@depth");
    assert_eq!((e.error_code(), e.code(), e.message(), e.param()), (ErrorCode::SubscriptionExists, -1010, "subscription already exists", Some("BTC@depth")));

    let e = WSError::mandatory_param_missing("id");
    assert_eq!((e.error_code(), e.code(), e.message(), e.param()), (ErrorCode::MandatoryParamMissing, -1102, "id", None));

    let e = WSError::server_busy("try later");
    assert_eq!((e.error_code(), e.code(), e.message(), e.param()), (ErrorCode::Disconnected, -1001, "try later", None));
}

#[test]
fn symbol_not_found_with_empty_symbol() {
    let e = WSError::symbol_not_found("");
    assert_eq!(e.message(), "symbol not found: ");
    assert_eq!(e.param(), Some(""));
}
