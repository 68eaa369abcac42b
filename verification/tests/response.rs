use trading_ws_types::{OrderResultMessage, OrderResultPayload, RequestId, TxStatus};

#[test]
fn live_statuses_are_success() {
    assert!(TxStatus::Processed.is_success());
    assert!(TxStatus::Published.is_success());
    assert!(TxStatus::Submitted.is_success());
    assert!(TxStatus::Finalized.is_success());
}

#[test]
fn dropped_and_unknown_are_failures() {
    assert!(!TxStatus::Dropped.is_success());
    assert!(!TxStatus::Unknown.is_success());
}

#[test]
fn order_result_message_holds_its_fields() {
    let m = OrderResultMessage {
        id: Some(RequestId::new(3)),
        event_time: 1_700_000_000_000_000,
        results: OrderResultPayload {
            tx_id: "0xabc".to_string(),
            status: TxStatus::Processed,
            order_ids: vec![11, 12],
            client_order_ids: vec![1, 2],
        },
    };
    assert_eq!(m.id, Some(RequestId::new(3)));
    assert!(m.results.status.is_success());
    assert_eq!(m.results.order_ids.len(), m.results.client_order_ids.len());
}
