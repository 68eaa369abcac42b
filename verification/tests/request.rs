use trading_ws_types::RequestId;

#[test]
fn test_request_id_serde() {
    // The number a request id is built from, as serde_json reads and
    // writes it; the id itself keeps that number.
    let id = RequestId::from(serde_json::from_str::<u64>("123").unwrap());
    assert_eq!(id, RequestId::new(123));

    let id = RequestId::new(456);
    assert_eq!(serde_json::to_string(&id.as_u64()).unwrap(), "456");

    assert_eq!(RequestId::new(42).to_string(), "42");
}

#[test]
fn request_id_new_and_from_agree() {
    assert_eq!(RequestId::new(9), RequestId::from(9u64));
    assert_eq!(RequestId::new(9).as_u64(), 9);
    assert_ne!(RequestId::new(9), RequestId::new(10));
    let r = RequestId::new(77);
    assert_eq!(RequestId::new(r.as_u64()), r);
}

#[test]
fn request_id_decimal_edges() {
    assert_eq!(RequestId::new(0).to_string(), "0");
    assert_eq!(RequestId::new(7).to_string(), "7");
    assert_eq!(RequestId::new(10).to_string(), "10");
    assert_eq!(RequestId::new(1000).to_string(), "1000");
    assert_eq!(RequestId::new(u64::MAX).to_string(), "18446744073709551615");
}

#[test]
fn request_id_decimal_matches_std() {
    for n in [1u64, 9, 99, 100, 12345, 4294967296, 999999999999] {
        assert_eq!(RequestId::new(n).to_string(), n.to_string());
        // Reading the rendering back gives the number.
        assert_eq!(RequestId::new(n).to_string().parse::<u64>().unwrap(), n);
    }
}
