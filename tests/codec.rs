use pool_requests::api::{
    decimal_string, GetMiningInfoRequest, SubmitNonceRequest,
    default_target_deadline, from_str_or_int, parse_json_result, FetchError, MiningInfoResponse,
    PoolError, SubmitNonceResponse,
};
use pool_requests::json::{parse_decimal, Json};

#[test]
fn string_deadline_decodes_to_integer() {
    let body = br#"{"result":{"accept":true,"deadline":"7123"},"error":null,"id":"1"}"#;
    let r = parse_json_result::<SubmitNonceResponse>(body).unwrap();
    assert_eq!(r.result.deadline, Some(7123));
    assert_eq!(r.result.accept, Some(true));
    assert_eq!(r.error, None);
    assert_eq!(r.id, "1");
}

#[test]
fn integer_deadline_decodes_to_same_integer() {
    let body = br#"{"result":{"accept":true,"deadline":7123},"error":null,"id":"1"}"#;
    let text = br#"{"result":{"accept":true,"deadline":"7123"},"error":null,"id":"1"}"#;
    let r = parse_json_result::<SubmitNonceResponse>(body).unwrap();
    assert_eq!(r.result.deadline, Some(7123));
    assert_eq!(parse_json_result::<SubmitNonceResponse>(text), Ok(r));
}

#[test]
fn success_schema_kept_with_error_member() {
    let body = br#"{"result":{"plotid":"p1","targetdeadline":"500"},"error":"late","id":"2"}"#;
    let r = parse_json_result::<SubmitNonceResponse>(body).unwrap();
    assert_eq!(r.error, Some("late".to_string()));
    assert_eq!(r.result.plotid, Some("p1".to_string()));
    assert_eq!(r.result.targetdeadline, Some(500));
    assert_eq!(r.result.accept, None);
    assert_eq!(r.result.deadline, None);
}

#[test]
fn pool_error_envelope_is_the_second_tier() {
    let body = br#"{"error":{"code":1,"message":"bad nonce"}}"#;
    let r = parse_json_result::<SubmitNonceResponse>(body);
    assert_eq!(r, Err(PoolError { code: 1, message: "bad nonce".to_string() }));
}

#[test]
fn negative_error_code_is_read() {
    let body = br#"{"error":{"code":-32600,"message":"invalid request"}}"#;
    let r = parse_json_result::<SubmitNonceResponse>(body);
    assert_eq!(r, Err(PoolError { code: -32600, message: "invalid request".to_string() }));
}

#[test]
fn plain_text_body_is_the_last_tier() {
    let r = parse_json_result::<SubmitNonceResponse>(b"Service Unavailable");
    assert_eq!(r, Err(PoolError { code: 0, message: "Service Unavailable".to_string() }));
}

#[test]
fn signed_deadline_string_is_not_digits() {
    let body = br#"{"result":{"accept":true,"deadline":"+7123"},"error":null,"id":"1"}"#;
    let r = parse_json_result::<SubmitNonceResponse>(body);
    assert_eq!(r.unwrap_err().code, 0);
}

#[test]
fn json_of_another_shape_is_kept_as_text() {
    let body = br#"{"result":true,"id":"3"}"#;
    let r = parse_json_result::<SubmitNonceResponse>(body);
    assert_eq!(r, Err(PoolError { code: 0, message: r#"{"result":true,"id":"3"}"#.to_string() }));
}

#[test]
fn invalid_utf8_body_is_replaced() {
    let r = parse_json_result::<SubmitNonceResponse>(b"\xffbusy");
    assert_eq!(r, Err(PoolError { code: 0, message: "\u{FFFD}busy".to_string() }));
}

#[test]
fn mining_info_accepts_strings_and_numbers() {
    let a = br#"{"result":{"generationSignature":"ab","baseTarget":"70000","height":1193},"error":null,"id":"1"}"#;
    let b = br#"{"result":{"generationSignature":"ab","baseTarget":70000,"height":"1193"},"id":"1"}"#;
    let ra: MiningInfoResponse = parse_json_result(a).unwrap();
    let rb: MiningInfoResponse = parse_json_result(b).unwrap();
    assert_eq!(ra, rb);
    assert_eq!(ra.result.base_target, 70000);
    assert_eq!(ra.result.height, 1193);
    assert_eq!(ra.result.generation_signature, "ab");
    assert_eq!(ra.result.target_deadline, u64::MAX);
}

#[test]
fn mining_info_target_deadline_when_given() {
    let body = br#"{"result":{"generationSignature":"ab","baseTarget":1,"height":2,"targetDeadline":"86400"},"id":"1"}"#;
    let r: MiningInfoResponse = parse_json_result(body).unwrap();
    assert_eq!(r.result.target_deadline, 86400);
}

#[test]
fn mining_info_rejects_float_height() {
    let body = br#"{"result":{"generationSignature":"ab","baseTarget":1,"height":2.5},"id":"1"}"#;
    let r = parse_json_result::<MiningInfoResponse>(body);
    assert_eq!(r.unwrap_err().code, 0);
}

#[test]
fn default_target_deadline_is_largest() {
    assert_eq!(default_target_deadline(), u64::MAX);
}

#[test]
fn decimal_numerals() {
    assert_eq!(parse_decimal("7123"), Some(7123));
    assert_eq!(parse_decimal("+7"), None);
    assert_eq!(parse_decimal("0"), Some(0));
    assert_eq!(parse_decimal("18446744073709551615"), Some(u64::MAX));
    assert_eq!(parse_decimal("18446744073709551616"), None);
    assert_eq!(parse_decimal(""), None);
    assert_eq!(parse_decimal("+"), None);
    assert_eq!(parse_decimal("-1"), None);
    assert_eq!(parse_decimal("12a"), None);
    assert_eq!(parse_decimal(" 12"), None);
    assert_eq!(parse_decimal("١٢"), None);
}

#[test]
fn str_or_int_forms_agree() {
    assert_eq!(from_str_or_int(&Json::Str("42".to_string())), Some(42));
    assert_eq!(from_str_or_int(&Json::Str("+5".to_string())), None);
    assert_eq!(from_str_or_int(&Json::Number(Some(42), Some(42))), Some(42));
    assert_eq!(from_str_or_int(&Json::Number(None, Some(-1))), None);
    assert_eq!(from_str_or_int(&Json::Bool(true)), None);
    assert_eq!(from_str_or_int(&Json::Null), None);
}

#[test]
fn transport_error_keeps_description() {
    let e = FetchError::Http("timed out".to_string());
    assert_eq!(e, FetchError::Http("timed out".to_string()));
}

#[test]
fn decimal_strings() {
    assert_eq!(decimal_string(0), "0");
    assert_eq!(decimal_string(7), "7");
    assert_eq!(decimal_string(1193), "1193");
    assert_eq!(decimal_string(u64::MAX), "18446744073709551615");
}

#[test]
fn submit_nonce_envelope() {
    let r = SubmitNonceRequest::new("1".to_string(), "A".to_string(), 12, Some(86400), 7123, 1193);
    assert_eq!(r.jsonrpc, "2.0");
    assert_eq!(r.id, "1");
    assert_eq!(r.method, "submitNonce");
    let p = r.params.unwrap();
    assert_eq!((p.0.as_str(), p.1.as_str(), p.2, p.3, p.4), ("A", "12", Some(86400), 7123, 1193));
    assert_eq!(GetMiningInfoRequest::new().request_type, "getMiningInfo");
}

#[test]
fn pool_error_converts_to_fetch_error() {
    let e = PoolError { code: 3, message: "x".to_string() };
    assert_eq!(FetchError::from(e), FetchError::Pool(PoolError { code: 3, message: "x".to_string() }));
}
