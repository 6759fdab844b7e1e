use cetus_aggregator::models::{Amount, FindRouterParams, FloatText, PreSwapLpChangeParams};
use cetus_aggregator::{
    build_find_routers_request, build_get_url, build_post_body, completion_coin, resolve_endpoint,
    RouterRequest,
};
use num_bigint::BigUint;
use std::str::FromStr;

const ENDPOINT: &str = "https://api-sui.cetus.zone/router_v2";

fn base_params() -> FindRouterParams {
    FindRouterParams {
        from: "0x2::sui::SUI".to_string(),
        target: "0xabc::cetus::CETUS".to_string(),
        amount: Amount::from_u64(1000),
        by_amount_in: true,
        ..Default::default()
    }
}

#[test]
fn get_request_scenario() {
    let params = FindRouterParams {
        from: "0x2::sui::SUI".to_string(),
        target: "0x06864a6f921804860930db6ddbe2e16acdf8504495ea7481637a1c8b9a8fe54b::cetus::CETUS"
            .to_string(),
        amount: Amount::from_u64(1000000000),
        by_amount_in: true,
        depth: Some(3),
        split_count: Some(1),
        providers: Some(vec!["CETUS".to_string()]),
        ..Default::default()
    };
    let url = build_get_url(ENDPOINT, &params);
    assert_eq!(
        url,
        "https://api-sui.cetus.zone/router_v2/find_routes?from=0x2::sui::SUI&target=0x06864a6f921804860930db6ddbe2e16acdf8504495ea7481637a1c8b9a8fe54b::cetus::CETUS&amount=1000000000&by_amount_in=true&depth=3&split_count=1&providers=CETUS&v=1000327"
    );
}

#[test]
fn get_omits_absent_optionals() {
    let params = base_params();
    let url = build_get_url(ENDPOINT, &params);
    assert_eq!(
        url,
        "https://api-sui.cetus.zone/router_v2/find_routes?from=0x2::sui::SUI&target=0xabc::cetus::CETUS&amount=1000&by_amount_in=true&v=1000327"
    );
    assert!(!url.contains("depth"));
    assert!(!url.contains("split_algorithm"));
    assert!(!url.contains("split_factor"));
    assert!(!url.contains("split_count"));
    assert!(!url.contains("providers"));
}

#[test]
fn get_with_all_optionals() {
    let params = FindRouterParams {
        depth: Some(3),
        split_algorithm: Some("v2".to_string()),
        split_factor: Some(FloatText::from_text("0.5".to_string()).unwrap()),
        split_count: Some(2),
        providers: Some(vec!["CETUS".to_string(), "DEEPBOOK".to_string()]),
        ..base_params()
    };
    let url = build_get_url(ENDPOINT, &params);
    assert_eq!(
        url,
        "https://api-sui.cetus.zone/router_v2/find_routes?from=0x2::sui::SUI&target=0xabc::cetus::CETUS&amount=1000&by_amount_in=true&depth=3&split_algorithm=v2&split_factor=0.5&split_count=2&providers=CETUS,DEEPBOOK&v=1000327"
    );
}

#[test]
fn get_omits_empty_provider_list() {
    let params = FindRouterParams { providers: Some(vec![]), ..base_params() };
    let url = build_get_url(ENDPOINT, &params);
    assert!(!url.contains("providers"));
}

#[test]
fn get_default_params() {
    let params = FindRouterParams::default();
    let url = build_get_url(ENDPOINT, &params);
    assert_eq!(
        url,
        "https://api-sui.cetus.zone/router_v2/find_routes?from=&target=&amount=0&by_amount_in=true&v=1000327"
    );
}

#[test]
fn amount_beyond_u64_stays_decimal_in_get() {
    let big = BigUint::from_str("123456789012345678901234567890").unwrap();
    let params = FindRouterParams {
        amount: Amount::from_decimal(big.to_string()).unwrap(),
        by_amount_in: false,
        ..base_params()
    };
    let url = build_get_url(ENDPOINT, &params);
    assert!(url.contains("&amount=123456789012345678901234567890&by_amount_in=false"));
}

#[test]
fn amount_beyond_u64_stays_decimal_string_in_post() {
    let big = BigUint::from_str("123456789012345678901234567890").unwrap();
    let params = FindRouterParams {
        amount: Amount::from_decimal(big.to_string()).unwrap(),
        liquidity_changes: Some(vec![change("p", -1, 1, 2)]),
        ..base_params()
    };
    let body = build_post_body(&params);
    assert!(body.contains("\"amount\":\"123456789012345678901234567890\""));
}

fn change(pool: &str, lower: i32, upper: i32, delta: i64) -> PreSwapLpChangeParams {
    PreSwapLpChangeParams {
        pool_id: pool.to_string(),
        tick_lower: lower,
        tick_upper: upper,
        delta_liquidity: delta,
    }
}

#[test]
fn post_body_exact() {
    let params = FindRouterParams {
        from: "AAA".to_string(),
        target: "BBB".to_string(),
        amount: Amount::from_u64(5),
        by_amount_in: false,
        liquidity_changes: Some(vec![change("pool1", -10, 20, -500)]),
        ..Default::default()
    };
    let body = build_post_body(&params);
    assert_eq!(
        body,
        "{\"from\":\"AAA\",\"target\":\"BBB\",\"amount\":\"5\",\"by_amount_in\":false,\"liquidity_changes\":[{\"pool\":\"pool1\",\"tick_lower\":-10,\"tick_upper\":20,\"delta_liquidity\":-500}]}"
    );
}

#[test]
fn post_body_with_all_optionals() {
    let params = FindRouterParams {
        from: "f".to_string(),
        target: "t".to_string(),
        amount: Amount::from_u64(7),
        by_amount_in: true,
        depth: Some(2),
        split_algorithm: Some("v2".to_string()),
        split_factor: Some(FloatText::from_text("0.5".to_string()).unwrap()),
        split_count: Some(3),
        providers: Some(vec!["A".to_string(), "B".to_string()]),
        liquidity_changes: Some(vec![change("p1", 0, 1, 10), change("p2", -2, 2, -20)]),
    };
    let body = build_post_body(&params);
    assert_eq!(
        body,
        "{\"from\":\"f\",\"target\":\"t\",\"amount\":\"7\",\"by_amount_in\":true,\"depth\":2,\"split_algorithm\":\"v2\",\"split_factor\":0.5,\"split_count\":3,\"providers\":\"A,B\",\"liquidity_changes\":[{\"pool\":\"p1\",\"tick_lower\":0,\"tick_upper\":1,\"delta_liquidity\":10},{\"pool\":\"p2\",\"tick_lower\":-2,\"tick_upper\":2,\"delta_liquidity\":-20}]}"
    );
}

#[test]
fn post_body_omits_empty_provider_list() {
    let params = FindRouterParams {
        from: "AAA".to_string(),
        target: "BBB".to_string(),
        amount: Amount::from_u64(5),
        by_amount_in: true,
        providers: Some(vec![]),
        liquidity_changes: Some(vec![change("pool1", -10, 20, -500)]),
        ..Default::default()
    };
    let body = build_post_body(&params);
    assert!(!body.contains("providers"));
    assert_eq!(
        body,
        "{\"from\":\"AAA\",\"target\":\"BBB\",\"amount\":\"5\",\"by_amount_in\":true,\"liquidity_changes\":[{\"pool\":\"pool1\",\"tick_lower\":-10,\"tick_upper\":20,\"delta_liquidity\":-500}]}"
    );
}

#[test]
fn float_text_accepts_plain_decimal_renderings() {
    assert_eq!(FloatText::from_text("0.5".to_string()).unwrap().as_text(), "0.5");
    assert_eq!(FloatText::from_text("-0.25".to_string()).unwrap().as_text(), "-0.25");
    assert_eq!(FloatText::from_text("10".to_string()).unwrap().as_text(), "10");
    assert_eq!(FloatText::from_text("-3".to_string()).unwrap().as_text(), "-3");
    assert_eq!(FloatText::from_text("0".to_string()).unwrap().as_text(), "0");
    assert_eq!(FloatText::from_text((0.5f64).to_string()).unwrap().as_text(), "0.5");
}

#[test]
fn float_text_rejects_other_shapes() {
    assert!(FloatText::from_text("".to_string()).is_none());
    assert!(FloatText::from_text("-".to_string()).is_none());
    assert!(FloatText::from_text("1.".to_string()).is_none());
    assert!(FloatText::from_text(".5".to_string()).is_none());
    assert!(FloatText::from_text("1.2.3".to_string()).is_none());
    assert!(FloatText::from_text("01".to_string()).is_none());
    assert!(FloatText::from_text("1e5".to_string()).is_none());
    assert!(FloatText::from_text("NaN".to_string()).is_none());
    assert!(FloatText::from_text("inf".to_string()).is_none());
    assert!(FloatText::from_text(f64::NAN.to_string()).is_none());
    assert!(FloatText::from_text(f64::INFINITY.to_string()).is_none());
}

#[test]
fn post_body_escapes_special_characters() {
    let params = FindRouterParams {
        from: "a\"b".to_string(),
        target: "c\\d".to_string(),
        amount: Amount::from_u64(1),
        by_amount_in: true,
        ..Default::default()
    };
    let body = build_post_body(&params);
    assert_eq!(
        body,
        "{\"from\":\"a\\\"b\",\"target\":\"c\\\\d\",\"amount\":\"1\",\"by_amount_in\":true}"
    );
}

#[test]
fn post_body_escapes_control_characters() {
    let params = FindRouterParams {
        from: "x\ny".to_string(),
        target: "\u{1}".to_string(),
        amount: Amount::from_u64(1),
        by_amount_in: true,
        ..Default::default()
    };
    let body = build_post_body(&params);
    assert_eq!(
        body,
        "{\"from\":\"x\\ny\",\"target\":\"\\u0001\",\"amount\":\"1\",\"by_amount_in\":true}"
    );
}

#[test]
fn post_body_parses_as_json() {
    let params = FindRouterParams {
        depth: Some(2),
        split_factor: Some(FloatText::from_text("0.5".to_string()).unwrap()),
        providers: Some(vec!["A".to_string(), "B".to_string()]),
        liquidity_changes: Some(vec![change("p1", -10, 20, -500)]),
        ..base_params()
    };
    let body = build_post_body(&params);
    let value: serde_json::Value = serde_json::from_str(&body).unwrap();
    assert_eq!(value.get("from").and_then(|v| v.as_str()), Some("0x2::sui::SUI"));
    assert_eq!(value.get("amount").and_then(|v| v.as_str()), Some("1000"));
    assert_eq!(value.get("by_amount_in").and_then(|v| v.as_bool()), Some(true));
    assert_eq!(value.get("depth").and_then(|v| v.as_u64()), Some(2));
    assert_eq!(value.get("split_factor").and_then(|v| v.as_f64()), Some(0.5));
    assert_eq!(value.get("providers").and_then(|v| v.as_str()), Some("A,B"));
    let changes = value.get("liquidity_changes").and_then(|v| v.as_array()).unwrap();
    assert_eq!(changes.len(), 1);
    assert_eq!(changes[0].get("pool").and_then(|v| v.as_str()), Some("p1"));
    assert_eq!(changes[0].get("tick_lower").and_then(|v| v.as_i64()), Some(-10));
    assert_eq!(changes[0].get("tick_upper").and_then(|v| v.as_i64()), Some(20));
    assert_eq!(changes[0].get("delta_liquidity").and_then(|v| v.as_i64()), Some(-500));
}

#[test]
fn chooses_get_without_liquidity_changes() {
    let params = base_params();
    let request = build_find_routers_request(ENDPOINT, &params);
    assert!(matches!(request, RouterRequest::Get { .. }));
}

#[test]
fn chooses_get_with_empty_liquidity_changes() {
    let params = FindRouterParams { liquidity_changes: Some(vec![]), ..base_params() };
    let request = build_find_routers_request(ENDPOINT, &params);
    assert!(matches!(request, RouterRequest::Get { .. }));
}

#[test]
fn chooses_post_with_liquidity_changes() {
    let params =
        FindRouterParams { liquidity_changes: Some(vec![change("p", 0, 1, 1)]), ..base_params() };
    let request = build_find_routers_request(ENDPOINT, &params);
    match request {
        RouterRequest::Post { url, body } => {
            assert_eq!(url, "https://api-sui.cetus.zone/router_v2/find_routes");
            assert_eq!(body, build_post_body(&params));
        }
        RouterRequest::Get { .. } => panic!("expected a POST request"),
    }
}

#[test]
fn amount_from_decimal_accepts_canonical_text() {
    let a = Amount::from_decimal("907".to_string()).unwrap();
    assert_eq!(a.as_decimal(), "907");
    let zero = Amount::from_decimal("0".to_string()).unwrap();
    assert_eq!(zero.as_decimal(), "0");
}

#[test]
fn amount_from_decimal_rejects_non_canonical_text() {
    assert!(Amount::from_decimal("".to_string()).is_none());
    assert!(Amount::from_decimal("12a3".to_string()).is_none());
    assert!(Amount::from_decimal("007".to_string()).is_none());
    assert!(Amount::from_decimal("-5".to_string()).is_none());
}

#[test]
fn amount_from_u64_renders_decimal() {
    assert_eq!(Amount::from_u64(0).as_decimal(), "0");
    assert_eq!(Amount::from_u64(10).as_decimal(), "10");
    assert_eq!(Amount::from_u64(u64::MAX).as_decimal(), "18446744073709551615");
}

#[test]
fn completion_coin_is_a_pass_through() {
    assert_eq!(completion_coin("0x2::sui::SUI"), "0x2::sui::SUI");
    assert_eq!(completion_coin(""), "");
}

#[test]
fn resolve_endpoint_default_and_override() {
    assert_eq!(resolve_endpoint(None), "https://api-sui.cetus.zone/router_v2");
    assert_eq!(resolve_endpoint(Some("http://localhost:8080".to_string())), "http://localhost:8080");
}
