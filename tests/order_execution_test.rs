use trading_bot_rust::executor::{OrderExecutor, OrderRequest, PlaceStep};
use trading_bot_rust::order::{OrderError, OrderSide, OrderType, Price};
use trading_bot_rust::response::{interpret_place_body, interpret_status_reply, OrderAction};
use trading_bot_rust::retry::{RetryState, RetryStep};

fn request(symbol: &str, side: &str) -> OrderRequest {
    OrderRequest {
        symbol: symbol.to_string(),
        side: side.to_string(),
        quantity: 2,
        account_id: 777,
        order_type: None,
        limit_price: None,
        stop_loss_ticks: None,
        take_profit_ticks: None,
        custom_tag: None,
    }
}

fn ready_executor() -> OrderExecutor {
    let mut executor = OrderExecutor::new("https://api.topstepx.com".to_string());
    executor.set_token("tok".to_string());
    executor.set_contract_id("MNQ".to_string(), 12345);
    executor
}

#[test]
fn test_order_executor_creation() {
    let executor = OrderExecutor::new("https://api.topstepx.com".to_string());
    assert_eq!(executor.get_base_url(), "https://api.topstepx.com");
}

#[test]
fn test_token_management() {
    let mut executor = OrderExecutor::new("https://api.topstepx.com".to_string());
    assert!(executor.get_token().is_none());
    executor.set_token("test_token_12345".to_string());
    assert_eq!(executor.get_token(), Some("test_token_12345".to_string()));
}

#[test]
fn test_contract_cache() {
    let mut executor = OrderExecutor::new("https://api.topstepx.com".to_string());
    assert!(executor.get_contract_id("MNQ".to_string()).is_none());
    executor.set_contract_id("MNQ".to_string(), 12345);
    assert_eq!(executor.get_contract_id("MNQ".to_string()), Some(12345));
}

#[test]
fn test_place_order_requires_token() {
    let executor = OrderExecutor::new("https://api.topstepx.com".to_string());
    let result = executor.prepare_place(&request("MNQ", "BUY"));
    assert!(matches!(result, Err(OrderError::AuthRequired)));
}

#[test]
fn base_url_trailing_slashes_are_dropped() {
    let executor = OrderExecutor::new("https://api.topstepx.com//".to_string());
    assert_eq!(executor.get_base_url(), "https://api.topstepx.com");
}

#[test]
fn cache_lookup_ignores_case() {
    let mut executor = OrderExecutor::new("https://api.topstepx.com".to_string());
    executor.set_contract_id("mnq".to_string(), 12345);
    assert_eq!(executor.get_contract_id("MNQ".to_string()), Some(12345));
    assert_eq!(executor.get_contract_id("ES".to_string()), None);
}

#[test]
fn cache_entry_is_replaced() {
    let mut executor = OrderExecutor::new("https://api.topstepx.com".to_string());
    executor.set_contract_id("MNQ".to_string(), 1);
    executor.set_contract_id("mnq".to_string(), 2);
    assert_eq!(executor.get_contract_id("Mnq".to_string()), Some(2));
}

#[test]
fn missing_contract_names_symbol() {
    let mut executor = OrderExecutor::new("https://api.topstepx.com".to_string());
    executor.set_token("tok".to_string());
    let result = executor.prepare_place(&request("MNQ", "BUY"));
    match result {
        Err(e) => {
            assert_eq!(e, OrderError::ContractNotFound("MNQ".to_string()));
            assert!(e.to_message().contains("MNQ"));
        }
        Ok(_) => panic!("expected a hard failure"),
    }
}

#[test]
fn invalid_side_is_soft_failure() {
    let executor = OrderExecutor::new("https://api.topstepx.com".to_string());
    match executor.prepare_place(&request("MNQ", "HOLD")) {
        Ok(PlaceStep::Rejected(resp)) => {
            assert!(!resp.success);
            assert_eq!(resp.error, Some("Side must be 'BUY' or 'SELL'".to_string()));
        }
        _ => panic!("expected a soft failure"),
    }
}

#[test]
fn stop_loss_bracket_only() {
    let executor = ready_executor();
    let mut req = request("mnq", "sell");
    req.stop_loss_ticks = Some(10);
    match executor.prepare_place(&req) {
        Ok(PlaceStep::Send(p)) => {
            assert_eq!(p.url, "https://api.topstepx.com/api/Order/place");
            assert_eq!(p.token, "tok");
            assert_eq!(p.payload.contract_id, 12345);
            assert_eq!(p.payload.account_id, 777);
            assert_eq!(p.payload.side, 1);
            assert_eq!(p.payload.order_type, 2);
            assert_eq!(p.payload.size, 2);
            let b = p.payload.stop_loss_bracket.unwrap();
            assert_eq!((b.ticks, b.kind, b.size, b.reduce_only), (10, 4, 2, true));
            assert!(p.payload.take_profit_bracket.is_none());
            assert!(p.payload.limit_price.is_none());
            assert!(p.payload.custom_tag.is_none());
        }
        _ => panic!("expected a request"),
    }
}

#[test]
fn limit_order_with_take_profit_and_tag() {
    let executor = ready_executor();
    let mut req = request("MNQ", "Buy");
    req.order_type = Some("LIMIT".to_string());
    req.limit_price = Some(Price { bits: 21000.25f64.to_bits() });
    req.take_profit_ticks = Some(20);
    req.custom_tag = Some("tag-1".to_string());
    match executor.prepare_place(&req) {
        Ok(PlaceStep::Send(p)) => {
            assert_eq!(p.payload.side, 0);
            assert_eq!(p.payload.order_type, 1);
            assert_eq!(f64::from_bits(p.payload.limit_price.unwrap().bits), 21000.25);
            assert_eq!(p.payload.custom_tag, Some("tag-1".to_string()));
            let b = p.payload.take_profit_bracket.unwrap();
            assert_eq!((b.ticks, b.kind, b.size, b.reduce_only), (20, 1, 2, true));
            assert!(p.payload.stop_loss_bracket.is_none());
        }
        _ => panic!("expected a request"),
    }
}

#[test]
fn side_and_type_codes() {
    assert_eq!(OrderSide::from_text("sell"), OrderSide::Sell);
    assert_eq!(OrderSide::from_text("whatever"), OrderSide::Buy);
    assert_eq!(OrderSide::Sell.code(), 1);
    assert_eq!(OrderSide::from("Sell"), OrderSide::Sell);
    assert_eq!(OrderSide::from("buy"), OrderSide::Buy);
    assert_eq!(OrderType::from_text("Limit"), OrderType::Limit);
    assert_eq!(OrderType::from_text("stop"), OrderType::Market);
    assert_eq!(OrderType::Market.code(), 2);
}

#[test]
fn modify_and_cancel_requests() {
    let executor = ready_executor();
    let m = executor.prepare_modify("42".to_string(), None, Some(3)).unwrap();
    assert_eq!(m.url, "https://api.topstepx.com/api/Order/modify");
    assert_eq!(m.payload.order_id, "42");
    assert_eq!(m.payload.quantity, Some(3));
    let c = executor.prepare_cancel("42".to_string()).unwrap();
    assert_eq!(c.url, "https://api.topstepx.com/api/Order/cancel");
    assert_eq!(c.payload.order_id, "42");
    let bare = OrderExecutor::new("https://x".to_string());
    assert!(matches!(bare.prepare_cancel("1".to_string()), Err(OrderError::AuthRequired)));
    assert!(matches!(bare.prepare_modify("1".to_string(), None, None), Err(OrderError::AuthRequired)));
}

fn failing(error: &str) -> trading_bot_rust::response::OrderResponse {
    trading_bot_rust::response::OrderResponse {
        success: false,
        order_id: None,
        message: None,
        error: Some(error.to_string()),
        raw_response: None,
    }
}

#[test]
fn retry_backoff_schedule() {
    let mut state = RetryState::new();
    let server_error = failing("Order failed: HTTP 500 upstream (Code: Unknown)");
    let placed = interpret_place_body("{\"success\": true, \"orderId\": \"9\"}").unwrap();
    let mut waits = Vec::new();
    for resp in [&server_error, &server_error, &placed] {
        match state.on_result(resp) {
            RetryStep::Wait { delay_ms } => waits.push(delay_ms),
            RetryStep::Finish => {
                assert!(resp.success);
                break;
            }
        }
    }
    assert_eq!(waits, vec![750, 1500]);
}

#[test]
fn retry_stops_after_three() {
    let mut state = RetryState::new();
    let server_error = failing("HTTP 500");
    assert_eq!(state.on_result(&server_error), RetryStep::Wait { delay_ms: 750 });
    assert_eq!(state.on_result(&server_error), RetryStep::Wait { delay_ms: 1500 });
    assert_eq!(state.on_result(&server_error), RetryStep::Wait { delay_ms: 3000 });
    assert_eq!(state.on_result(&server_error), RetryStep::Finish);
}

#[test]
fn other_failures_are_not_retried() {
    let mut state = RetryState::new();
    assert_eq!(state.on_result(&failing("HTTP 404: gone")), RetryStep::Finish);
    assert_eq!(state.retries, 0);
}

#[test]
fn success_without_id_is_downgraded() {
    let resp = interpret_place_body("{\"success\": true}").unwrap();
    assert!(!resp.success);
    assert_eq!(resp.error, Some("Order rejected: No order ID returned".to_string()));
    assert!(resp.raw_response.is_some());
}

#[test]
fn empty_or_numeric_id_is_downgraded() {
    let resp = interpret_place_body("{\"success\": true, \"orderId\": \"\"}").unwrap();
    assert!(!resp.success);
    let resp = interpret_place_body("{\"success\": true, \"orderId\": 17, \"id\": \"5\"}").unwrap();
    assert!(!resp.success);
}

#[test]
fn order_id_fallbacks() {
    let resp = interpret_place_body("{\"success\": true, \"id\": \"A1\"}").unwrap();
    assert!(resp.success);
    assert_eq!(resp.order_id, Some("A1".to_string()));
    assert_eq!(resp.message, Some("Order placed successfully".to_string()));
    let resp = interpret_place_body("{\"success\": true, \"data\": {\"orderId\": \"B2\"}}").unwrap();
    assert_eq!(resp.order_id, Some("B2".to_string()));
    assert!(resp.error.is_none());
}

#[test]
fn error_member_wins() {
    let resp = interpret_place_body("{\"error\": \"margin\", \"success\": true, \"orderId\": \"1\"}").unwrap();
    assert!(!resp.success);
    assert_eq!(resp.error, Some("margin".to_string()));
    let resp = interpret_place_body("{\"error\": 5}").unwrap();
    assert_eq!(resp.error, Some("Unknown error".to_string()));
    let resp = interpret_place_body("{\"error\": null, \"success\": true, \"orderId\": \"1\"}").unwrap();
    assert!(resp.success);
}

#[test]
fn rejection_message_and_code() {
    let resp = interpret_place_body("{\"success\": false, \"errorMessage\": \"no funds\", \"errorCode\": \"E7\"}").unwrap();
    assert_eq!(resp.error, Some("Order failed: no funds (Code: E7)".to_string()));
    let resp = interpret_place_body("{\"message\": \"closed\"}").unwrap();
    assert_eq!(resp.error, Some("Order failed: closed (Code: Unknown)".to_string()));
    let resp = interpret_place_body("{}").unwrap();
    assert_eq!(resp.error, Some("Order failed: No error message (Code: Unknown)".to_string()));
}

#[test]
fn unparseable_body_is_hard_failure() {
    let result = interpret_place_body("not json");
    assert!(matches!(result, Err(OrderError::InvalidResponse(_))));
}

#[test]
fn status_reply_success_and_failure() {
    let ok = interpret_status_reply(OrderAction::Modify, "42".to_string(), 200, "200 OK", "{\"a\": 1}".to_string());
    assert!(ok.success);
    assert_eq!(ok.message, Some("Order modified successfully".to_string()));
    assert_eq!(ok.raw_response.unwrap()["a"], 1);
    let plain = interpret_status_reply(OrderAction::Cancel, "42".to_string(), 204, "204 No Content", "done".to_string());
    assert_eq!(plain.message, Some("Order cancelled successfully".to_string()));
    assert_eq!(plain.raw_response.unwrap()["message"], "done");
    let bad = interpret_status_reply(OrderAction::Cancel, "42".to_string(), 404, "404 Not Found", "gone".to_string());
    assert!(!bad.success);
    assert_eq!(bad.order_id, Some("42".to_string()));
    assert_eq!(bad.error, Some("HTTP 404 Not Found: gone".to_string()));
    assert!(bad.raw_response.is_none());
}

#[test]
fn error_messages() {
    assert_eq!(OrderError::AuthRequired.to_message(), "Authentication token required. Call set_token() first.");
    assert_eq!(
        OrderError::ContractNotFound("ES".to_string()).to_message(),
        "Contract ID not found for symbol: ES. Call set_contract_id() first."
    );
}
