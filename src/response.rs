//! Order results, and how the venue's replies become them.

use vstd::prelude::*;
use vstd::string::*;
use crate::json::{
    Field, body_member, body_nested_member, json_parses, member_of, nested_member_of, parse_json,
    single_member_object,
};
use crate::order::OrderError;

verus! {

/// The result of a place, modify or cancel operation.
#[derive(Clone, Debug)]
pub struct OrderResponse {
    pub success: bool,
    pub order_id: Option<String>,
    pub message: Option<String>,
    pub error: Option<String>,
    /// The venue's reply, kept for diagnostics.
    pub raw_response: Option<serde_json::Value>,
}

/// The members of a place reply that decide its outcome.
#[derive(Clone, Debug)]
pub struct PlaceReply {
    pub error: Field,
    pub success: Field,
    pub error_code: Field,
    pub error_message: Field,
    pub message: Field,
    pub order_id: Field,
    pub id: Field,
    /// The member `orderId` of the member `data`.
    pub data_order_id: Field,
}

/// Which operation a status-judged reply answers.
#[derive(Clone, Copy, Debug, PartialEq, Eq, Structural)]
pub enum OrderAction {
    Modify,
    Cancel,
}

pub open spec fn opt_text(o: Option<String>) -> Option<Seq<char>> {
    match o {
        Some(s) => Some(s@),
        None => None,
    }
}

/// The first of two fields whose key is present.
pub open spec fn first_present(a: Field, b: Field) -> Field {
    if a.is_present() {
        a
    } else {
        b
    }
}

pub open spec fn text_or(f: Field, default: Seq<char>) -> Seq<char> {
    match f.text() {
        Some(t) => t,
        None => default,
    }
}

/// The order identifier of a reply: the first present of `orderId`, `id`
/// and `data.orderId`, when it holds a non-empty string.
pub open spec fn reply_order_id(r: PlaceReply) -> Option<Seq<char>> {
    match first_present(r.order_id, first_present(r.id, r.data_order_id)).text() {
        Some(t) => if t.len() > 0 {
            Some(t)
        } else {
            None
        },
        None => None,
    }
}

/// A reply is marked successful only by a `success` member holding `true`.
pub open spec fn reply_succeeded(r: PlaceReply) -> bool {
    r.success.flag() == Some(true)
}

/// The error a place reply yields, or `None` when the order was placed.
pub open spec fn place_error(r: PlaceReply) -> Option<Seq<char>> {
    if r.error.is_present() && !(r.error is Null) {
        Some(text_or(r.error, "Unknown error"@))
    } else if !reply_succeeded(r) {
        Some(
            "Order failed: "@ + text_or(first_present(r.error_message, r.message), "No error message"@)
                + " (Code: "@ + text_or(r.error_code, "Unknown"@) + ")"@,
        )
    } else if reply_order_id(r) is None {
        Some("Order rejected: No order ID returned"@)
    } else {
        None
    }
}

/// `resp` is what the place reply `r`, with raw form `raw`, is interpreted as.
pub open spec fn place_result(r: PlaceReply, raw: serde_json::Value, resp: OrderResponse) -> bool {
    &&& resp.success == (place_error(r) is None)
    &&& opt_text(resp.error) == place_error(r)
    &&& opt_text(resp.order_id) == (if place_error(r) is None {
        reply_order_id(r)
    } else {
        None
    })
    &&& opt_text(resp.message) == (if place_error(r) is None {
        Some("Order placed successfully"@)
    } else {
        None
    })
    &&& resp.raw_response == Some(raw)
}

pub open spec fn action_message(a: OrderAction) -> Seq<char> {
    match a {
        OrderAction::Modify => "Order modified successfully"@,
        OrderAction::Cancel => "Order cancelled successfully"@,
    }
}

pub open spec fn is_success_status(status: u16) -> bool {
    200 <= status < 300
}

fn field_text_or(f: &Field, default: &str) -> (r: String)
    ensures
        r@ == text_or(*f, default@),
{
    match f {
        Field::Text(t) => t.clone(),
        _ => String::from_str(default),
    }
}

fn pick_present<'a>(a: &'a Field, b: &'a Field) -> (r: &'a Field)
    ensures
        *r == first_present(*a, *b),
{
    if a.is_missing() {
        b
    } else {
        a
    }
}

fn failure(error: String, raw: Option<serde_json::Value>, order_id: Option<String>) -> (r: OrderResponse)
    ensures
        !r.success,
        r.error == Some(error),
        r.raw_response == raw,
        r.order_id == order_id,
        r.message is None,
{
    OrderResponse { success: false, order_id, message: None, error: Some(error), raw_response: raw }
}

/// Interprets the members of a place reply: an `error` member wins; then a
/// reply not marked successful fails with its message and code; a successful
/// one without an order identifier is downgraded to a failure.
pub fn interpret_place_reply(reply: &PlaceReply, raw: serde_json::Value) -> (r: OrderResponse)
    ensures
        place_result(*reply, raw, r),
        r.success ==> (r.order_id is Some && r.order_id.unwrap()@.len() > 0),
{
    if !reply.error.is_missing() && !matches!(reply.error, Field::Null) {
        let e = field_text_or(&reply.error, "Unknown error");
        return failure(e, Some(raw), None);
    }
    let succeeded = match reply.success {
        Field::Flag(b) => b,
        _ => false,
    };
    if !succeeded {
        let msg = field_text_or(pick_present(&reply.error_message, &reply.message), "No error message");
        let code = field_text_or(&reply.error_code, "Unknown");
        let e = String::from_str("Order failed: ").concat(msg.as_str()).concat(" (Code: ").concat(
            code.as_str(),
        ).concat(")");
        return failure(e, Some(raw), None);
    }
    let found = pick_present(&reply.order_id, pick_present(&reply.id, &reply.data_order_id));
    let id = match found {
        Field::Text(t) => if !t.as_str().is_empty() {
            Some(t.clone())
        } else {
            None
        },
        _ => None,
    };
    match id {
        Some(t) => OrderResponse {
            success: true,
            order_id: Some(t),
            message: Some(String::from_str("Order placed successfully")),
            error: None,
            raw_response: Some(raw),
        },
        None => failure(String::from_str("Order rejected: No order ID returned"), Some(raw), None),
    }
}

/// Relies on `serde_json::Error`'s `Display`: a description of the parse error.
#[verifier::external_body]
fn json_error_text(e: &serde_json::Error) -> (r: String) {
    e.to_string()
}

/// The deciding members of the place reply whose body is `body`.
pub open spec fn reply_of(body: Seq<char>) -> PlaceReply {
    PlaceReply {
        error: member_of(body, "error"@),
        success: member_of(body, "success"@),
        error_code: member_of(body, "errorCode"@),
        error_message: member_of(body, "errorMessage"@),
        message: member_of(body, "message"@),
        order_id: member_of(body, "orderId"@),
        id: member_of(body, "id"@),
        data_order_id: nested_member_of(body, "data"@, "orderId"@),
    }
}

impl PlaceReply {
    /// Reads the deciding members out of a reply body.
    pub fn from_body(body: &str) -> (r: PlaceReply)
        ensures
            r == reply_of(body@),
    {
        PlaceReply {
            error: body_member(body, "error"),
            success: body_member(body, "success"),
            error_code: body_member(body, "errorCode"),
            error_message: body_member(body, "errorMessage"),
            message: body_member(body, "message"),
            order_id: body_member(body, "orderId"),
            id: body_member(body, "id"),
            data_order_id: body_nested_member(body, "data", "orderId"),
        }
    }
}

/// Interprets the body of a place reply. A body that is not JSON is a hard
/// failure; otherwise the result is that of [`interpret_place_reply`].
pub fn interpret_place_body(body: &str) -> (r: Result<OrderResponse, OrderError>)
    ensures
        r is Err <==> !json_parses(body@),
        match r {
            Ok(resp) => (exists|raw: serde_json::Value| place_result(reply_of(body@), raw, resp))
                && (resp.success ==> (resp.order_id is Some && resp.order_id.unwrap()@.len() > 0)),
            Err(e) => e is InvalidResponse,
        },
{
    match parse_json(body) {
        Ok(v) => {
            let reply = PlaceReply::from_body(body);
            let resp = interpret_place_reply(&reply, v);
            assert(place_result(reply_of(body@), v, resp));
            Ok(resp)
        },
        Err(e) => {
            let text = json_error_text(&e);
            Err(OrderError::InvalidResponse(text))
        },
    }
}

/// Interprets a modify or cancel reply by its HTTP status alone: a 2xx status
/// succeeds and keeps the body (as JSON when it parses, else wrapped as
/// `{"message": body}`); any other fails with `"HTTP {status}: {body}"`.
pub fn interpret_status_reply(
    action: OrderAction,
    order_id: String,
    status: u16,
    status_text: &str,
    body: String,
) -> (r: OrderResponse)
    ensures
        r.success == is_success_status(status),
        opt_text(r.order_id) == Some(order_id@),
        opt_text(r.message) == (if is_success_status(status) {
            Some(action_message(action))
        } else {
            None
        }),
        opt_text(r.error) == (if is_success_status(status) {
            None
        } else {
            Some("HTTP "@ + status_text@ + ": "@ + body@)
        }),
        r.raw_response is Some == is_success_status(status),
{
    if 200 <= status && status < 300 {
        let raw = match parse_json(body.as_str()) {
            Ok(v) => v,
            Err(_) => single_member_object(String::from_str("message"), body),
        };
        let message = match action {
            OrderAction::Modify => String::from_str("Order modified successfully"),
            OrderAction::Cancel => String::from_str("Order cancelled successfully"),
        };
        OrderResponse {
            success: true,
            order_id: Some(order_id),
            message: Some(message),
            error: None,
            raw_response: Some(raw),
        }
    } else {
        let e = String::from_str("HTTP ").concat(status_text).concat(": ").concat(body.as_str());
        failure(e, None, Some(order_id))
    }
}

} // verus!
