//! The order executor: session state plus the validation and assembly of
//! place, modify and cancel requests. Sending them is up to the caller.

use vstd::prelude::*;
use vstd::string::*;
use crate::order::{
    Bracket, CancelPayload, ModifyPayload, OrderError, OrderPayload, OrderSide, OrderType, Price,
    STOP_LOSS_KIND, TAKE_PROFIT_KIND, bracket_of, is_side_word, order_type_of, side_of, text_is,
    buy_word, sell_word,
};
use crate::response::{OrderResponse, opt_text};
use crate::session::{SessionState, cached_id};
use crate::text::{strip_trailing_slashes, trim_trailing_slashes, upper_of, uppercase};

verus! {

/// What a caller asks to place.
#[derive(Clone, Debug)]
pub struct OrderRequest {
    pub symbol: String,
    /// "BUY" or "SELL", in any case.
    pub side: String,
    pub quantity: u32,
    pub account_id: u64,
    /// "limit" (in any case) for a limit order; anything else, or nothing,
    /// for a market order.
    pub order_type: Option<String>,
    pub limit_price: Option<Price>,
    pub stop_loss_ticks: Option<i32>,
    pub take_profit_ticks: Option<i32>,
    pub custom_tag: Option<String>,
}

/// A place request ready to be sent.
#[derive(Clone, Debug)]
pub struct PlaceRequest {
    pub url: String,
    pub token: String,
    pub payload: OrderPayload,
}

/// A modify request ready to be sent.
#[derive(Clone, Debug)]
pub struct ModifyRequest {
    pub url: String,
    pub token: String,
    pub payload: ModifyPayload,
}

/// A cancel request ready to be sent.
#[derive(Clone, Debug)]
pub struct CancelRequest {
    pub url: String,
    pub token: String,
    pub payload: CancelPayload,
}

/// The outcome of validating a place request.
#[derive(Clone, Debug)]
pub enum PlaceStep {
    /// Refused without contacting the venue.
    Rejected(OrderResponse),
    /// To be sent.
    Send(PlaceRequest),
}

pub open spec fn requested_type(o: Option<String>) -> OrderType {
    match o {
        Some(s) => order_type_of(s@),
        None => OrderType::Market,
    }
}

/// The payload that `req` yields once its symbol resolved to `contract_id`.
pub open spec fn payload_for(req: OrderRequest, contract_id: i64, p: OrderPayload) -> bool {
    &&& p.account_id == req.account_id
    &&& p.contract_id == contract_id
    &&& p.order_type == requested_type(req.order_type).spec_code()
    &&& p.side == side_of(req.side@).spec_code()
    &&& p.size == req.quantity
    &&& p.limit_price == req.limit_price
    &&& opt_text(p.custom_tag) == opt_text(req.custom_tag)
    &&& p.stop_loss_bracket == bracket_of(req.stop_loss_ticks, STOP_LOSS_KIND, req.quantity)
    &&& p.take_profit_bracket == bracket_of(req.take_profit_ticks, TAKE_PROFIT_KIND, req.quantity)
}

pub open spec fn side_error() -> Seq<char> {
    "Side must be 'BUY' or 'SELL'"@
}

pub struct OrderExecutor {
    base_url: String,
    session: SessionState,
}

fn make_bracket(ticks: Option<i32>, kind: u8, size: u32) -> (r: Option<Bracket>)
    ensures
        r == bracket_of(ticks, kind, size),
{
    match ticks {
        Some(t) => Some(Bracket { ticks: t, kind, size, reduce_only: true }),
        None => None,
    }
}

fn copy_text(o: &Option<String>) -> (r: Option<String>)
    ensures
        opt_text(r) == opt_text(*o),
{
    match o {
        Some(s) => Some(s.clone()),
        None => None,
    }
}

impl OrderExecutor {
    pub closed spec fn base_url_view(&self) -> Seq<char> {
        self.base_url@
    }

    pub closed spec fn session_view(&self) -> SessionState {
        self.session
    }

    pub open spec fn token_view(&self) -> Option<Seq<char>> {
        self.session_view().token_view()
    }

    pub open spec fn contracts_view(&self) -> Map<Seq<char>, i64> {
        self.session_view().contracts_view()
    }

    pub open spec fn wf(&self) -> bool {
        self.session_view().wf()
    }

    /// An executor for the venue at `base_url` (trailing slashes dropped),
    /// with no credential and an empty contract cache.
    pub fn new(base_url: String) -> (r: OrderExecutor)
        ensures
            r.wf(),
            r.base_url_view() == strip_trailing_slashes(base_url@),
            r.token_view() is None,
            r.contracts_view() == Map::<Seq<char>, i64>::empty(),
    {
        OrderExecutor {
            base_url: trim_trailing_slashes(base_url.as_str()),
            session: SessionState::new(),
        }
    }

    pub fn get_base_url(&self) -> (r: &str)
        ensures
            r@ == self.base_url_view(),
    {
        self.base_url.as_str()
    }

    /// Replaces the session credential; later operations see the new value.
    pub fn set_token(&mut self, token: String)
        requires
            old(self).wf(),
        ensures
            final(self).wf(),
            final(self).token_view() == Some(token@),
            final(self).contracts_view() == old(self).contracts_view(),
            final(self).base_url_view() == old(self).base_url_view(),
    {
        self.session.set_token(token);
    }

    pub fn get_token(&self) -> (r: Option<String>)
        ensures
            opt_text(r) == self.token_view(),
    {
        self.session.get_token()
    }

    /// Caches `contract_id` under the upper-cased `symbol`.
    pub fn set_contract_id(&mut self, symbol: String, contract_id: i64)
        requires
            old(self).wf(),
        ensures
            final(self).wf(),
            final(self).contracts_view() == old(self).contracts_view().insert(
                upper_of(symbol@),
                contract_id,
            ),
            final(self).token_view() == old(self).token_view(),
            final(self).base_url_view() == old(self).base_url_view(),
    {
        self.session.set_contract_id(symbol.as_str(), contract_id);
    }

    /// The contract id cached under the upper-cased `symbol`.
    pub fn get_contract_id(&self, symbol: String) -> (r: Option<i64>)
        ensures
            r == cached_id(self.contracts_view(), symbol@),
    {
        self.session.get_contract_id(symbol.as_str())
    }

    fn endpoint(&self, path: &str) -> (r: String)
        ensures
            r@ == self.base_url_view() + path@,
    {
        self.base_url.clone().concat(path)
    }

    /// Validates a place request, in this order: the side must be "BUY" or
    /// "SELL" (else a soft failure, returned as `Rejected`); a credential must
    /// be set (else `AuthRequired`); a contract id must be cached for the
    /// symbol (else `ContractNotFound`). A valid request becomes the payload
    /// for `{base}/api/Order/place`.
    pub fn prepare_place(&self, req: &OrderRequest) -> (r: Result<PlaceStep, OrderError>)
        ensures
            !is_side_word(req.side@) ==> match r {
                Ok(PlaceStep::Rejected(resp)) => !resp.success && opt_text(resp.error) == Some(
                    side_error(),
                ) && resp.order_id is None && resp.message is None && resp.raw_response is None,
                _ => false,
            },
            is_side_word(req.side@) && self.token_view() is None ==> r == Err::<
                PlaceStep,
                OrderError,
            >(OrderError::AuthRequired),
            is_side_word(req.side@) && self.token_view() is Some && cached_id(
                self.contracts_view(),
                req.symbol@,
            ) is None ==> match r {
                Err(OrderError::ContractNotFound(s)) => s@ == req.symbol@,
                _ => false,
            },
            is_side_word(req.side@) && self.token_view() is Some && cached_id(
                self.contracts_view(),
                req.symbol@,
            ) is Some ==> match r {
                Ok(PlaceStep::Send(p)) => p.url@ == self.base_url_view() + "/api/Order/place"@
                    && Some(p.token@) == self.token_view() && payload_for(
                    *req,
                    cached_id(self.contracts_view(), req.symbol@).unwrap(),
                    p.payload,
                ),
                _ => false,
            },
    {
        let side_up = uppercase(req.side.as_str());
        proof {
            reveal_strlit("BUY");
            reveal_strlit("SELL");
            assert("BUY"@ =~= buy_word());
            assert("SELL"@ =~= sell_word());
        }
        if !text_is(&side_up, "BUY") && !text_is(&side_up, "SELL") {
            return Ok(
                PlaceStep::Rejected(
                    OrderResponse {
                        success: false,
                        order_id: None,
                        message: None,
                        error: Some(String::from_str("Side must be 'BUY' or 'SELL'")),
                        raw_response: None,
                    },
                ),
            );
        }
        let token = match self.session.get_token() {
            Some(t) => t,
            None => {
                return Err(OrderError::AuthRequired);
            },
        };
        let contract_id = match self.session.get_contract_id(req.symbol.as_str()) {
            Some(id) => id,
            None => {
                return Err(OrderError::ContractNotFound(req.symbol.clone()));
            },
        };
        let side = OrderSide::from_text(req.side.as_str());
        let order_type = match &req.order_type {
            Some(t) => OrderType::from_text(t.as_str()),
            None => OrderType::Market,
        };
        let payload = OrderPayload {
            account_id: req.account_id,
            contract_id,
            order_type: order_type.code(),
            side: side.code(),
            size: req.quantity,
            limit_price: req.limit_price,
            custom_tag: copy_text(&req.custom_tag),
            stop_loss_bracket: make_bracket(req.stop_loss_ticks, STOP_LOSS_KIND, req.quantity),
            take_profit_bracket: make_bracket(req.take_profit_ticks, TAKE_PROFIT_KIND, req.quantity),
        };
        Ok(PlaceStep::Send(PlaceRequest { url: self.endpoint("/api/Order/place"), token, payload }))
    }

    /// Assembles a modify request for `{base}/api/Order/modify`; fails with
    /// `AuthRequired` when no credential is set.
    pub fn prepare_modify(&self, order_id: String, price: Option<Price>, quantity: Option<u32>) -> (r:
        Result<ModifyRequest, OrderError>)
        ensures
            self.token_view() is None ==> r == Err::<ModifyRequest, OrderError>(
                OrderError::AuthRequired,
            ),
            self.token_view() is Some ==> match r {
                Ok(m) => m.url@ == self.base_url_view() + "/api/Order/modify"@ && Some(m.token@)
                    == self.token_view() && m.payload.order_id@ == order_id@ && m.payload.price
                    == price && m.payload.quantity == quantity,
                _ => false,
            },
    {
        let token = match self.session.get_token() {
            Some(t) => t,
            None => {
                return Err(OrderError::AuthRequired);
            },
        };
        Ok(
            ModifyRequest {
                url: self.endpoint("/api/Order/modify"),
                token,
                payload: ModifyPayload { order_id, price, quantity },
            },
        )
    }

    /// Assembles a cancel request for `{base}/api/Order/cancel`; fails with
    /// `AuthRequired` when no credential is set.
    pub fn prepare_cancel(&self, order_id: String) -> (r: Result<CancelRequest, OrderError>)
        ensures
            self.token_view() is None ==> r == Err::<CancelRequest, OrderError>(
                OrderError::AuthRequired,
            ),
            self.token_view() is Some ==> match r {
                Ok(c) => c.url@ == self.base_url_view() + "/api/Order/cancel"@ && Some(c.token@)
                    == self.token_view() && c.payload.order_id@ == order_id@,
                _ => false,
            },
    {
        let token = match self.session.get_token() {
            Some(t) => t,
            None => {
                return Err(OrderError::AuthRequired);
            },
        };
        Ok(
            CancelRequest {
                url: self.endpoint("/api/Order/cancel"),
                token,
                payload: CancelPayload { order_id },
            },
        )
    }
}

} // verus!
