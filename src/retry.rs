//! Retry decisions for place operations: a reply whose error mentions
//! "HTTP 500" is retried, up to three times, with exponential backoff.

use vstd::prelude::*;
use crate::response::OrderResponse;
use crate::text::{contains_text, occurs_in};

verus! {

/// How many times a place operation is re-issued at most.
pub const MAX_RETRIES: u32 = 3;

/// The wait before the first retry, in milliseconds.
pub const BASE_DELAY_MS: u64 = 750;

/// What to do after an attempt.
#[derive(Clone, Copy, Debug, PartialEq, Eq, Structural)]
pub enum RetryStep {
    /// Wait this many milliseconds, then issue the operation again.
    Wait { delay_ms: u64 },
    /// Hand the last result to the caller.
    Finish,
}

pub open spec fn pow2(n: nat) -> nat
    decreases n,
{
    if n == 0 {
        1
    } else {
        2 * pow2((n - 1) as nat)
    }
}

/// The wait before retry number `done + 1`.
pub open spec fn backoff_ms(done: nat) -> nat {
    BASE_DELAY_MS as nat * pow2(done)
}

pub open spec fn transient_marker() -> Seq<char> {
    "HTTP 500"@
}

/// A result is worth retrying when it carries an error mentioning "HTTP 500".
pub open spec fn is_transient(resp: OrderResponse) -> bool {
    match resp.error {
        Some(e) => occurs_in(transient_marker(), e@),
        None => false,
    }
}

/// The retry bookkeeping of one place operation.
pub struct RetryState {
    pub retries: u32,
}

impl RetryState {
    pub fn new() -> (r: RetryState)
        ensures
            r.retries == 0,
    {
        RetryState { retries: 0 }
    }

    /// Decides what follows an attempt that returned `resp`: a wait and a new
    /// attempt while the result is transient and retries remain, else the end.
    pub fn on_result(&mut self, resp: &OrderResponse) -> (r: RetryStep)
        requires
            old(self).retries <= MAX_RETRIES,
        ensures
            final(self).retries <= MAX_RETRIES,
            is_transient(*resp) && old(self).retries < MAX_RETRIES ==> r == (RetryStep::Wait {
                delay_ms: backoff_ms(old(self).retries as nat) as u64,
            }) && final(self).retries == old(self).retries + 1,
            !(is_transient(*resp) && old(self).retries < MAX_RETRIES) ==> r == RetryStep::Finish
                && final(self).retries == old(self).retries,
    {
        let transient = match &resp.error {
            Some(e) => contains_text(e.as_str(), "HTTP 500"),
            None => false,
        };
        if transient && self.retries < MAX_RETRIES {
            let mut delay: u64 = BASE_DELAY_MS;
            let mut i: u32 = 0;
            while i < self.retries
                invariant
                    i <= self.retries,
                    self.retries < MAX_RETRIES,
                    delay == backoff_ms(i as nat),
                decreases self.retries - i,
            {
                proof {
                    assert(pow2((i + 1) as nat) == 2 * pow2(i as nat));
                    assert(pow2(i as nat) <= 4) by {
                        reveal_with_fuel(pow2, 3);
                    }
                }
                delay = delay * 2;
                i = i + 1;
            }
            self.retries = self.retries + 1;
            RetryStep::Wait { delay_ms: delay }
        } else {
            RetryStep::Finish
        }
    }
}

} // verus!
