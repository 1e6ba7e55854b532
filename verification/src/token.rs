//! Making a mining key from an account token: what each answer of the
//! pool's API means, and when to ask again.
//!
//! A request is a POST to the API's address for mining keys, with the
//! account token as its bearer and a body that names the device and asks
//! for a key that does not expire. An answer of success carries the key.
//!
//! Only an answer that says "too many requests" is worth another try. The
//! pause before it doubles from one second and stops growing at ten, and
//! after five retries the request fails for good.

use crate::supervisor::pow2;
use crate::text::joined;
use vstd::prelude::*;

verus! {

/// The number of retries after which a rate-limited request fails.
pub const MAX_RETRIES: u32 = 5;

/// The longest pause before a retry, in seconds.
pub const MAX_DELAY_SECONDS: u64 = 10;

/// Why no mining key was made.
#[derive(Debug, Clone, Copy, PartialEq, Eq, Structural)]
pub enum TokenFault {
    /// 401: the account token is invalid or has expired.
    InvalidAccountToken,
    /// 403: the account token may not create mining keys.
    Forbidden,
    /// 404: the API does not offer the creation of mining keys.
    EndpointNotFound,
    /// 429 once too often.
    RateLimited,
    /// Any other status.
    Rejected,
}

/// What to do after an answer that is not a success.
#[derive(Debug, Clone, Copy, PartialEq, Eq, Structural)]
pub enum TokenStep {
    /// Sleep for this many seconds, then ask again.
    RetryAfter(u64),
    /// Give up.
    Fail(TokenFault),
}

/// The pause before retry number `retries`, counted from 0, in seconds:
/// 1, 2, 4, 8, and 10 from then on.
pub open spec fn retry_delay(retries: nat) -> nat {
    if pow2(retries) < MAX_DELAY_SECONDS {
        pow2(retries)
    } else {
        MAX_DELAY_SECONDS as nat
    }
}

/// What an answer with this status means after `retries` retries.
pub open spec fn step_on_status(status: u16, retries: u32) -> TokenStep {
    if status == 401 {
        TokenStep::Fail(TokenFault::InvalidAccountToken)
    } else if status == 403 {
        TokenStep::Fail(TokenFault::Forbidden)
    } else if status == 404 {
        TokenStep::Fail(TokenFault::EndpointNotFound)
    } else if status == 429 {
        if retries >= MAX_RETRIES {
            TokenStep::Fail(TokenFault::RateLimited)
        } else {
            TokenStep::RetryAfter(retry_delay(retries as nat) as u64)
        }
    } else {
        TokenStep::Fail(TokenFault::Rejected)
    }
}

/// The pause before retry number `retries`, in seconds.
pub fn delay_seconds(retries: u32) -> (seconds: u64)
    ensures
        seconds == retry_delay(retries as nat),
        1 <= seconds <= MAX_DELAY_SECONDS,
{
    proof {
        reveal_with_fuel(pow2, 5);
        if retries >= 4 {
            lemma_pow2_monotone(4, retries as nat);
        }
    }
    if retries == 0 {
        1
    } else if retries == 1 {
        2
    } else if retries == 2 {
        4
    } else if retries == 3 {
        8
    } else {
        MAX_DELAY_SECONDS
    }
}

proof fn lemma_pow2_monotone(a: nat, b: nat)
    requires
        a <= b,
    ensures
        pow2(a) <= pow2(b),
    decreases b,
{
    if a < b {
        lemma_pow2_monotone(a, (b - 1) as nat);
    }
}

/// The state of one request for a mining key: how often it has been
/// retried.
pub struct TokenRequest {
    retries: u32,
}

impl TokenRequest {
    /// How often the request has been retried.
    pub closed spec fn retries(&self) -> u32 {
        self.retries
    }

    /// A request that has not been sent yet.
    pub fn new() -> (r: Self)
        ensures
            r.retries() == 0,
    {
        TokenRequest { retries: 0 }
    }

    /// Takes the status of an answer that is not a success and says what
    /// to do. A retry is counted; nothing else changes the request.
    pub fn on_status(&mut self, status: u16) -> (step: TokenStep)
        ensures
            step == step_on_status(status, old(self).retries()),
            step is RetryAfter ==> final(self).retries() == old(self).retries() + 1,
            step is Fail ==> final(self).retries() == old(self).retries(),
    {
        if status == 401 {
            TokenStep::Fail(TokenFault::InvalidAccountToken)
        } else if status == 403 {
            TokenStep::Fail(TokenFault::Forbidden)
        } else if status == 404 {
            TokenStep::Fail(TokenFault::EndpointNotFound)
        } else if status == 429 {
            if self.retries >= MAX_RETRIES {
                TokenStep::Fail(TokenFault::RateLimited)
            } else {
                let seconds = delay_seconds(self.retries);
                self.retries = self.retries + 1;
                TokenStep::RetryAfter(seconds)
            }
        } else {
            TokenStep::Fail(TokenFault::Rejected)
        }
    }
}

/// A request is retried at most five times, and waits no longer than ten
/// seconds before any of them.
pub proof fn theorem_retries_are_bounded(status: u16, retries: u32)
    ensures
        step_on_status(status, retries) is RetryAfter ==> status == 429 && retries < MAX_RETRIES
            && 1 <= step_on_status(status, retries)->RetryAfter_0 <= MAX_DELAY_SECONDS,
        retries >= MAX_RETRIES ==> step_on_status(status, retries) is Fail,
{
    reveal_with_fuel(pow2, 6);
}

/// The name of the header that carries the account token.
pub const AUTHORIZATION_HEADER: &'static str = "Authorization";

/// The name of the header that says what the body is.
pub const CONTENT_TYPE_HEADER: &'static str = "Content-Type";

/// What the body of a request is: JSON.
pub const CONTENT_TYPE_JSON: &'static str = "application/json";

/// The address that a request goes to: the base address of the API and
/// the path of its mining keys.
pub open spec fn endpoint_of(api_base_url: Seq<char>) -> Seq<char> {
    api_base_url + "/api/v1/mining-tokens"@
}

/// The value of the authorization header: the account token as a bearer.
pub open spec fn bearer_of(account_token: Seq<char>) -> Seq<char> {
    "Bearer "@ + account_token
}

/// The address that a request goes to.
pub fn token_endpoint(api_base_url: &str) -> (url: String)
    ensures
        url@ == endpoint_of(api_base_url@),
{
    joined(api_base_url, "/api/v1/mining-tokens")
}

/// The value of the authorization header of a request.
pub fn bearer_header(account_token: &str) -> (value: String)
    ensures
        value@ == bearer_of(account_token@),
{
    joined("Bearer ", account_token)
}

/// The body of a request.
#[derive(Debug)]
pub struct CreateMiningTokenRequest {
    /// The name under which the new key is registered.
    pub device_nickname: Option<String>,
    /// The number of days after which the key expires; none for a key
    /// that does not.
    pub expires_days: Option<u32>,
}

/// An answer of the API.
pub enum TokenAnswer {
    /// A status of success, with the mining key that the body carries.
    Created(String),
    /// Any other status.
    Refused(u16),
}

/// The mathematical value of a `TokenAnswer`.
pub enum TokenAnswerView {
    Created(Seq<char>),
    Refused(u16),
}

impl View for TokenAnswer {
    type V = TokenAnswerView;

    open spec fn view(&self) -> TokenAnswerView {
        match *self {
            TokenAnswer::Created(k) => TokenAnswerView::Created(k@),
            TokenAnswer::Refused(status) => TokenAnswerView::Refused(status),
        }
    }
}

/// What to do after an answer.
pub enum TokenNext {
    /// The request is done: this is the new mining key.
    Done(String),
    /// Sleep for this many seconds, then send the request again.
    RetryAfter(u64),
    /// Give up.
    Fail(TokenFault),
}

/// The mathematical value of a `TokenNext`.
pub enum TokenNextView {
    Done(Seq<char>),
    RetryAfter(u64),
    Fail(TokenFault),
}

impl View for TokenNext {
    type V = TokenNextView;

    open spec fn view(&self) -> TokenNextView {
        match *self {
            TokenNext::Done(k) => TokenNextView::Done(k@),
            TokenNext::RetryAfter(seconds) => TokenNextView::RetryAfter(seconds),
            TokenNext::Fail(fault) => TokenNextView::Fail(fault),
        }
    }
}

/// The number of retries after an answer, and what to do: a key that was
/// created ends the request with that key; any other answer is judged by
/// its status.
pub open spec fn token_next(retries: u32, answer: TokenAnswerView) -> (u32, TokenNextView) {
    match answer {
        TokenAnswerView::Created(key) => (retries, TokenNextView::Done(key)),
        TokenAnswerView::Refused(status) => match step_on_status(status, retries) {
            TokenStep::RetryAfter(seconds) => (
                (retries + 1) as u32,
                TokenNextView::RetryAfter(seconds),
            ),
            TokenStep::Fail(fault) => (retries, TokenNextView::Fail(fault)),
        },
    }
}

/// What follows `limited` answers of "too many requests" in a row and then
/// the answer `last`, for a request that has been retried `retries` times
/// before.
pub open spec fn step_after_rate_limits(retries: u32, limited: nat, last: TokenAnswerView)
    -> TokenNextView
    decreases limited,
{
    if limited == 0 {
        token_next(retries, last).1
    } else {
        step_after_rate_limits(
            token_next(retries, TokenAnswerView::Refused(429)).0,
            (limited - 1) as nat,
            last,
        )
    }
}

impl TokenRequest {
    /// The body of the request: the device's name, and no expiry.
    pub fn body(device_nickname: Option<String>) -> (b: CreateMiningTokenRequest)
        ensures
            b.device_nickname == device_nickname,
            b.expires_days is None,
    {
        CreateMiningTokenRequest { device_nickname, expires_days: None }
    }

    /// Takes an answer of the API and says what to do, as `token_next`
    /// says.
    pub fn on_answer(&mut self, answer: TokenAnswer) -> (next: TokenNext)
        ensures
            (final(self).retries(), next@) == token_next(old(self).retries(), answer@),
    {
        match answer {
            TokenAnswer::Created(key) => TokenNext::Done(key),
            TokenAnswer::Refused(status) => match self.on_status(status) {
                TokenStep::RetryAfter(seconds) => TokenNext::RetryAfter(seconds),
                TokenStep::Fail(fault) => TokenNext::Fail(fault),
            },
        }
    }
}

/// A request that is told "too many requests" up to five times and then
/// succeeds ends with the key of the successful answer. Each of those
/// answers cost one send, so the key comes after one send more than there
/// were refusals.
pub proof fn theorem_created_after_rate_limits(retries: u32, limited: nat, key: Seq<char>)
    requires
        retries + limited <= MAX_RETRIES,
    ensures
        step_after_rate_limits(retries, limited, TokenAnswerView::Created(key))
            == TokenNextView::Done(key),
    decreases limited,
{
    if limited > 0 {
        theorem_created_after_rate_limits((retries + 1) as u32, (limited - 1) as nat, key);
    }
}

/// The sixth "too many requests" in a row ends the request for good.
pub proof fn theorem_sixth_rate_limit_fails()
    ensures
        step_after_rate_limits(0, 5, TokenAnswerView::Refused(429)) == TokenNextView::Fail(
            TokenFault::RateLimited,
        ),
{
    reveal_with_fuel(step_after_rate_limits, 6);
}

} // verus!
