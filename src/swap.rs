//! Swap routing: which router method a token pair takes, the amounts it is
//! called with, and the order of the chain calls that carry a swap out.
use vstd::prelude::*;
use crate::amount::{amount_in_of, parse_amount};
use vstd::utf8::is_ascii_chars;
use crate::encoding::{ascii_lower, lower_of, lowercase};

verus! {

/// The contracts that the gateway knows by name.
#[derive(Debug, Clone, Copy, PartialEq, Eq, Structural)]
pub enum ContractABI {
    USDC,
    LINK,
    ETH,
    WETH,
    ROUTER02,
    NONE,
}

/// The router method that performs a swap.
#[derive(Debug, Clone, Copy, PartialEq, Eq, Structural)]
pub enum SwapMethod {
    SwapExactTokensForETH,
    SwapExactETHForTokens,
    SwapExactTokensForTokens,
}

/// Why a swap did not go through.
#[derive(Debug, Clone, Copy, PartialEq, Eq, Structural)]
pub enum SwapError {
    /// The pair cannot be routed.
    UnsupportedPair,
    /// The amount cannot be converted to base units of the input token.
    InvalidAmount,
    /// The decimals or the expected output could not be read.
    QuoteUnavailable,
    /// The allowance approval failed.
    ApprovalFailed,
    /// The swap transaction could not be submitted.
    SwapSubmissionFailed,
}

/// The contract that a (lower-case) token name stands for.
pub open spec fn contract_of_name(name: Seq<char>) -> ContractABI {
    if name == "usdc"@ {
        ContractABI::USDC
    } else if name == "link"@ {
        ContractABI::LINK
    } else if name == "eth"@ {
        ContractABI::ETH
    } else if name == "weth"@ {
        ContractABI::WETH
    } else if name == "router02"@ {
        ContractABI::ROUTER02
    } else {
        ContractABI::NONE
    }
}

/// The lower-case form of a token name, as `str::to_lowercase` gives it;
/// ASCII names are lowered letter by letter.
pub open spec fn token_key(name: Seq<char>) -> Seq<char> {
    if is_ascii_chars(name) {
        name.map_values(|c: char| ascii_lower(c))
    } else {
        lower_of(name)
    }
}

/// The token that routes in place of a given one: the native asset is routed
/// as its wrapped form.
pub open spec fn routing_token(c: ContractABI) -> ContractABI {
    if c == ContractABI::ETH {
        ContractABI::WETH
    } else {
        c
    }
}

/// Whether a token can stand on either side of a routed pair.
pub open spec fn is_tradable(c: ContractABI) -> bool {
    c == ContractABI::USDC || c == ContractABI::LINK || c == ContractABI::WETH
}

/// The router method for a pair, or `None` where the pair is not supported.
pub open spec fn swap_method_of(from: ContractABI, to: ContractABI) -> Option<SwapMethod> {
    let f = routing_token(from);
    let t = routing_token(to);
    if !is_tradable(f) || !is_tradable(t) {
        None
    } else if f == ContractABI::WETH && t == ContractABI::WETH {
        None
    } else if f == ContractABI::WETH {
        Some(SwapMethod::SwapExactETHForTokens)
    } else if t == ContractABI::WETH {
        Some(SwapMethod::SwapExactTokensForETH)
    } else {
        Some(SwapMethod::SwapExactTokensForTokens)
    }
}

/// The name of a router method in the router's interface.
pub open spec fn method_name(m: SwapMethod) -> Seq<char> {
    match m {
        SwapMethod::SwapExactETHForTokens => "swapExactETHForTokens"@,
        SwapMethod::SwapExactTokensForETH => "swapExactTokensForETH"@,
        SwapMethod::SwapExactTokensForTokens => "swapExactTokensForTokens"@,
    }
}

/// The least output accepted for an expected output under a slippage
/// tolerance given in percent.
pub open spec fn min_out_of(expected: u128, slippage_percent: u8) -> int {
    expected * (100 - slippage_percent) / 100
}

impl ContractABI {
    /// The contract that a token name stands for, whatever its case.
    pub fn map_token_contract(chain: &str) -> (r: ContractABI)
        ensures
            r == contract_of_name(token_key(chain@)),
    {
        let name = lowercase(chain);
        ContractABI::from_lowercase_name(name.as_str())
    }

    /// The contract that a lower-case token name stands for.
    pub fn from_lowercase_name(name: &str) -> (r: ContractABI)
        ensures
            r == contract_of_name(name@),
    {
        let name = String::from_str(name);
        if name == String::from_str("usdc") {
            ContractABI::USDC
        } else if name == String::from_str("link") {
            ContractABI::LINK
        } else if name == String::from_str("eth") {
            ContractABI::ETH
        } else if name == String::from_str("weth") {
            ContractABI::WETH
        } else if name == String::from_str("router02") {
            ContractABI::ROUTER02
        } else {
            ContractABI::NONE
        }
    }
}

/// The token that routes in place of `c`.
pub fn routing_contract(c: ContractABI) -> (r: ContractABI)
    ensures
        r == routing_token(c),
{
    if c == ContractABI::ETH {
        ContractABI::WETH
    } else {
        c
    }
}

impl SwapMethod {
    /// Selects the router method for a pair: wrapped native in gives
    /// `SwapExactETHForTokens`, wrapped native out gives
    /// `SwapExactTokensForETH`, token to token gives `SwapExactTokensForTokens`.
    /// The native asset counts as its wrapped form; a self-pair of the wrapped
    /// native asset, and any token that cannot be traded, are refused.
    pub fn map_swap_method(from: ContractABI, to: ContractABI) -> (r: Result<SwapMethod, SwapError>)
        ensures
            match swap_method_of(from, to) {
                Some(m) => r == Ok::<SwapMethod, SwapError>(m),
                None => r == Err::<SwapMethod, SwapError>(SwapError::UnsupportedPair),
            },
    {
        let f = routing_contract(from);
        let t = routing_contract(to);
        let tradable_f = f == ContractABI::USDC || f == ContractABI::LINK || f == ContractABI::WETH;
        let tradable_t = t == ContractABI::USDC || t == ContractABI::LINK || t == ContractABI::WETH;
        if !tradable_f || !tradable_t {
            Err(SwapError::UnsupportedPair)
        } else if f == ContractABI::WETH && t == ContractABI::WETH {
            Err(SwapError::UnsupportedPair)
        } else if f == ContractABI::WETH {
            Ok(SwapMethod::SwapExactETHForTokens)
        } else if t == ContractABI::WETH {
            Ok(SwapMethod::SwapExactTokensForETH)
        } else {
            Ok(SwapMethod::SwapExactTokensForTokens)
        }
    }

    /// The method's name in the router's interface.
    pub fn to_string(&self) -> (r: String)
        ensures
            r@ == method_name(*self),
    {
        match self {
            SwapMethod::SwapExactETHForTokens => String::from_str("swapExactETHForTokens"),
            SwapMethod::SwapExactTokensForETH => String::from_str("swapExactTokensForETH"),
            SwapMethod::SwapExactTokensForTokens => String::from_str("swapExactTokensForTokens"),
        }
    }
}

/// The least output accepted: `expected * (100 - slippage_percent) / 100`,
/// rounded down, computed without overflow.
pub fn min_amount_out(expected: u128, slippage_percent: u8) -> (r: u128)
    requires
        slippage_percent <= 100,
    ensures
        r == min_out_of(expected, slippage_percent),
{
    let keep: u128 = 100 - slippage_percent as u128;
    let q: u128 = expected / 100;
    let rem: u128 = expected % 100;
    proof {
        assert(q * keep <= q * 100) by (nonlinear_arith)
            requires keep <= 100;
        assert(q * 100 <= expected) by (nonlinear_arith)
            requires q == expected / 100;
        assert(rem * keep < 10000) by (nonlinear_arith)
            requires rem < 100, keep <= 100;
        assert((expected * keep) / 100 == q * keep + (rem * keep) / 100) by (nonlinear_arith)
            requires q == expected / 100, rem == expected % 100, keep <= 100;
        assert(q * keep + (rem * keep) / 100 <= expected) by (nonlinear_arith)
            requires q == expected / 100, rem == expected % 100, keep <= 100;
    }
    q * keep + rem * keep / 100
}

/// The slippage tolerance, in percent, that a swap accepts unless told otherwise.
pub const SLIPPAGE_PERCENT: u8 = 5;

/// How long after it is sent a swap stays valid, in seconds.
pub const DEADLINE_OFFSET_SECS: u64 = 300;

/// The absolute deadline, in seconds since the Unix epoch as the router
/// compares it, for a swap sent at `now_millis` milliseconds since the epoch.
pub fn get_valid_timestamp(now_millis: u64, future_secs: u64) -> (r: u128)
    ensures
        r == now_millis / 1000 + future_secs,
{
    (now_millis / 1000) as u128 + future_secs as u128
}

/// Where a swap stands.
#[derive(Debug, Clone, Copy, PartialEq, Eq, Structural)]
pub enum SwapStep {
    AwaitDecimals,
    AwaitQuote,
    AwaitApproval,
    AwaitClock,
    AwaitSubmission,
    Done,
    Failed,
}

/// The outcome of the chain call that a swap waits for.
#[derive(Debug, Clone, PartialEq, Eq)]
pub enum SwapEvent {
    /// The input token's decimals.
    Decimals(u8),
    /// The router's expected amounts along the path.
    AmountsOut(Vec<u128>),
    /// The approval transaction was mined.
    ApprovalMined,
    /// The current time, in milliseconds since the Unix epoch.
    Clock(u64),
    /// The swap transaction was accepted, under this hash.
    Submitted(String),
    /// The call failed.
    CallFailed,
}

/// The router call that performs a swap.
#[derive(Debug, Clone, Copy, PartialEq, Eq, Structural)]
pub struct SwapCall {
    pub method: SwapMethod,
    pub amount_in: u128,
    pub amount_out_min: u128,
    pub from: ContractABI,
    pub to: ContractABI,
    pub deadline: u128,
    /// Native value attached to the call: the input amount for native-in
    /// swaps, nothing for token-in swaps.
    pub value: u128,
}

/// What the caller does next for a swap.
#[derive(Debug, Clone, PartialEq, Eq)]
pub enum SwapAction {
    /// Read the decimals of this token.
    ReadDecimals { token: ContractABI },
    /// Ask the router for the expected output of `amount_in` along `[from, to]`.
    QuoteAmountsOut { amount_in: u128, from: ContractABI, to: ContractABI },
    /// Approve the router to spend `amount` of `token`, and wait until it is mined.
    Approve { token: ContractABI, amount: u128 },
    /// Read the current time.
    ReadClock,
    /// Send this router call, without waiting for it to be mined.
    Send(SwapCall),
    /// The swap was accepted for inclusion under this hash.
    Finish { tx_hash: String },
    /// The swap stopped with this error; nothing sent before is undone.
    Fail(SwapError),
}

/// One swap, from a token pair and an amount to a submitted router call.
#[derive(Debug, Clone)]
pub struct SwapSession {
    pub from: ContractABI,
    pub to: ContractABI,
    pub method: SwapMethod,
    pub amount: String,
    pub slippage_percent: u8,
    pub amount_in: u128,
    pub amount_out_min: u128,
    pub stage: SwapStep,
}

/// Whether a swap at the given step takes the given event.
pub open spec fn awaits(step: SwapStep, event: SwapEvent) -> bool {
    match step {
        SwapStep::AwaitDecimals => event is Decimals || event is CallFailed,
        SwapStep::AwaitQuote => event is AmountsOut || event is CallFailed,
        SwapStep::AwaitApproval => event is ApprovalMined || event is CallFailed,
        SwapStep::AwaitClock => event is Clock,
        SwapStep::AwaitSubmission => event is Submitted || event is CallFailed,
        _ => false,
    }
}

impl SwapSession {
    pub open spec fn wf(&self) -> bool {
        self.slippage_percent <= 100
    }

    /// The parts of a swap that no event changes.
    pub open spec fn same_plan(&self, other: &SwapSession) -> bool {
        &&& self.from == other.from
        &&& self.to == other.to
        &&& self.method == other.method
        &&& self.amount@ == other.amount@
        &&& self.slippage_percent == other.slippage_percent
    }

    /// Starts a swap of `amount` of `from_token` into `to_token`. Both names are
    /// classified; the native asset routes as its wrapped form. An unsupported
    /// pair fails at once; otherwise the first call reads the input token's
    /// decimals.
    pub fn begin(from_token: &str, to_token: &str, amount: &str, slippage_percent: u8) -> (r: (
        SwapSession,
        SwapAction,
    ))
        requires
            slippage_percent <= 100,
        ensures
            r.0.wf(),
            r.0.from == routing_token(contract_of_name(token_key(from_token@))),
            r.0.to == routing_token(contract_of_name(token_key(to_token@))),
            r.0.amount@ == amount@,
            r.0.slippage_percent == slippage_percent,
            match swap_method_of(
                contract_of_name(token_key(from_token@)),
                contract_of_name(token_key(to_token@)),
            ) {
                Some(m) => r.0.method == m && r.0.stage == SwapStep::AwaitDecimals && r.1
                    == SwapAction::ReadDecimals { token: r.0.from },
                None => r.0.stage == SwapStep::Failed && r.1 == SwapAction::Fail(
                    SwapError::UnsupportedPair,
                ),
            },
    {
        let from = ContractABI::map_token_contract(from_token);
        let to = ContractABI::map_token_contract(to_token);
        let method = SwapMethod::map_swap_method(from, to);
        let mut session = SwapSession {
            from: routing_contract(from),
            to: routing_contract(to),
            method: SwapMethod::SwapExactTokensForTokens,
            amount: String::from_str(amount),
            slippage_percent,
            amount_in: 0,
            amount_out_min: 0,
            stage: SwapStep::Failed,
        };
        match method {
            Ok(m) => {
                session.method = m;
                session.stage = SwapStep::AwaitDecimals;
                let token = session.from;
                (session, SwapAction::ReadDecimals { token })
            },
            Err(e) => (session, SwapAction::Fail(e)),
        }
    }

    /// Whether the swap is waiting for this kind of event.
    pub fn accepts(&self, event: &SwapEvent) -> (r: bool)
        ensures
            r == awaits(self.stage, *event),
    {
        match self.stage {
            SwapStep::AwaitDecimals => matches!(event, SwapEvent::Decimals(_) | SwapEvent::CallFailed),
            SwapStep::AwaitQuote => matches!(event, SwapEvent::AmountsOut(_) | SwapEvent::CallFailed),
            SwapStep::AwaitApproval => matches!(event, SwapEvent::ApprovalMined | SwapEvent::CallFailed),
            SwapStep::AwaitClock => matches!(event, SwapEvent::Clock(_)),
            SwapStep::AwaitSubmission => matches!(event, SwapEvent::Submitted(_) | SwapEvent::CallFailed),
            _ => false,
        }
    }

    /// Takes the outcome of the pending call and says what to do next.
    ///
    /// The amount is converted with the token's decimals and quoted along
    /// `[from, to]`; the least accepted output is the last quoted amount less
    /// the slippage tolerance. A token-in swap first approves the router for
    /// the input amount and waits for it; a native-in swap does not. The swap
    /// is then sent with a deadline `DEADLINE_OFFSET_SECS` seconds after the clock
    /// reading, and the swap is done once it is accepted. A failed call ends
    /// the swap with the error of its step.
    pub fn step(&mut self, event: SwapEvent) -> (r: SwapAction)
        requires
            old(self).wf(),
            awaits(old(self).stage, event),
        ensures
            final(self).wf(),
            final(self).same_plan(old(self)),
            match (old(self).stage, event) {
                (SwapStep::AwaitDecimals, SwapEvent::Decimals(d)) => match amount_in_of(
                    old(self).amount@,
                    d,
                ) {
                    Some(a) => final(self).stage == SwapStep::AwaitQuote && final(self).amount_in
                        == a && final(self).amount_out_min == old(self).amount_out_min && r
                        == SwapAction::QuoteAmountsOut {
                        amount_in: a,
                        from: old(self).from,
                        to: old(self).to,
                    },
                    None => final(self).stage == SwapStep::Failed && r == SwapAction::Fail(
                        SwapError::InvalidAmount,
                    ),
                },
                (SwapStep::AwaitQuote, SwapEvent::AmountsOut(v)) => if v@.len() == 0 {
                    final(self).stage == SwapStep::Failed && r == SwapAction::Fail(
                        SwapError::QuoteUnavailable,
                    )
                } else {
                    &&& final(self).amount_in == old(self).amount_in
                    &&& final(self).amount_out_min == min_out_of(
                        v@.last(),
                        old(self).slippage_percent,
                    )
                    &&& if old(self).method == SwapMethod::SwapExactETHForTokens {
                        final(self).stage == SwapStep::AwaitClock && r == SwapAction::ReadClock
                    } else {
                        final(self).stage == SwapStep::AwaitApproval && r == SwapAction::Approve {
                            token: old(self).from,
                            amount: old(self).amount_in,
                        }
                    }
                },
                (SwapStep::AwaitApproval, SwapEvent::ApprovalMined) => final(self).stage
                    == SwapStep::AwaitClock && r == SwapAction::ReadClock && final(self).amount_in
                    == old(self).amount_in && final(self).amount_out_min
                    == old(self).amount_out_min,
                (SwapStep::AwaitClock, SwapEvent::Clock(now)) => final(self).stage
                    == SwapStep::AwaitSubmission && final(self).amount_in == old(self).amount_in
                    && final(self).amount_out_min == old(self).amount_out_min && r
                    == SwapAction::Send(
                    SwapCall {
                        method: old(self).method,
                        amount_in: old(self).amount_in,
                        amount_out_min: old(self).amount_out_min,
                        from: old(self).from,
                        to: old(self).to,
                        deadline: (now / 1000 + DEADLINE_OFFSET_SECS) as u128,
                        value: if old(self).method == SwapMethod::SwapExactETHForTokens {
                            old(self).amount_in
                        } else {
                            0
                        },
                    },
                ),
                (SwapStep::AwaitSubmission, SwapEvent::Submitted(h)) => {
                    &&& final(self).stage == SwapStep::Done
                    &&& r == SwapAction::Finish { tx_hash: h }
                    &&& final(self).amount_in == old(self).amount_in
                    &&& final(self).amount_out_min == old(self).amount_out_min
                },
                (SwapStep::AwaitDecimals, SwapEvent::CallFailed) => final(self).stage
                    == SwapStep::Failed && r == SwapAction::Fail(SwapError::QuoteUnavailable),
                (SwapStep::AwaitQuote, SwapEvent::CallFailed) => final(self).stage
                    == SwapStep::Failed && r == SwapAction::Fail(SwapError::QuoteUnavailable),
                (SwapStep::AwaitApproval, SwapEvent::CallFailed) => final(self).stage
                    == SwapStep::Failed && r == SwapAction::Fail(SwapError::ApprovalFailed),
                (SwapStep::AwaitSubmission, SwapEvent::CallFailed) => final(self).stage
                    == SwapStep::Failed && r == SwapAction::Fail(SwapError::SwapSubmissionFailed),
                _ => false,
            },
    {
        match event {
            SwapEvent::Decimals(d) => match parse_amount(self.amount.as_str(), d) {
                Some(a) => {
                    self.amount_in = a;
                    self.stage = SwapStep::AwaitQuote;
                    SwapAction::QuoteAmountsOut { amount_in: a, from: self.from, to: self.to }
                },
                None => {
                    self.stage = SwapStep::Failed;
                    SwapAction::Fail(SwapError::InvalidAmount)
                },
            },
            SwapEvent::AmountsOut(v) => {
                if v.len() == 0 {
                    self.stage = SwapStep::Failed;
                    SwapAction::Fail(SwapError::QuoteUnavailable)
                } else {
                    let expected = v[v.len() - 1];
                    self.amount_out_min = min_amount_out(expected, self.slippage_percent);
                    if self.method == SwapMethod::SwapExactETHForTokens {
                        self.stage = SwapStep::AwaitClock;
                        SwapAction::ReadClock
                    } else {
                        self.stage = SwapStep::AwaitApproval;
                        SwapAction::Approve { token: self.from, amount: self.amount_in }
                    }
                }
            },
            SwapEvent::ApprovalMined => {
                self.stage = SwapStep::AwaitClock;
                SwapAction::ReadClock
            },
            SwapEvent::Clock(now) => {
                let value = if self.method == SwapMethod::SwapExactETHForTokens {
                    self.amount_in
                } else {
                    0
                };
                self.stage = SwapStep::AwaitSubmission;
                SwapAction::Send(
                    SwapCall {
                        method: self.method,
                        amount_in: self.amount_in,
                        amount_out_min: self.amount_out_min,
                        from: self.from,
                        to: self.to,
                        deadline: get_valid_timestamp(now, DEADLINE_OFFSET_SECS),
                        value,
                    },
                )
            },
            SwapEvent::Submitted(h) => {
                self.stage = SwapStep::Done;
                SwapAction::Finish { tx_hash: h }
            },
            SwapEvent::CallFailed => {
                let e = match self.stage {
                    SwapStep::AwaitApproval => SwapError::ApprovalFailed,
                    SwapStep::AwaitSubmission => SwapError::SwapSubmissionFailed,
                    _ => SwapError::QuoteUnavailable,
                };
                self.stage = SwapStep::Failed;
                SwapAction::Fail(e)
            },
        }
    }
}

} // verus!
