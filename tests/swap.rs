use tx_ledger::amount::parse_amount;
use tx_ledger::swap::{
    min_amount_out, ContractABI, SwapAction, SwapCall, SwapError, SwapEvent,
    SwapMethod, SwapSession, SwapStep, DEADLINE_OFFSET_SECS, SLIPPAGE_PERCENT,
};

#[test]
fn token_names_map_to_contracts_in_any_case() {
    assert_eq!(ContractABI::map_token_contract("usdc"), ContractABI::USDC);
    assert_eq!(ContractABI::map_token_contract("USDC"), ContractABI::USDC);
    assert_eq!(ContractABI::map_token_contract("Link"), ContractABI::LINK);
    assert_eq!(ContractABI::map_token_contract("ETH"), ContractABI::ETH);
    assert_eq!(ContractABI::map_token_contract("wEtH"), ContractABI::WETH);
    assert_eq!(ContractABI::map_token_contract("ROUTER02"), ContractABI::ROUTER02);
    assert_eq!(ContractABI::map_token_contract("doge"), ContractABI::NONE);
    assert_eq!(ContractABI::map_token_contract(""), ContractABI::NONE);
}

#[test]
fn wrapped_native_to_token_is_native_to_token_swap() {
    assert_eq!(
        SwapMethod::map_swap_method(ContractABI::WETH, ContractABI::USDC),
        Ok(SwapMethod::SwapExactETHForTokens)
    );
}

#[test]
fn token_to_wrapped_native_is_token_to_native_swap() {
    assert_eq!(
        SwapMethod::map_swap_method(ContractABI::USDC, ContractABI::WETH),
        Ok(SwapMethod::SwapExactTokensForETH)
    );
}

#[test]
fn token_to_token_swap() {
    assert_eq!(
        SwapMethod::map_swap_method(ContractABI::USDC, ContractABI::LINK),
        Ok(SwapMethod::SwapExactTokensForTokens)
    );
}

#[test]
fn wrapped_native_self_pair_is_unsupported() {
    assert_eq!(
        SwapMethod::map_swap_method(ContractABI::WETH, ContractABI::WETH),
        Err(SwapError::UnsupportedPair)
    );
}

#[test]
fn native_asset_routes_as_wrapped() {
    assert_eq!(
        SwapMethod::map_swap_method(ContractABI::ETH, ContractABI::LINK),
        Ok(SwapMethod::SwapExactETHForTokens)
    );
    assert_eq!(
        SwapMethod::map_swap_method(ContractABI::LINK, ContractABI::ETH),
        Ok(SwapMethod::SwapExactTokensForETH)
    );
    assert_eq!(
        SwapMethod::map_swap_method(ContractABI::ETH, ContractABI::WETH),
        Err(SwapError::UnsupportedPair)
    );
}

#[test]
fn unknown_tokens_are_unsupported() {
    assert_eq!(
        SwapMethod::map_swap_method(ContractABI::NONE, ContractABI::USDC),
        Err(SwapError::UnsupportedPair)
    );
    assert_eq!(
        SwapMethod::map_swap_method(ContractABI::USDC, ContractABI::ROUTER02),
        Err(SwapError::UnsupportedPair)
    );
}

#[test]
fn method_names() {
    assert_eq!(SwapMethod::SwapExactETHForTokens.to_string(), "swapExactETHForTokens");
    assert_eq!(SwapMethod::SwapExactTokensForETH.to_string(), "swapExactTokensForETH");
    assert_eq!(SwapMethod::SwapExactTokensForTokens.to_string(), "swapExactTokensForTokens");
}

#[test]
fn five_percent_slippage_of_thousand_is_nine_hundred_fifty() {
    assert_eq!(min_amount_out(1000, SLIPPAGE_PERCENT), 950);
}

#[test]
fn slippage_rounds_down_and_does_not_overflow() {
    assert_eq!(min_amount_out(999, 5), 949);
    assert_eq!(min_amount_out(0, 5), 0);
    assert_eq!(min_amount_out(1234, 0), 1234);
    assert_eq!(min_amount_out(1234, 100), 0);
    assert_eq!(min_amount_out(u128::MAX, 5), 323268248574891540290205877060179800882);
}

#[test]
fn amounts_convert_to_base_units() {
    assert_eq!(parse_amount("10", 6), Some(10_000_000));
    assert_eq!(parse_amount("1.5", 18), Some(1_500_000_000_000_000_000));
    assert_eq!(parse_amount("0.123456789", 6), Some(123_456));
    assert_eq!(parse_amount("abc", 6), None);
    assert_eq!(parse_amount("-1", 6), None);
    assert_eq!(parse_amount("1", 37), Some(10_000_000_000_000_000_000_000_000_000_000_000_000));
    assert_eq!(parse_amount("1", 39), None);
    assert_eq!(parse_amount("0", 200), None);
    assert_eq!(parse_amount("0.5", 0), Some(0));
    assert_eq!(parse_amount("1.23456789", 2), Some(123));
    assert_eq!(parse_amount("1_000", 0), Some(1000));
    assert_eq!(parse_amount("1.2.3", 6), None);
    assert_eq!(parse_amount("000000000000000000000000000000000000000000001.5", 6), Some(1_500_000));
    assert_eq!(parse_amount("1.500000000000000000000000000000000000000000000000", 6), Some(1_500_000));
    assert_eq!(parse_amount("1\u{e9}", 6), None);
    assert_eq!(parse_amount("12345678901234567890123456789012345678901", 0), None);
    assert_eq!(parse_amount("1000000000000000000000", 18), None);
}

#[test]
fn token_in_swap_approves_then_sends() {
    let (mut s, a) = SwapSession::begin("USDC", "eth", "10", SLIPPAGE_PERCENT);
    assert_eq!(a, SwapAction::ReadDecimals { token: ContractABI::USDC });
    assert_eq!(s.method, SwapMethod::SwapExactTokensForETH);
    assert_eq!(s.to, ContractABI::WETH);
    assert_eq!(
        s.step(SwapEvent::Decimals(6)),
        SwapAction::QuoteAmountsOut { amount_in: 10_000_000, from: ContractABI::USDC, to: ContractABI::WETH }
    );
    assert_eq!(
        s.step(SwapEvent::AmountsOut(vec![10_000_000, 5_000])),
        SwapAction::Approve { token: ContractABI::USDC, amount: 10_000_000 }
    );
    assert_eq!(s.amount_out_min, 4750);
    assert_eq!(s.step(SwapEvent::ApprovalMined), SwapAction::ReadClock);
    assert_eq!(
        s.step(SwapEvent::Clock(1_000)),
        SwapAction::Send(SwapCall {
            method: SwapMethod::SwapExactTokensForETH,
            amount_in: 10_000_000,
            amount_out_min: 4750,
            from: ContractABI::USDC,
            to: ContractABI::WETH,
            deadline: 1 + DEADLINE_OFFSET_SECS as u128,
            value: 0,
        })
    );
    assert_eq!(
        s.step(SwapEvent::Submitted("0xfeed".to_string())),
        SwapAction::Finish { tx_hash: "0xfeed".to_string() }
    );
    assert_eq!(s.amount_in, 10_000_000);
    assert_eq!(s.stage, SwapStep::Done);
}

#[test]
fn native_in_swap_attaches_value_without_approval() {
    let (mut s, a) = SwapSession::begin("eth", "usdc", "1.5", SLIPPAGE_PERCENT);
    assert_eq!(a, SwapAction::ReadDecimals { token: ContractABI::WETH });
    s.step(SwapEvent::Decimals(18));
    assert_eq!(s.amount_in, 1_500_000_000_000_000_000);
    assert_eq!(
        s.step(SwapEvent::AmountsOut(vec![1_500_000_000_000_000_000, 3_000_000_000])),
        SwapAction::ReadClock
    );
    assert_eq!(
        s.step(SwapEvent::Clock(7)),
        SwapAction::Send(SwapCall {
            method: SwapMethod::SwapExactETHForTokens,
            amount_in: 1_500_000_000_000_000_000,
            amount_out_min: 2_850_000_000,
            from: ContractABI::WETH,
            to: ContractABI::USDC,
            deadline: 300,
            value: 1_500_000_000_000_000_000,
        })
    );
}

#[test]
fn unsupported_pair_fails_before_any_call() {
    let (s, a) = SwapSession::begin("weth", "ETH", "1", SLIPPAGE_PERCENT);
    assert_eq!(a, SwapAction::Fail(SwapError::UnsupportedPair));
    assert_eq!(s.stage, SwapStep::Failed);
    assert!(!s.accepts(&SwapEvent::Decimals(18)));
}

#[test]
fn swap_failures_carry_the_error_of_their_step() {
    let (mut s, _) = SwapSession::begin("usdc", "link", "abc", SLIPPAGE_PERCENT);
    assert_eq!(s.step(SwapEvent::Decimals(6)), SwapAction::Fail(SwapError::InvalidAmount));

    let (mut s, _) = SwapSession::begin("usdc", "link", "1", SLIPPAGE_PERCENT);
    assert_eq!(s.step(SwapEvent::CallFailed), SwapAction::Fail(SwapError::QuoteUnavailable));

    let (mut s, _) = SwapSession::begin("usdc", "link", "1", SLIPPAGE_PERCENT);
    s.step(SwapEvent::Decimals(6));
    assert_eq!(s.step(SwapEvent::AmountsOut(vec![])), SwapAction::Fail(SwapError::QuoteUnavailable));

    let (mut s, _) = SwapSession::begin("usdc", "link", "1", SLIPPAGE_PERCENT);
    s.step(SwapEvent::Decimals(6));
    s.step(SwapEvent::AmountsOut(vec![1_000_000, 20]));
    assert!(s.accepts(&SwapEvent::ApprovalMined));
    assert!(!s.accepts(&SwapEvent::Clock(0)));
    assert_eq!(s.step(SwapEvent::CallFailed), SwapAction::Fail(SwapError::ApprovalFailed));

    let (mut s, _) = SwapSession::begin("usdc", "link", "1", SLIPPAGE_PERCENT);
    s.step(SwapEvent::Decimals(6));
    s.step(SwapEvent::AmountsOut(vec![1_000_000, 20]));
    s.step(SwapEvent::ApprovalMined);
    s.step(SwapEvent::Clock(0));
    assert_eq!(s.step(SwapEvent::CallFailed), SwapAction::Fail(SwapError::SwapSubmissionFailed));
}

#[test]
fn lowercase_names_map_exactly() {
    assert_eq!(ContractABI::from_lowercase_name("usdc"), ContractABI::USDC);
    assert_eq!(ContractABI::from_lowercase_name("router02"), ContractABI::ROUTER02);
    assert_eq!(ContractABI::from_lowercase_name("USDC"), ContractABI::NONE);
}
