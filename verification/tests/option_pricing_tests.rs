use stock_price_simulator::binary64::Binary64;
use stock_price_simulator::error::InvalidInput;
use stock_price_simulator::option_pricing::{
    black_scholes_route, option_at_price, route_series_for_black_scholes, terminal_prices, EuropeanOption, FixedOptionParams,
    MonteCarloOptionPricer, OptionType, PricingRoute,
};
use stock_price_simulator::random_process::{GeometricBrownianMotion, PathRequest, TimeSeries};

fn q(x: f64) -> Binary64 {
    Binary64::from_bits(x.to_bits())
}

fn route(s: f64, k: f64, t: f64, r: f64, sigma: f64, option_type: OptionType) -> Result<PricingRoute, InvalidInput> {
    let option = EuropeanOption {
        underlying_price: q(s),
        strike_price: q(k),
        time_to_maturity_years: q(t),
        risk_free_rate: q(r),
        volatility: q(sigma),
        option_type,
    };
    black_scholes_route(&option, q((-r * t).exp()))
}

fn pricer(t: f64, num_paths: usize, num_steps_per_path: usize) -> MonteCarloOptionPricer {
    MonteCarloOptionPricer {
        strike_price: q(100.0),
        time_to_maturity_years: q(t),
        risk_free_rate: q(0.05),
        option_type: OptionType::Call,
        underlying_initial_price: q(100.0),
        underlying_drift: q(0.05),
        underlying_volatility: q(0.2),
        num_paths,
        num_steps_per_path,
    }
}

fn mc(t: f64, num_paths: usize, num_steps_per_path: usize, seed: Option<u64>) -> Result<Vec<PathRequest>, InvalidInput> {
    let dt = t * 252.0 / num_steps_per_path as f64;
    pricer(t, num_paths, num_steps_per_path).plan_underlying_paths(seed, q(dt))
}

#[test]
fn test_mc_pricer_invalid_inputs() {
    let mc_pricer_invalid_t = MonteCarloOptionPricer {
        strike_price: q(100.0),
        time_to_maturity_years: q(0.0),
        risk_free_rate: q(0.05),
        option_type: OptionType::Call,
        underlying_initial_price: q(100.0),
        underlying_drift: q(0.05),
        underlying_volatility: q(0.2),
        num_paths: 100,
        num_steps_per_path: 10,
    };
    assert!(mc_pricer_invalid_t.plan_underlying_paths(None, q(0.0 * 252.0 / 10.0)).is_err());

    let mc_pricer_invalid_paths = MonteCarloOptionPricer {
        strike_price: q(100.0),
        time_to_maturity_years: q(1.0),
        risk_free_rate: q(0.05),
        option_type: OptionType::Call,
        underlying_initial_price: q(100.0),
        underlying_drift: q(0.05),
        underlying_volatility: q(0.2),
        num_paths: 0,
        num_steps_per_path: 10,
    };
    assert!(mc_pricer_invalid_paths.plan_underlying_paths(None, q(1.0 * 252.0 / 10.0)).is_err());

    let mc_pricer_invalid_steps = MonteCarloOptionPricer {
        strike_price: q(100.0),
        time_to_maturity_years: q(1.0),
        risk_free_rate: q(0.05),
        option_type: OptionType::Call,
        underlying_initial_price: q(100.0),
        underlying_drift: q(0.05),
        underlying_volatility: q(0.2),
        num_paths: 100,
        num_steps_per_path: 0,
    };
    assert!(mc_pricer_invalid_steps.plan_underlying_paths(None, q(1.0 * 252.0 / 0.0)).is_err());
}

#[test]
fn monte_carlo_rejects_non_positive_initial_price() {
    for initial in [-100.0, 0.0, -0.0] {
        let mut p = pricer(1.0, 100, 10);
        p.underlying_initial_price = q(initial);
        assert_eq!(p.plan_underlying_paths(Some(7), q(25.2)), Err(InvalidInput::NonPositiveInitialPrice));
        assert_eq!(p.plan_underlying_paths(None, q(25.2)), Err(InvalidInput::NonPositiveInitialPrice));
    }
    let mut p = pricer(0.0, 0, 0);
    p.underlying_initial_price = q(-1.0);
    assert_eq!(p.plan_underlying_paths(None, q(25.2)), Err(InvalidInput::NonPositiveInitialPrice));
}

#[test]
fn monte_carlo_errors_by_variant() {
    assert_eq!(mc(0.0, 100, 10, None), Err(InvalidInput::InvalidMonteCarloParameters));
    assert_eq!(mc(-1.0, 100, 10, None), Err(InvalidInput::InvalidMonteCarloParameters));
    assert_eq!(mc(1.0, 0, 10, None), Err(InvalidInput::InvalidMonteCarloParameters));
    assert_eq!(mc(1.0, 100, 0, None), Err(InvalidInput::InvalidMonteCarloParameters));
    assert_eq!(mc(1.0, 1, usize::MAX, None), Err(InvalidInput::TooManySteps));
}

#[test]
fn monte_carlo_plan_exact() {
    let expected = |seed: Option<u64>| PathRequest {
        process: GeometricBrownianMotion { drift: q(0.05), volatility: q(0.2) },
        initial_value: q(100.0),
        dt: q(25.2),
        steps: 11,
        seed,
    };
    assert_eq!(mc(1.0, 3, 10, Some(42)), Ok(vec![expected(Some(42)), expected(Some(43)), expected(Some(44))]));
    assert_eq!(mc(1.0, 2, 10, None), Ok(vec![expected(None), expected(None)]));
}

#[test]
fn monte_carlo_plan_covers_every_path() {
    let requests = mc(1.0, 20_000, 100, Some(42)).unwrap();
    assert_eq!(requests.len(), 20_000);
    assert_eq!(requests[0].seed, Some(42));
    assert_eq!(requests[19_999].seed, Some(20_041));
    assert!(requests.iter().all(|r| r.steps == 101));
}

#[test]
fn terminal_prices_are_last_prices_in_path_order() {
    let a = TimeSeries::assemble(vec![1, 2, 3], vec![q(100.0), q(101.0), q(99.5)]).unwrap();
    let b = TimeSeries::assemble(vec![1], vec![q(42.0)]).unwrap();
    assert_eq!(terminal_prices(&vec![a, b]), Some(vec![q(99.5), q(42.0)]));
    assert_eq!(terminal_prices(&vec![]), Some(vec![]));
}

#[test]
fn terminal_prices_need_a_point_on_every_path() {
    let a = TimeSeries::assemble(vec![1], vec![q(100.0)]).unwrap();
    let empty = TimeSeries::assemble(vec![], vec![]).unwrap();
    assert_eq!(terminal_prices(&vec![a, empty]), None);
}

#[test]
fn analytic_route_closed_form_for_live_option() {
    assert_eq!(route(100.0, 100.0, 1.0, 0.05, 0.2, OptionType::Call), Ok(PricingRoute::ClosedForm));
    assert_eq!(route(100.0, 100.0, 1.0, 0.05, 0.2, OptionType::Put), Ok(PricingRoute::ClosedForm));
    assert_eq!(route(100.0, 105.0, 0.5, -0.01, 0.22, OptionType::Call), Ok(PricingRoute::ClosedForm));
}

#[test]
fn analytic_route_intrinsic_at_or_past_maturity() {
    assert_eq!(route(100.0, 90.0, 0.0, 0.05, 0.2, OptionType::Call), Ok(PricingRoute::IntrinsicValue));
    assert_eq!(route(100.0, 90.0, -0.0, 0.05, 0.2, OptionType::Put), Ok(PricingRoute::IntrinsicValue));
    assert_eq!(route(100.0, 90.0, -1.0, 0.05, 0.2, OptionType::Put), Ok(PricingRoute::IntrinsicValue));
    assert_eq!(route(100.0, 90.0, 0.0, -1e9, -0.2, OptionType::Call), Ok(PricingRoute::IntrinsicValue));
}

#[test]
fn analytic_route_errors_by_variant() {
    assert_eq!(route(0.0, 100.0, 1.0, 0.05, 0.2, OptionType::Call), Err(InvalidInput::NonPositiveUnderlyingPrice));
    assert_eq!(route(-5.0, 100.0, 0.0, 0.05, 0.2, OptionType::Call), Err(InvalidInput::NonPositiveUnderlyingPrice));
    assert_eq!(route(100.0, 0.0, 1.0, 0.05, 0.2, OptionType::Call), Err(InvalidInput::NonPositiveStrikePrice));
    assert_eq!(route(100.0, -1.0, 0.0, 0.05, 0.2, OptionType::Call), Err(InvalidInput::NonPositiveStrikePrice));
    assert_eq!(route(100.0, 100.0, 1.0, -1e6, 0.2, OptionType::Call), Err(InvalidInput::UnstableRiskFreeRate));
    assert_eq!(route(100.0, 100.0, 1.0, 0.05, 0.0, OptionType::Call), Err(InvalidInput::NonPositiveVolatility));
    assert_eq!(route(100.0, 100.0, 1.0, 0.05, -0.2, OptionType::Call), Err(InvalidInput::NonPositiveVolatility));
}

#[test]
fn analytic_route_check_order() {
    assert_eq!(route(-1.0, -1.0, 1.0, -1e6, -1.0, OptionType::Put), Err(InvalidInput::NonPositiveUnderlyingPrice));
    assert_eq!(route(1.0, -1.0, 1.0, -1e6, -1.0, OptionType::Put), Err(InvalidInput::NonPositiveStrikePrice));
    assert_eq!(route(1.0, 1.0, 1.0, -1e6, -1.0, OptionType::Put), Err(InvalidInput::UnstableRiskFreeRate));
    assert_eq!(route(1.0, 1.0, 1.0, -0.5, -1.0, OptionType::Put), Err(InvalidInput::NonPositiveVolatility));
}

#[test]
fn analytic_route_infinite_discount_only_counts_for_negative_rates() {
    let option = |r: f64| EuropeanOption {
        underlying_price: q(100.0),
        strike_price: q(100.0),
        time_to_maturity_years: q(1.0),
        risk_free_rate: q(r),
        volatility: q(0.2),
        option_type: OptionType::Call,
    };
    assert_eq!(black_scholes_route(&option(0.05), q(f64::INFINITY)), Ok(PricingRoute::ClosedForm));
    assert_eq!(black_scholes_route(&option(-0.05), q(f64::INFINITY)), Err(InvalidInput::UnstableRiskFreeRate));
    assert_eq!(black_scholes_route(&option(-0.05), q(f64::NAN)), Ok(PricingRoute::ClosedForm));
    assert_eq!(black_scholes_route(&option(-0.05), q(f64::MAX)), Ok(PricingRoute::ClosedForm));
}

#[test]
fn test_price_series_for_black_scholes_func() {
    let fixed_params = FixedOptionParams {
        strike_price: q(100.0),
        time_to_maturity_years: q(0.5),
        risk_free_rate: q(0.05),
        volatility: q(0.2),
        option_type: OptionType::Call,
    };
    let underlying_prices = [90.0, 100.0, 110.0];
    let expected_option_prices = [2.3494282954139862, 6.888728613688083, 14.07986274534926];

    let encoded: Vec<Binary64> = underlying_prices.iter().map(|s| q(*s)).collect();
    let calculated_routes_result = route_series_for_black_scholes(&fixed_params, &encoded, q((-0.05f64 * 0.5).exp()));
    assert!(calculated_routes_result.is_ok());
    let calculated_routes = calculated_routes_result.unwrap();

    assert_eq!(calculated_routes.len(), expected_option_prices.len());
    for route in calculated_routes {
        assert_eq!(route, PricingRoute::ClosedForm);
    }
}

#[test]
fn route_series_stops_at_first_rejected_price() {
    let fixed_params = FixedOptionParams {
        strike_price: q(100.0),
        time_to_maturity_years: q(1.0),
        risk_free_rate: q(0.05),
        volatility: q(0.2),
        option_type: OptionType::Put,
    };
    let discount = q((-0.05f64).exp());
    assert_eq!(
        route_series_for_black_scholes(&fixed_params, &vec![q(90.0), q(0.0), q(110.0)], discount),
        Err(InvalidInput::NonPositiveUnderlyingPrice)
    );
    assert_eq!(route_series_for_black_scholes(&fixed_params, &vec![], discount), Ok(vec![]));
    let flat = FixedOptionParams { volatility: q(0.0), ..fixed_params };
    assert_eq!(
        route_series_for_black_scholes(&flat, &vec![q(90.0), q(-1.0)], discount),
        Err(InvalidInput::NonPositiveVolatility)
    );
    let matured = FixedOptionParams { time_to_maturity_years: q(0.0), ..flat };
    assert_eq!(
        route_series_for_black_scholes(&matured, &vec![q(90.0), q(95.0)], discount),
        Ok(vec![PricingRoute::IntrinsicValue, PricingRoute::IntrinsicValue])
    );
}

#[test]
fn option_at_price_keeps_fixed_parameters() {
    let fixed_params = FixedOptionParams {
        strike_price: q(100.0),
        time_to_maturity_years: q(1.0),
        risk_free_rate: q(0.05),
        volatility: q(0.2),
        option_type: OptionType::Put,
    };
    assert_eq!(
        option_at_price(&fixed_params, q(14.0)),
        EuropeanOption {
            underlying_price: q(14.0),
            strike_price: q(100.0),
            time_to_maturity_years: q(1.0),
            risk_free_rate: q(0.05),
            volatility: q(0.2),
            option_type: OptionType::Put,
        }
    );
}

#[test]
fn option_types_are_distinct() {
    assert_ne!(OptionType::Call, OptionType::Put);
    assert_eq!(format!("{:?}", OptionType::Call), "Call");
    assert_eq!(format!("{:?}", OptionType::Put), "Put");
}

#[test]
fn payoff_at_maturity_exact() {
    assert_eq!(OptionType::Call.payoff(q(110.0 - 100.0)), q(10.0));
    assert_eq!(OptionType::Put.payoff(q(110.0 - 100.0)), q(0.0));
    assert_eq!(OptionType::Call.payoff(q(90.0 - 100.0)), q(0.0));
    assert_eq!(OptionType::Put.payoff(q(90.0 - 100.0)), q(10.0));
    assert_eq!(OptionType::Call.payoff(q(100.0 - 100.0)), q(0.0));
    assert_eq!(OptionType::Put.payoff(q(100.0 - 100.0)), q(0.0));
    assert_eq!(OptionType::Call.payoff(q(f64::NAN)), q(0.0));
    assert_eq!(OptionType::Put.payoff(q(f64::NAN)), q(0.0));
}

#[test]
fn payoff_agrees_with_max_of_difference_and_zero() {
    let strikes = [100.0, 95.0, 60.0, 65.0, 0.1, 1e9];
    let spots = [100.0, 10.0, 95.0, 60.0, 65.0, 14.0, 110.0, 90.0, 1e-9, 1e12];
    for k in strikes {
        for s in spots {
            let call = f64::from_bits(OptionType::Call.payoff(q(s - k)).to_bits());
            let put = f64::from_bits(OptionType::Put.payoff(q(s - k)).to_bits());
            assert_eq!(call, (s - k).max(0.0), "call {s} {k}");
            assert_eq!(put, (k - s).max(0.0), "put {s} {k}");
            assert!(call == 0.0 || put == 0.0);
        }
    }
}
