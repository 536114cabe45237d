use vstd::prelude::*;
use crate::binary64::Binary64;
use crate::error::InvalidInput;
use crate::random_process::{GeometricBrownianMotion, PathRequest};

verus! {

/// Entry point for single-asset simulations.
pub struct StockSimulator;

/// What a single-asset request leads to. The checks are made in a fixed
/// order and the first one that fails names the error: the initial price
/// must be above zero, the volatility must not be negative, the time step
/// must be above zero, and at least one step must be asked for. An accepted
/// request is simulated by one path of `days` points with the request's own
/// drift, volatility, time step and seed.
pub open spec fn stock_plan(
    initial_price: Binary64,
    drift: Binary64,
    volatility: Binary64,
    days: usize,
    time_step_days: Binary64,
    seed: Option<u64>,
) -> Result<PathRequest, InvalidInput> {
    if initial_price.sign().at_most_zero() {
        Err(InvalidInput::NonPositiveInitialPrice)
    } else if volatility.sign().below_zero() {
        Err(InvalidInput::NegativeVolatility)
    } else if time_step_days.sign().at_most_zero() {
        Err(InvalidInput::NonPositiveTimeStep)
    } else if days == 0 {
        Err(InvalidInput::ZeroSteps)
    } else {
        Ok(
            PathRequest {
                process: GeometricBrownianMotion { drift, volatility },
                initial_value: initial_price,
                dt: time_step_days,
                steps: days,
                seed,
            },
        )
    }
}

/// The wording of a rejected single-asset request. Errors that no
/// single-asset request meets are worded in general terms.
pub open spec fn stock_fault_text(e: InvalidInput) -> Seq<char> {
    match e {
        InvalidInput::NonPositiveInitialPrice => "Initial price must be positive."@,
        InvalidInput::NegativeVolatility => "Volatility cannot be negative."@,
        InvalidInput::NonPositiveTimeStep => "Time step must be positive."@,
        InvalidInput::ZeroSteps => "Number of days (steps) must be positive."@,
        _ => "Invalid input."@,
    }
}

impl StockSimulator {
    /// Words a rejected single-asset request.
    pub fn fault_message(e: InvalidInput) -> (r: String)
        ensures
            r@ == stock_fault_text(e),
    {
        match e {
            InvalidInput::NonPositiveInitialPrice => "Initial price must be positive.".to_owned(),
            InvalidInput::NegativeVolatility => "Volatility cannot be negative.".to_owned(),
            InvalidInput::NonPositiveTimeStep => "Time step must be positive.".to_owned(),
            InvalidInput::ZeroSteps => "Number of days (steps) must be positive.".to_owned(),
            _ => "Invalid input.".to_owned(),
        }
    }

    /// Checks a single-asset request and says which path to generate for it.
    pub fn plan_stock_price(
        initial_price: Binary64,
        drift: Binary64,
        volatility: Binary64,
        days: usize,
        time_step_days: Binary64,
        seed: Option<u64>,
    ) -> (r: Result<PathRequest, InvalidInput>)
        ensures
            r == stock_plan(initial_price, drift, volatility, days, time_step_days, seed),
    {
        if initial_price.is_non_positive() {
            return Err(InvalidInput::NonPositiveInitialPrice);
        }
        if volatility.is_negative() {
            return Err(InvalidInput::NegativeVolatility);
        }
        if time_step_days.is_non_positive() {
            return Err(InvalidInput::NonPositiveTimeStep);
        }
        if days == 0 {
            return Err(InvalidInput::ZeroSteps);
        }
        let process = GeometricBrownianMotion { drift, volatility };
        Ok(PathRequest { process, initial_value: initial_price, dt: time_step_days, steps: days, seed })
    }
}

/// The path of an accepted single-asset request has exactly as many points
/// as steps were asked for, starts at the initial price, and runs under the
/// seed of the request.
pub proof fn lemma_stock_plan_shape(
    initial_price: Binary64,
    drift: Binary64,
    volatility: Binary64,
    days: usize,
    time_step_days: Binary64,
    seed: Option<u64>,
)
    requires
        stock_plan(initial_price, drift, volatility, days, time_step_days, seed) is Ok,
    ensures
        stock_plan(initial_price, drift, volatility, days, time_step_days, seed)->Ok_0.steps == days,
        stock_plan(
            initial_price,
            drift,
            volatility,
            days,
            time_step_days,
            seed,
        )->Ok_0.initial_value == initial_price,
        stock_plan(initial_price, drift, volatility, days, time_step_days, seed)->Ok_0.seed == seed,
        days > 0,
{
}

} // verus!
