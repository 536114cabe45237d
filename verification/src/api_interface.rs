use vstd::prelude::*;
use crate::binary64::Binary64;
use crate::config::{GlobalConfig, LookupError};
use crate::error::InvalidInput;
use crate::etf_simulation::{plan_etf_nav, EtfDefinition};
use crate::futures_simulation::{plan_futures_price, FuturesContract};
use crate::option_pricing::{
    black_scholes_route,
    EuropeanOption,
    MonteCarloOptionPricer,
    OptionType,
    PricingRoute,
};
use crate::random_process::PathRequest;
use crate::stock_simulation::{stock_fault_text, stock_plan, StockSimulator};

verus! {

/// Why a stock simulation that takes its parameters from the configuration
/// was turned down.
#[derive(Clone, Copy, Debug, PartialEq, Eq, Structural)]
pub enum StockRequestError {
    /// No parameters could be found for the asset.
    Lookup(LookupError),
    /// Parameters were found, and the request itself is invalid.
    Invalid(InvalidInput),
}

impl StockRequestError {
    /// The wording of the error for a request on `asset_identifier`.
    pub open spec fn message_text(self, asset_identifier: Seq<char>) -> Seq<char> {
        match self {
            StockRequestError::Lookup(e) => e.message_text(asset_identifier),
            StockRequestError::Invalid(e) => stock_fault_text(e),
        }
    }

    /// Words the error for a request on `asset_identifier`.
    pub fn message(self, asset_identifier: &str) -> (r: String)
        ensures
            r@ == self.message_text(asset_identifier@),
    {
        match self {
            StockRequestError::Lookup(e) => e.message(asset_identifier),
            StockRequestError::Invalid(e) => StockSimulator::fault_message(e),
        }
    }
}

/// A request to price a European option by simulation.
#[derive(Clone, Copy, Debug, PartialEq, Eq, Structural)]
pub struct MonteCarloEuropeanOptionInput {
    pub underlying_initial_price: Binary64,
    pub strike_price: Binary64,
    pub time_to_maturity_years: Binary64,
    pub risk_free_rate: Binary64,
    pub underlying_volatility: Binary64,
    pub option_type: OptionType,
    pub num_paths: usize,
    pub num_steps_per_path: usize,
    pub seed: Option<u64>,
}

impl MonteCarloEuropeanOptionInput {
    /// The pricer of this request. Pricing is risk-neutral: the underlying
    /// drifts at the risk-free rate.
    pub open spec fn pricer(&self) -> MonteCarloOptionPricer {
        MonteCarloOptionPricer {
            strike_price: self.strike_price,
            time_to_maturity_years: self.time_to_maturity_years,
            risk_free_rate: self.risk_free_rate,
            option_type: self.option_type,
            underlying_initial_price: self.underlying_initial_price,
            underlying_drift: self.risk_free_rate,
            underlying_volatility: self.underlying_volatility,
            num_paths: self.num_paths,
            num_steps_per_path: self.num_steps_per_path,
        }
    }
}

/// Checks a single-asset request and says which path to generate for it.
pub fn plan_stock(
    initial_price: Binary64,
    drift: Binary64,
    volatility: Binary64,
    days: usize,
    time_step_days: Binary64,
    seed: Option<u64>,
) -> (r: Result<PathRequest, InvalidInput>)
    ensures
        r == stock_plan(initial_price, drift, volatility, days, time_step_days, seed),
{
    StockSimulator::plan_stock_price(initial_price, drift, volatility, days, time_step_days, seed)
}

/// What a single-asset request leads to whose drift and volatility come from
/// the configuration: the lookup comes first, then the checks of the request
/// under the parameters found.
pub open spec fn configured_stock_plan(
    asset_identifier: Seq<char>,
    config: &GlobalConfig,
    initial_price: Binary64,
    days: usize,
    time_step_days: Binary64,
    seed: Option<u64>,
    override_drift: Option<Binary64>,
    override_volatility: Option<Binary64>,
) -> Result<PathRequest, StockRequestError> {
    match config.stock_process(asset_identifier, override_drift, override_volatility) {
        Err(e) => Err(StockRequestError::Lookup(e)),
        Ok(process) => match stock_plan(
            initial_price,
            process.drift,
            process.volatility,
            days,
            time_step_days,
            seed,
        ) {
            Err(e) => Err(StockRequestError::Invalid(e)),
            Ok(request) => Ok(request),
        },
    }
}

/// Checks a single-asset request whose drift and volatility come from the
/// configuration, unless overridden, and says which path to generate for it.
pub fn plan_stock_with_config(
    asset_identifier: &str,
    config: &GlobalConfig,
    initial_price: Binary64,
    days: usize,
    time_step_days: Binary64,
    seed: Option<u64>,
    override_drift: Option<Binary64>,
    override_volatility: Option<Binary64>,
) -> (r: Result<PathRequest, StockRequestError>)
    ensures
        r == configured_stock_plan(
            asset_identifier@,
            config,
            initial_price,
            days,
            time_step_days,
            seed,
            override_drift,
            override_volatility,
        ),
{
    let process = match config.resolve_stock_process(
        asset_identifier,
        override_drift,
        override_volatility,
    ) {
        Ok(process) => process,
        Err(e) => {
            return Err(StockRequestError::Lookup(e));
        },
    };
    match StockSimulator::plan_stock_price(
        initial_price,
        process.drift,
        process.volatility,
        days,
        time_step_days,
        seed,
    ) {
        Ok(request) => Ok(request),
        Err(e) => Err(StockRequestError::Invalid(e)),
    }
}

/// Decides how the analytic pricer treats the option with the given fields.
/// `discount` is the discount factor of the rate over the time to maturity.
pub fn route_european_option_black_scholes(
    underlying_price: Binary64,
    strike_price: Binary64,
    time_to_maturity_years: Binary64,
    risk_free_rate: Binary64,
    volatility: Binary64,
    option_type: OptionType,
    discount: Binary64,
) -> (r: Result<PricingRoute, InvalidInput>)
    ensures
        r == (EuropeanOption {
            underlying_price,
            strike_price,
            time_to_maturity_years,
            risk_free_rate,
            volatility,
            option_type,
        }).verdict(discount),
{
    let option = EuropeanOption {
        underlying_price,
        strike_price,
        time_to_maturity_years,
        risk_free_rate,
        volatility,
        option_type,
    };
    black_scholes_route(&option, discount)
}

/// Checks a Monte Carlo request and, where it is accepted, says which paths
/// to generate. `dt` is the length in days of one step of a path.
pub fn plan_european_option_monte_carlo(input: &MonteCarloEuropeanOptionInput, dt: Binary64) -> (r:
    Result<Vec<PathRequest>, InvalidInput>)
    ensures
        match r {
            Ok(requests) => input.pricer().fault() is None && requests@ == input.pricer().requests(
                input.seed,
                dt,
            ),
            Err(e) => input.pricer().fault() == Some(e),
        },
{
    let pricer = MonteCarloOptionPricer {
        underlying_initial_price: input.underlying_initial_price,
        strike_price: input.strike_price,
        time_to_maturity_years: input.time_to_maturity_years,
        risk_free_rate: input.risk_free_rate,
        underlying_drift: input.risk_free_rate,
        underlying_volatility: input.underlying_volatility,
        option_type: input.option_type,
        num_paths: input.num_paths,
        num_steps_per_path: input.num_steps_per_path,
    };
    pricer.plan_underlying_paths(input.seed, dt)
}

/// Checks a futures contract and says which spot path to generate for it.
pub fn plan_futures(contract_params: &FuturesContract, num_steps: usize) -> (r: Result<
    PathRequest,
    InvalidInput,
>)
    ensures
        r == contract_params.plan(num_steps as nat),
{
    plan_futures_price(contract_params, num_steps)
}

/// Checks a fund and says which paths to generate for it.
pub fn plan_etf(etf_params: &EtfDefinition, weight_sum_error: Binary64) -> (r: Result<
    Vec<PathRequest>,
    InvalidInput,
>)
    ensures
        r is Ok <==> etf_params.accepted(weight_sum_error),
        match r {
            Ok(requests) => requests@ == etf_params.requests(),
            Err(e) => etf_params.rejected_with(weight_sum_error, e),
        },
{
    plan_etf_nav(etf_params, weight_sum_error)
}

/// No entry point accepts an initial price that is zero or negative: not
/// the single-asset simulation, with or without configuration, not the
/// futures simulation, not the analytic pricer, not the Monte Carlo pricer,
/// and not the fund simulation for the constituent at any position `k`.
pub proof fn lemma_non_positive_price_rejected(
    price: Binary64,
    drift: Binary64,
    volatility: Binary64,
    days: usize,
    time_step_days: Binary64,
    seed: Option<u64>,
    asset_identifier: Seq<char>,
    config: &GlobalConfig,
    contract: &FuturesContract,
    num_steps: nat,
    option: &EuropeanOption,
    discount: Binary64,
    input: &MonteCarloEuropeanOptionInput,
    fund: &EtfDefinition,
    weight_sum_error: Binary64,
    k: int,
)
    requires
        price.sign().at_most_zero(),
        contract.initial_spot_price == price,
        option.underlying_price == price,
        input.underlying_initial_price == price,
        0 <= k < fund.constituents@.len(),
        fund.constituents@[k].initial_price == price,
    ensures
        stock_plan(price, drift, volatility, days, time_step_days, seed) is Err,
        configured_stock_plan(
            asset_identifier,
            config,
            price,
            days,
            time_step_days,
            seed,
            Some(drift),
            Some(volatility),
        ) is Err,
        contract.plan(num_steps) is Err,
        option.verdict(discount) is Err,
        input.pricer().fault() is Some,
        !fund.accepted(weight_sum_error),
{
    crate::etf_simulation::lemma_etf_rejects(fund, weight_sum_error, k);
}

/// No entry point that takes a time step accepts one that is zero or
/// negative: not the single-asset simulation, with or without configuration,
/// not the futures simulation and not the fund simulation.
pub proof fn lemma_non_positive_time_step_rejected(
    initial_price: Binary64,
    drift: Binary64,
    volatility: Binary64,
    days: usize,
    time_step_days: Binary64,
    seed: Option<u64>,
    asset_identifier: Seq<char>,
    config: &GlobalConfig,
    contract: &FuturesContract,
    num_steps: nat,
    fund: &EtfDefinition,
    weight_sum_error: Binary64,
)
    requires
        time_step_days.sign().at_most_zero(),
        contract.time_step_days == time_step_days,
        fund.time_step_days == time_step_days,
    ensures
        stock_plan(initial_price, drift, volatility, days, time_step_days, seed) is Err,
        configured_stock_plan(
            asset_identifier,
            config,
            initial_price,
            days,
            time_step_days,
            seed,
            Some(drift),
            Some(volatility),
        ) is Err,
        contract.plan(num_steps) is Err,
        !fund.accepted(weight_sum_error),
{
    crate::etf_simulation::lemma_etf_rejects(fund, weight_sum_error, 0);
}

} // verus!
