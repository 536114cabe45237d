use vstd::prelude::*;
use crate::binary64::Binary64;
use crate::error::InvalidInput;
use crate::random_process::{
    path_seeds,
    sub_path_seed,
    GeometricBrownianMotion,
    PathRequest,
    TimeSeries,
};

verus! {

/// The two kinds of European option.
#[derive(Clone, Copy, Debug, PartialEq, Eq, Structural)]
pub enum OptionType {
    Call,
    Put,
}

impl OptionType {
    /// What exercising an option of this kind pays, where
    /// `spot_minus_strike` is the price of the underlying less the strike: a
    /// call pays that difference where it is above zero, a put pays the
    /// opposite difference where that is above zero, and either pays zero
    /// otherwise.
    pub open spec fn spec_payoff(self, spot_minus_strike: Binary64) -> Binary64 {
        match self {
            OptionType::Call => spot_minus_strike.spec_positive_part(),
            OptionType::Put => spot_minus_strike.spec_negated().spec_positive_part(),
        }
    }

    /// Computes what exercising an option of this kind pays.
    pub fn payoff(self, spot_minus_strike: Binary64) -> (r: Binary64)
        ensures
            r == self.spec_payoff(spot_minus_strike),
    {
        match self {
            OptionType::Call => spot_minus_strike.positive_part(),
            OptionType::Put => spot_minus_strike.negated().positive_part(),
        }
    }
}

/// A payoff is never below zero. A call pays exactly when the underlying
/// stands above the strike, and then the difference itself; a put pays
/// exactly when it stands below, and then the opposite difference. So at
/// most one of the two pays.
pub proof fn lemma_payoff_sides(spot_minus_strike: Binary64)
    ensures
        !OptionType::Call.spec_payoff(spot_minus_strike).sign().below_zero(),
        !OptionType::Put.spec_payoff(spot_minus_strike).sign().below_zero(),
        OptionType::Call.spec_payoff(spot_minus_strike).sign().above_zero()
            <==> spot_minus_strike.sign().above_zero(),
        OptionType::Put.spec_payoff(spot_minus_strike).sign().above_zero()
            <==> spot_minus_strike.sign().below_zero(),
        spot_minus_strike.sign().above_zero() ==> OptionType::Call.spec_payoff(spot_minus_strike)
            == spot_minus_strike,
        spot_minus_strike.sign().below_zero() ==> OptionType::Put.spec_payoff(spot_minus_strike)
            == spot_minus_strike.spec_negated(),
{
    crate::binary64::lemma_positive_part_sign(spot_minus_strike);
    crate::binary64::lemma_negated_sign(spot_minus_strike);
    crate::binary64::lemma_positive_part_sign(spot_minus_strike.spec_negated());
}

/// A European option and the market it is priced in.
#[derive(Clone, Copy, Debug, PartialEq, Eq, Structural)]
pub struct EuropeanOption {
    pub underlying_price: Binary64,
    pub strike_price: Binary64,
    pub time_to_maturity_years: Binary64,
    pub risk_free_rate: Binary64,
    /// Volatility per year.
    pub volatility: Binary64,
    pub option_type: OptionType,
}

/// What stays fixed of an option while the price of its underlying moves.
#[derive(Clone, Copy, Debug, PartialEq, Eq, Structural)]
pub struct FixedOptionParams {
    pub strike_price: Binary64,
    pub time_to_maturity_years: Binary64,
    pub risk_free_rate: Binary64,
    /// Volatility per year.
    pub volatility: Binary64,
    pub option_type: OptionType,
}

/// How the analytic pricer values an accepted option.
#[derive(Clone, Copy, Debug, PartialEq, Eq, Structural)]
pub enum PricingRoute {
    /// The option is at or past maturity: its value is what exercising it
    /// now pays.
    IntrinsicValue,
    /// The option has time left: its value is given by the closed formula.
    ClosedForm,
}

impl EuropeanOption {
    /// The verdict of the analytic pricer on this option, where `discount`
    /// is the factor by which one unit of strike is carried to today.
    ///
    /// Prices are checked first. An option at or past maturity is then valued
    /// at once, whatever its rate and volatility. Otherwise a negative rate
    /// with an infinite discount factor is an error, and so is a volatility
    /// not above zero.
    pub open spec fn verdict(&self, discount: Binary64) -> Result<PricingRoute, InvalidInput> {
        if self.underlying_price.sign().at_most_zero() {
            Err(InvalidInput::NonPositiveUnderlyingPrice)
        } else if self.strike_price.sign().at_most_zero() {
            Err(InvalidInput::NonPositiveStrikePrice)
        } else if self.time_to_maturity_years.sign().at_most_zero() {
            Ok(PricingRoute::IntrinsicValue)
        } else if self.risk_free_rate.sign().below_zero() && discount.is_infinite() {
            Err(InvalidInput::UnstableRiskFreeRate)
        } else if self.volatility.sign().at_most_zero() {
            Err(InvalidInput::NonPositiveVolatility)
        } else {
            Ok(PricingRoute::ClosedForm)
        }
    }
}

impl FixedOptionParams {
    /// The option with these fixed parameters at one price of the underlying.
    pub open spec fn at_price(&self, underlying_price: Binary64) -> EuropeanOption {
        EuropeanOption {
            underlying_price,
            strike_price: self.strike_price,
            time_to_maturity_years: self.time_to_maturity_years,
            risk_free_rate: self.risk_free_rate,
            volatility: self.volatility,
            option_type: self.option_type,
        }
    }

    /// The verdict on the option at the price at position `i`.
    pub open spec fn verdict_at(
        &self,
        underlying_prices: Seq<Binary64>,
        discount: Binary64,
        i: int,
    ) -> Result<PricingRoute, InvalidInput> {
        self.at_price(underlying_prices[i]).verdict(discount)
    }
}

/// Decides how the analytic pricer treats an option. `discount` is the
/// discount factor of the option's rate over its time to maturity.
pub fn black_scholes_route(option: &EuropeanOption, discount: Binary64) -> (r: Result<
    PricingRoute,
    InvalidInput,
>)
    ensures
        r == option.verdict(discount),
{
    if option.underlying_price.is_non_positive() {
        return Err(InvalidInput::NonPositiveUnderlyingPrice);
    }
    if option.strike_price.is_non_positive() {
        return Err(InvalidInput::NonPositiveStrikePrice);
    }
    if option.time_to_maturity_years.is_non_positive() {
        return Ok(PricingRoute::IntrinsicValue);
    }
    if option.risk_free_rate.is_negative() && discount.check_infinite() {
        return Err(InvalidInput::UnstableRiskFreeRate);
    }
    if option.volatility.is_non_positive() {
        return Err(InvalidInput::NonPositiveVolatility);
    }
    Ok(PricingRoute::ClosedForm)
}

/// Builds the option with the given fixed parameters at one price of the
/// underlying.
pub fn option_at_price(fixed_params: &FixedOptionParams, underlying_price: Binary64) -> (r:
    EuropeanOption)
    ensures
        r == fixed_params.at_price(underlying_price),
{
    EuropeanOption {
        underlying_price,
        strike_price: fixed_params.strike_price,
        time_to_maturity_years: fixed_params.time_to_maturity_years,
        risk_free_rate: fixed_params.risk_free_rate,
        volatility: fixed_params.volatility,
        option_type: fixed_params.option_type,
    }
}

/// Decides, for a series of prices of the underlying, how the option with
/// the given fixed parameters is valued at each of them. The series is
/// walked in order; the first price at which the option is rejected ends
/// the walk and its error is the result.
pub fn route_series_for_black_scholes(
    fixed_params: &FixedOptionParams,
    underlying_prices: &Vec<Binary64>,
    discount: Binary64,
) -> (r: Result<Vec<PricingRoute>, InvalidInput>)
    ensures
        match r {
            Ok(routes) => {
                &&& routes@.len() == underlying_prices@.len()
                &&& forall|i: int|
                    0 <= i < routes@.len() ==> fixed_params.verdict_at(
                        underlying_prices@,
                        discount,
                        i,
                    ) == Ok::<PricingRoute, InvalidInput>(#[trigger] routes@[i])
            },
            Err(e) => exists|k: int|
                {
                    &&& 0 <= k < underlying_prices@.len()
                    &&& #[trigger] fixed_params.verdict_at(underlying_prices@, discount, k)
                        == Err::<PricingRoute, InvalidInput>(e)
                    &&& forall|i: int|
                        0 <= i < k ==> (#[trigger] fixed_params.verdict_at(
                            underlying_prices@,
                            discount,
                            i,
                        )) is Ok
                },
        },
{
    let mut routes: Vec<PricingRoute> = Vec::new();
    let mut i: usize = 0;
    while i < underlying_prices.len()
        invariant
            i <= underlying_prices@.len(),
            routes@.len() == i,
            forall|j: int|
                0 <= j < i ==> fixed_params.verdict_at(underlying_prices@, discount, j) == Ok::<
                    PricingRoute,
                    InvalidInput,
                >(#[trigger] routes@[j]),
        decreases underlying_prices@.len() - i,
    {
        let option = option_at_price(fixed_params, underlying_prices[i]);
        match black_scholes_route(&option, discount) {
            Ok(route) => {
                routes.push(route);
            },
            Err(e) => {
                proof {
                    let k = i as int;
                    assert(fixed_params.verdict_at(underlying_prices@, discount, k) == Err::<
                        PricingRoute,
                        InvalidInput,
                    >(e));
                    assert forall|j: int| 0 <= j < k implies (#[trigger] fixed_params.verdict_at(
                        underlying_prices@,
                        discount,
                        j,
                    )) is Ok by {
                        assert(fixed_params.verdict_at(underlying_prices@, discount, j) == Ok::<
                            PricingRoute,
                            InvalidInput,
                        >(routes@[j]));
                    }
                }
                return Err(e);
            },
        }
        i = i + 1;
    }
    Ok(routes)
}

/// An option with prices above zero and no time left is valued at its
/// intrinsic value, whatever its rate, its volatility and the discount
/// factor are.
pub proof fn lemma_matured_option_intrinsic(option: &EuropeanOption, discount: Binary64)
    requires
        option.underlying_price.sign().above_zero(),
        option.strike_price.sign().above_zero(),
        option.time_to_maturity_years.sign() == crate::sign::Sign::Zero,
    ensures
        option.verdict(discount) == Ok::<PricingRoute, InvalidInput>(PricingRoute::IntrinsicValue),
{
}

/// A Monte Carlo pricer for a European option: the option, the process of
/// its underlying, and the size of the simulation.
#[derive(Clone, Copy, Debug, PartialEq, Eq, Structural)]
pub struct MonteCarloOptionPricer {
    pub strike_price: Binary64,
    pub time_to_maturity_years: Binary64,
    pub risk_free_rate: Binary64,
    pub option_type: OptionType,
    pub underlying_initial_price: Binary64,
    pub underlying_drift: Binary64,
    pub underlying_volatility: Binary64,
    pub num_paths: usize,
    pub num_steps_per_path: usize,
}

impl MonteCarloOptionPricer {
    /// The error of the pricer, if it has one. The initial price of the
    /// underlying must be above zero. Then the maturity and the two counts
    /// are checked together, and last the size of a path, which has one
    /// point more than it has steps.
    pub open spec fn fault(&self) -> Option<InvalidInput> {
        if self.underlying_initial_price.sign().at_most_zero() {
            Some(InvalidInput::NonPositiveInitialPrice)
        } else if self.time_to_maturity_years.sign().at_most_zero() || self.num_paths == 0
            || self.num_steps_per_path == 0 {
            Some(InvalidInput::InvalidMonteCarloParameters)
        } else if self.num_steps_per_path + 1 > usize::MAX {
            Some(InvalidInput::TooManySteps)
        } else {
            None
        }
    }

    /// The path at position `index` of the simulation: it starts at the
    /// initial price of the underlying, follows the underlying's process in
    /// steps of `dt` days, has one point more than steps so that its last
    /// point is the price at maturity, and runs under the base seed moved on
    /// by its position.
    pub open spec fn request(&self, seed: Option<u64>, dt: Binary64, index: nat) -> PathRequest {
        PathRequest {
            process: GeometricBrownianMotion {
                drift: self.underlying_drift,
                volatility: self.underlying_volatility,
            },
            initial_value: self.underlying_initial_price,
            dt,
            steps: (self.num_steps_per_path + 1) as usize,
            seed: sub_path_seed(seed, index),
        }
    }

    /// The paths of the simulation, in position order.
    pub open spec fn requests(&self, seed: Option<u64>, dt: Binary64) -> Seq<PathRequest> {
        Seq::new(self.num_paths as nat, |i: int| self.request(seed, dt, i as nat))
    }

    /// Checks the pricer and, where it is accepted, says which paths to
    /// generate. `dt` is the length in days of one step of a path.
    pub fn plan_underlying_paths(&self, seed: Option<u64>, dt: Binary64) -> (r: Result<
        Vec<PathRequest>,
        InvalidInput,
    >)
        ensures
            match r {
                Ok(requests) => self.fault() is None && requests@ == self.requests(seed, dt),
                Err(e) => self.fault() == Some(e),
            },
    {
        if self.underlying_initial_price.is_non_positive() {
            return Err(InvalidInput::NonPositiveInitialPrice);
        }
        if self.time_to_maturity_years.is_non_positive() || self.num_paths == 0
            || self.num_steps_per_path == 0 {
            return Err(InvalidInput::InvalidMonteCarloParameters);
        }
        let points: usize = match self.num_steps_per_path.checked_add(1) {
            Some(n) => n,
            None => {
                return Err(InvalidInput::TooManySteps);
            },
        };
        let process = GeometricBrownianMotion {
            drift: self.underlying_drift,
            volatility: self.underlying_volatility,
        };
        let seeds = path_seeds(seed, self.num_paths);
        let mut requests: Vec<PathRequest> = Vec::new();
        let mut i: usize = 0;
        while i < self.num_paths
            invariant
                i <= self.num_paths,
                seeds@.len() == self.num_paths,
                forall|j: int|
                    0 <= j < self.num_paths ==> seeds@[j] == sub_path_seed(seed, j as nat),
                points == self.num_steps_per_path + 1,
                process == (GeometricBrownianMotion {
                    drift: self.underlying_drift,
                    volatility: self.underlying_volatility,
                }),
                requests@.len() == i,
                forall|j: int| 0 <= j < i ==> requests@[j] == self.request(seed, dt, j as nat),
            decreases self.num_paths - i,
        {
            requests.push(
                PathRequest {
                    process,
                    initial_value: self.underlying_initial_price,
                    dt,
                    steps: points,
                    seed: seeds[i],
                },
            );
            i = i + 1;
        }
        assert(requests@ =~= self.requests(seed, dt));
        Ok(requests)
    }
}

/// Reads the price at maturity off each simulated path: the price at its
/// last point. The prices keep the order of the paths. `None` exactly when
/// some path has no point at all.
pub fn terminal_prices(paths: &Vec<TimeSeries>) -> (r: Option<Vec<Binary64>>)
    ensures
        r is Some <==> forall|i: int| 0 <= i < paths@.len() ==> (#[trigger] paths@[i]).prices@.len() > 0,
        match r {
            Some(prices) => {
                &&& prices@.len() == paths@.len()
                &&& forall|i: int|
                    0 <= i < prices@.len() ==> #[trigger] prices@[i] == paths@[i].prices@[
                        paths@[i].prices@.len() - 1
                    ]
            },
            None => true,
        },
{
    let mut prices: Vec<Binary64> = Vec::new();
    let mut i: usize = 0;
    while i < paths.len()
        invariant
            i <= paths@.len(),
            prices@.len() == i,
            forall|j: int| 0 <= j < i ==> (#[trigger] paths@[j]).prices@.len() > 0,
            forall|j: int|
                0 <= j < i ==> #[trigger] prices@[j] == paths@[j].prices@[paths@[j].prices@.len()
                    - 1],
        decreases paths@.len() - i,
    {
        match paths[i].last_price() {
            Some(price) => {
                prices.push(price);
            },
            None => {
                assert(!(paths@[i as int].prices@.len() > 0));
                return None;
            },
        }
        i = i + 1;
    }
    Some(prices)
}

} // verus!
