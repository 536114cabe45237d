use vstd::prelude::*;

verus! {

/// Why a request was turned down. Every variant is an invalid-input error:
/// it depends on the request alone and is raised before any path is drawn.
#[derive(Clone, Copy, Debug, PartialEq, Eq, Structural)]
pub enum InvalidInput {
    /// The initial (or initial spot) price is zero or negative.
    NonPositiveInitialPrice,
    /// The volatility is negative.
    NegativeVolatility,
    /// The time step is zero or negative.
    NonPositiveTimeStep,
    /// The number of steps is zero.
    ZeroSteps,
    /// The underlying price handed to the analytic pricer is zero or negative.
    NonPositiveUnderlyingPrice,
    /// The strike price handed to the analytic pricer is zero or negative.
    NonPositiveStrikePrice,
    /// The rate is so negative that the discount factor is not finite.
    UnstableRiskFreeRate,
    /// The volatility handed to the analytic pricer is zero or negative.
    NonPositiveVolatility,
    /// A maturity not above zero, or a zero path or step count, in a Monte
    /// Carlo request.
    InvalidMonteCarloParameters,
    /// The step count is so large that the number of points of a path, one
    /// more than the number of steps, cannot be represented.
    TooManySteps,
    /// The fund has no constituents.
    EmptyConstituents,
    /// The constituent weights do not add up to one.
    UnbalancedWeights,
    /// The number of simulation days is zero.
    ZeroSimulationDays,
    /// The constituent at this position has a zero or negative initial price.
    ConstituentNonPositivePrice(usize),
    /// The constituent at this position has a negative volatility.
    ConstituentNegativeVolatility(usize),
    /// The constituent at this position has a negative weight.
    ConstituentNegativeWeight(usize),
}

} // verus!
