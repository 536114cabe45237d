use vstd::prelude::*;
use crate::binary64::Binary64;
use crate::error::InvalidInput;
use crate::random_process::{GeometricBrownianMotion, PathRequest};

verus! {

/// A futures contract on one underlying asset.
#[derive(Clone, Debug)]
pub struct FuturesContract {
    pub underlying_symbol: String,
    pub initial_spot_price: Binary64,
    pub risk_free_rate: Binary64,
    /// Volatility of the underlying spot price.
    pub volatility: Binary64,
    /// Time to maturity at the first point, in days.
    pub time_to_maturity_days: u32,
    /// Length of one simulation step, in days.
    pub time_step_days: Binary64,
    pub seed: Option<u64>,
}

/// The number of points of a futures path: a contract that matures today has
/// the single point of today; any other has one point for the start and one
/// for the end of each of its `num_steps` steps.
pub open spec fn futures_points(time_to_maturity_days: nat, num_steps: nat) -> nat {
    if time_to_maturity_days == 0 {
        1
    } else {
        num_steps + 1
    }
}

impl FuturesContract {
    /// The error of the contract, if it has one: the spot price must be above
    /// zero, the volatility must not be negative, and the time step must be
    /// above zero, checked in this order. A maturity of zero days is no error.
    pub open spec fn fault(&self) -> Option<InvalidInput> {
        if self.initial_spot_price.sign().at_most_zero() {
            Some(InvalidInput::NonPositiveInitialPrice)
        } else if self.volatility.sign().below_zero() {
            Some(InvalidInput::NegativeVolatility)
        } else if self.time_step_days.sign().at_most_zero() {
            Some(InvalidInput::NonPositiveTimeStep)
        } else {
            None
        }
    }

    /// The spot path that an accepted contract is simulated by: the spot
    /// price drifts at the risk-free rate, under the contract's volatility,
    /// time step and seed.
    pub open spec fn spot_request(&self, num_steps: nat) -> PathRequest {
        PathRequest {
            process: GeometricBrownianMotion {
                drift: self.risk_free_rate,
                volatility: self.volatility,
            },
            initial_value: self.initial_spot_price,
            dt: self.time_step_days,
            steps: futures_points(self.time_to_maturity_days as nat, num_steps) as usize,
            seed: self.seed,
        }
    }

    /// What the contract leads to, where `num_steps` steps cover its days to
    /// maturity: its error, or the spot path to generate. A path with more
    /// points than can be counted is an error too.
    pub open spec fn plan(&self, num_steps: nat) -> Result<PathRequest, InvalidInput> {
        match self.fault() {
            Some(e) => Err(e),
            None => if futures_points(self.time_to_maturity_days as nat, num_steps) > usize::MAX {
                Err(InvalidInput::TooManySteps)
            } else {
                Ok(self.spot_request(num_steps))
            },
        }
    }
}

/// Checks a futures contract and says which spot path to generate for it.
/// `num_steps` is the number of time steps that cover the days to maturity,
/// the last of them possibly in part.
pub fn plan_futures_price(contract: &FuturesContract, num_steps: usize) -> (r: Result<
    PathRequest,
    InvalidInput,
>)
    ensures
        r == contract.plan(num_steps as nat),
{
    if contract.initial_spot_price.is_non_positive() {
        return Err(InvalidInput::NonPositiveInitialPrice);
    }
    if contract.volatility.is_negative() {
        return Err(InvalidInput::NegativeVolatility);
    }
    if contract.time_step_days.is_non_positive() {
        return Err(InvalidInput::NonPositiveTimeStep);
    }
    let gbm_steps: usize = if contract.time_to_maturity_days == 0 {
        1
    } else {
        match num_steps.checked_add(1) {
            Some(n) => n,
            None => {
                return Err(InvalidInput::TooManySteps);
            },
        }
    };
    let process = GeometricBrownianMotion {
        drift: contract.risk_free_rate,
        volatility: contract.volatility,
    };
    Ok(
        PathRequest {
            process,
            initial_value: contract.initial_spot_price,
            dt: contract.time_step_days,
            steps: gbm_steps,
            seed: contract.seed,
        },
    )
}

/// A valid contract that matures today is simulated by a single point, whose
/// value is the initial spot price, whatever the number of steps handed in.
pub proof fn lemma_matured_contract_single_point(contract: &FuturesContract, num_steps: nat)
    requires
        contract.fault() is None,
        contract.time_to_maturity_days == 0,
    ensures
        contract.plan(num_steps) is Ok,
        contract.plan(num_steps)->Ok_0.steps == 1,
        contract.plan(num_steps)->Ok_0.initial_value == contract.initial_spot_price,
{
}

} // verus!
