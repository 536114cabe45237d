use vstd::prelude::*;
use crate::binary64::Binary64;
use crate::error::InvalidInput;
use crate::stock_simulation::stock_plan;
use crate::random_process::{
    derive_seed,
    sub_path_seed,
    GeometricBrownianMotion,
    PathRequest,
    TimeSeries,
};

verus! {

/// One asset held by a fund.
#[derive(Clone, Debug)]
pub struct EtfConstituent {
    pub symbol: String,
    pub initial_price: Binary64,
    pub drift: Binary64,
    pub volatility: Binary64,
    /// Proportion of the fund held in this asset.
    pub weight: Binary64,
}

/// A fund and the simulation asked of it.
#[derive(Clone, Debug)]
pub struct EtfDefinition {
    pub constituents: Vec<EtfConstituent>,
    /// Number of points of the simulated path.
    pub simulation_days: usize,
    /// Length of one simulation step, in days.
    pub time_step_days: Binary64,
    pub seed: Option<u64>,
}

/// How far the sum of the weights may lie from one: the binary64 encoding
/// of a millionth.
pub const WEIGHT_SUM_ACCURACY: u64 = 0x3EB0_C6F7_A0B5_ED8D;

/// The weights are off balance: their sum minus one, taken without its sign,
/// is greater than the tolerance.
pub open spec fn weights_off_balance(weight_sum_error: Binary64) -> bool {
    weight_sum_error.spec_abs().greater_than(Binary64 { bits: WEIGHT_SUM_ACCURACY })
}

impl EtfConstituent {
    /// The fault of this constituent, if it has one, where it stands at
    /// position `index`. The price is looked at first, then the volatility,
    /// then the weight. A weight of zero is no fault.
    pub open spec fn fault(&self, index: nat) -> Option<InvalidInput> {
        if self.initial_price.sign().at_most_zero() {
            Some(InvalidInput::ConstituentNonPositivePrice(index as usize))
        } else if self.volatility.sign().below_zero() {
            Some(InvalidInput::ConstituentNegativeVolatility(index as usize))
        } else if self.weight.sign().below_zero() {
            Some(InvalidInput::ConstituentNegativeWeight(index as usize))
        } else {
            None
        }
    }

    /// The path this constituent is simulated by in a fund of the given
    /// simulation length, time step and base seed, where it stands at
    /// position `index`: its own price, drift and volatility, and the base
    /// seed moved on by its position.
    pub open spec fn request(
        &self,
        index: nat,
        simulation_days: usize,
        time_step_days: Binary64,
        seed: Option<u64>,
    ) -> PathRequest {
        PathRequest {
            process: GeometricBrownianMotion { drift: self.drift, volatility: self.volatility },
            initial_value: self.initial_price,
            dt: time_step_days,
            steps: simulation_days,
            seed: sub_path_seed(seed, index),
        }
    }
}

impl EtfDefinition {
    /// The request-level error, if there is one: no constituents, weights
    /// off balance, zero simulation days, or a time step not above zero,
    /// checked in this order and before any constituent is looked at.
    pub open spec fn request_fault(&self, weight_sum_error: Binary64) -> Option<InvalidInput> {
        if self.constituents@.len() == 0 {
            Some(InvalidInput::EmptyConstituents)
        } else if weights_off_balance(weight_sum_error) {
            Some(InvalidInput::UnbalancedWeights)
        } else if self.simulation_days == 0 {
            Some(InvalidInput::ZeroSimulationDays)
        } else if self.time_step_days.sign().at_most_zero() {
            Some(InvalidInput::NonPositiveTimeStep)
        } else {
            None
        }
    }

    /// No constituent before position `upto` has a fault.
    pub open spec fn sound_before(&self, upto: int) -> bool {
        forall|j: int|
            0 <= j < upto && j < self.constituents@.len() ==> (
            #[trigger] self.constituents@[j].fault(j as nat)) is None
    }

    /// `e` is the fault that a walk over the constituents in request order
    /// meets first.
    pub open spec fn first_fault(&self, e: InvalidInput) -> bool {
        exists|i: int|
            0 <= i < self.constituents@.len() && self.sound_before(i)
                && #[trigger] self.constituents@[i].fault(i as nat) == Some(e)
    }

    /// The fund is accepted: no request-level error and no faulty
    /// constituent.
    pub open spec fn accepted(&self, weight_sum_error: Binary64) -> bool {
        self.request_fault(weight_sum_error) is None && self.sound_before(
            self.constituents@.len() as int,
        )
    }

    /// The fund is rejected with `e`: either `e` is the request-level error,
    /// or there is none and `e` is the first constituent fault.
    pub open spec fn rejected_with(&self, weight_sum_error: Binary64, e: InvalidInput) -> bool {
        self.request_fault(weight_sum_error) == Some(e) || (self.request_fault(weight_sum_error)
            is None && self.first_fault(e))
    }

    /// The paths an accepted fund is simulated by: one for each constituent,
    /// in request order.
    pub open spec fn requests(&self) -> Seq<PathRequest> {
        Seq::new(
            self.constituents@.len(),
            |i: int|
                self.constituents@[i].request(
                    i as nat,
                    self.simulation_days,
                    self.time_step_days,
                    self.seed,
                ),
        )
    }
}

/// Checks a fund and, where it is accepted, says which paths to generate:
/// one for each constituent, in request order, each of as many points as
/// simulation days. `weight_sum_error` is the sum of the constituent weights
/// minus one.
///
/// An error is found before any path is asked for.
pub fn plan_etf_nav(etf_def: &EtfDefinition, weight_sum_error: Binary64) -> (r: Result<
    Vec<PathRequest>,
    InvalidInput,
>)
    ensures
        r is Ok <==> etf_def.accepted(weight_sum_error),
        match r {
            Ok(requests) => requests@ == etf_def.requests(),
            Err(e) => etf_def.rejected_with(weight_sum_error, e),
        },
{
    if etf_def.constituents.len() == 0 {
        return Err(InvalidInput::EmptyConstituents);
    }
    if weight_sum_error.abs().exceeds(Binary64 { bits: WEIGHT_SUM_ACCURACY }) {
        return Err(InvalidInput::UnbalancedWeights);
    }
    if etf_def.simulation_days == 0 {
        return Err(InvalidInput::ZeroSimulationDays);
    }
    if etf_def.time_step_days.is_non_positive() {
        return Err(InvalidInput::NonPositiveTimeStep);
    }
    let mut requests: Vec<PathRequest> = Vec::new();
    let mut i: usize = 0;
    while i < etf_def.constituents.len()
        invariant
            i <= etf_def.constituents@.len(),
            etf_def.request_fault(weight_sum_error) is None,
            etf_def.sound_before(i as int),
            requests@.len() == i,
            forall|j: int| 0 <= j < i ==> requests@[j] == etf_def.requests()[j],
        decreases etf_def.constituents@.len() - i,
    {
        let constituent = &etf_def.constituents[i];
        let ghost k = i as int;
        if constituent.initial_price.is_non_positive() {
            proof {
                assert(etf_def.constituents@[k].fault(k as nat) == Some(
                    InvalidInput::ConstituentNonPositivePrice(i),
                ));
                lemma_first_fault_excludes_sound(
                    etf_def,
                    InvalidInput::ConstituentNonPositivePrice(i),
                );
            }
            return Err(InvalidInput::ConstituentNonPositivePrice(i));
        }
        if constituent.volatility.is_negative() {
            proof {
                assert(etf_def.constituents@[k].fault(k as nat) == Some(
                    InvalidInput::ConstituentNegativeVolatility(i),
                ));
                lemma_first_fault_excludes_sound(
                    etf_def,
                    InvalidInput::ConstituentNegativeVolatility(i),
                );
            }
            return Err(InvalidInput::ConstituentNegativeVolatility(i));
        }
        if constituent.weight.is_negative() {
            proof {
                assert(etf_def.constituents@[k].fault(k as nat) == Some(
                    InvalidInput::ConstituentNegativeWeight(i),
                ));
                lemma_first_fault_excludes_sound(
                    etf_def,
                    InvalidInput::ConstituentNegativeWeight(i),
                );
            }
            return Err(InvalidInput::ConstituentNegativeWeight(i));
        }
        assert(etf_def.constituents@[k].fault(k as nat) is None);
        let process = GeometricBrownianMotion {
            drift: constituent.drift,
            volatility: constituent.volatility,
        };
        requests.push(
            PathRequest {
                process,
                initial_value: constituent.initial_price,
                dt: etf_def.time_step_days,
                steps: etf_def.simulation_days,
                seed: derive_seed(etf_def.seed, i),
            },
        );
        i = i + 1;
    }
    assert(requests@ =~= etf_def.requests());
    Ok(requests)
}

/// Puts the path of the fund together from the paths of its constituents
/// and the values computed from them: the instants are those of the first
/// constituent's path, the prices are the values. `None` exactly when there
/// is no constituent path, or not one value for each of its instants.
pub fn nav_series(constituent_paths: &Vec<TimeSeries>, nav_values: Vec<Binary64>) -> (r: Option<
    TimeSeries,
>)
    ensures
        r is Some <==> constituent_paths@.len() > 0 && constituent_paths@[0].timestamps@.len()
            == nav_values@.len(),
        match r {
            Some(series) => series.timestamps@ == constituent_paths@[0].timestamps@
                && series.prices@ == nav_values@ && series.well_formed(),
            None => true,
        },
{
    if constituent_paths.len() == 0 {
        return None;
    }
    let first = &constituent_paths[0];
    let mut timestamps: Vec<i64> = Vec::new();
    let mut i: usize = 0;
    while i < first.timestamps.len()
        invariant
            i <= first.timestamps@.len(),
            timestamps@ == first.timestamps@.subrange(0, i as int),
        decreases first.timestamps@.len() - i,
    {
        timestamps.push(first.timestamps[i]);
        assert(timestamps@ =~= first.timestamps@.subrange(0, i as int + 1));
        i = i + 1;
    }
    assert(timestamps@ =~= first.timestamps@);
    TimeSeries::assemble(timestamps, nav_values)
}

/// A fund with a first fault is not free of faults.
pub proof fn lemma_first_fault_excludes_sound(etf_def: &EtfDefinition, e: InvalidInput)
    requires
        etf_def.first_fault(e),
    ensures
        !etf_def.sound_before(etf_def.constituents@.len() as int),
{
    let i = choose|i: int|
        0 <= i < etf_def.constituents@.len() && etf_def.sound_before(i)
            && #[trigger] etf_def.constituents@[i].fault(i as nat) == Some(e);
    assert(etf_def.constituents@[i].fault(i as nat) is Some);
}

/// A fund is rejected with at most one error, and a rejected fund is not
/// accepted: the verdict is a function of the request.
pub proof fn lemma_rejection_unique(
    etf_def: &EtfDefinition,
    weight_sum_error: Binary64,
    e1: InvalidInput,
    e2: InvalidInput,
)
    requires
        etf_def.rejected_with(weight_sum_error, e1),
        etf_def.rejected_with(weight_sum_error, e2),
    ensures
        e1 == e2,
        !etf_def.accepted(weight_sum_error),
{
    let cs = etf_def.constituents@;
    if etf_def.request_fault(weight_sum_error) is None {
        let i1 = choose|i: int|
            0 <= i < cs.len() && etf_def.sound_before(i) && #[trigger] cs[i].fault(i as nat)
                == Some(e1);
        let i2 = choose|i: int|
            0 <= i < cs.len() && etf_def.sound_before(i) && #[trigger] cs[i].fault(i as nat)
                == Some(e2);
        if i1 < i2 {
            assert(cs[i1].fault(i1 as nat) is None);
        }
        if i2 < i1 {
            assert(cs[i2].fault(i2 as nat) is None);
        }
        lemma_first_fault_excludes_sound(etf_def, e1);
    }
}

/// A fund is never accepted when it has no constituents, when its weights
/// are off balance, when it asks for zero simulation days, when its time
/// step is not above zero, or when the constituent at some position `k` has
/// a price not above zero, a negative volatility or a negative weight.
pub proof fn lemma_etf_rejects(etf_def: &EtfDefinition, weight_sum_error: Binary64, k: int)
    requires
        etf_def.constituents@.len() == 0 || weights_off_balance(weight_sum_error)
            || etf_def.simulation_days == 0 || etf_def.time_step_days.sign().at_most_zero() || (0
            <= k < etf_def.constituents@.len() && (
        etf_def.constituents@[k].initial_price.sign().at_most_zero()
            || etf_def.constituents@[k].volatility.sign().below_zero()
            || etf_def.constituents@[k].weight.sign().below_zero())),
    ensures
        !etf_def.accepted(weight_sum_error),
{
    if etf_def.request_fault(weight_sum_error) is None {
        assert(etf_def.constituents@[k].fault(k as nat) is Some);
    }
}

/// An accepted fund is simulated by one path for each constituent, every
/// path of as many points as simulation days and with the fund's time step.
/// The first constituent runs under the base seed itself, so a fund of one
/// constituent draws the very path that a single-asset simulation of that
/// constituent under the same seed draws.
pub proof fn lemma_etf_requests_shape(etf_def: &EtfDefinition)
    ensures
        etf_def.requests().len() == etf_def.constituents@.len(),
        forall|i: int|
            0 <= i < etf_def.requests().len() ==> (#[trigger] etf_def.requests()[i]).steps
                == etf_def.simulation_days && etf_def.requests()[i].dt == etf_def.time_step_days,
        etf_def.constituents@.len() > 0 ==> etf_def.requests()[0].seed == etf_def.seed,
{
}

/// A fund of a single constituent, where it is accepted, is simulated by
/// exactly the path by which the single-asset simulation of that constituent
/// is: same process, same initial price, same number of points, same time
/// step and same seed.
pub proof fn lemma_single_constituent_is_stock_path(
    etf_def: &EtfDefinition,
    weight_sum_error: Binary64,
)
    requires
        etf_def.constituents@.len() == 1,
        etf_def.accepted(weight_sum_error),
    ensures
        etf_def.requests().len() == 1,
        stock_plan(
            etf_def.constituents@[0].initial_price,
            etf_def.constituents@[0].drift,
            etf_def.constituents@[0].volatility,
            etf_def.simulation_days,
            etf_def.time_step_days,
            etf_def.seed,
        ) == Ok::<PathRequest, InvalidInput>(etf_def.requests()[0]),
{
    let k = 0int;
    assert(etf_def.sound_before(1));
    assert(etf_def.constituents@[k].fault(k as nat) is None);
}

} // verus!
