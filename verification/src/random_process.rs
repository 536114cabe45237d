use vstd::prelude::*;
use crate::binary64::Binary64;

verus! {

/// Calendar year in which every simulated path starts.
pub const PATH_START_YEAR: i32 = 2024;

/// Month of that year in which every simulated path starts.
pub const PATH_START_MONTH: u32 = 1;

/// Day of that month on which every simulated path starts, at midnight.
pub const PATH_START_DAY: u32 = 1;

/// The instant at which every simulated path starts, in seconds since
/// 1970-01-01T00:00:00: midnight at the start of the path start date, which
/// lies 19723 days after the first day of 1970.
pub const PATH_START_SECONDS: i64 = 1_704_067_200;

/// The first second the calendar can represent: midnight at the start of
/// the year 262144 before the common era, in seconds since
/// 1970-01-01T00:00:00.
pub const CALENDAR_FIRST_SECOND: i64 = -8_334_601_228_800;

/// The last second the calendar can represent: the last second of the year
/// 262142 of the common era, in seconds since 1970-01-01T00:00:00.
pub const CALENDAR_LAST_SECOND: i64 = 8_210_266_876_799;

/// Why the instants of a path could not be built.
#[derive(Clone, Copy, Debug, PartialEq, Eq, Structural)]
pub enum GridError {
    /// The path has more than one point and its step is not at least one
    /// second, so its instants would not increase.
    StepNotPositive,
    /// The first or the last instant of the path lies outside the calendar.
    OutOfCalendar,
}

/// Seconds between 1970-01-01T00:00:00 and the given calendar date and time
/// of day, or `None` where the fields do not name a date and time.
pub uninterp spec fn calendar_seconds(
    year: int,
    month: int,
    day: int,
    hour: int,
    minute: int,
    second: int,
) -> Option<int>;

/// Calls `chrono::NaiveDate::from_ymd_opt`, `NaiveDate::and_hms_opt`,
/// `NaiveDateTime::and_utc` and `DateTime::timestamp`.
///
/// Trusted: the result is the calendar's own count of non-leap seconds since
/// 1970-01-01T00:00:00 for these six fields, a function of the fields alone;
/// and for midnight at the start of 2024-01-01 that count is 19723 days of
/// 86400 seconds. Nothing else is claimed about its value.
#[verifier::external_body]
fn seconds_at(year: i32, month: u32, day: u32, hour: u32, minute: u32, second: u32) -> (r: Option<
    i64,
>)
    ensures
        calendar_seconds(year as int, month as int, day as int, hour as int, minute as int, second as int)
            == match r {
            Some(s) => Some(s as int),
            None => None::<int>,
        },
        year == 2024 && month == 1 && day == 1 && hour == 0 && minute == 0 && second == 0 ==> r
            == Some(1_704_067_200i64),
{
    let date = chrono::NaiveDate::from_ymd_opt(year, month, day)?;
    let instant = date.and_hms_opt(hour, minute, second)?;
    Some(instant.and_utc().timestamp())
}

/// Returns the instant of the first point of every path, in seconds since
/// 1970-01-01T00:00:00.
pub fn path_start() -> (r: i64)
    ensures
        r == PATH_START_SECONDS,
        calendar_seconds(
            PATH_START_YEAR as int,
            PATH_START_MONTH as int,
            PATH_START_DAY as int,
            0,
            0,
            0,
        ) == Some(r as int),
{
    seconds_at(PATH_START_YEAR, PATH_START_MONTH, PATH_START_DAY, 0, 0, 0).unwrap()
}

/// The calendar can represent the instant.
pub open spec fn in_calendar(instant: int) -> bool {
    CALENDAR_FIRST_SECOND <= instant <= CALENDAR_LAST_SECOND
}

/// The instant that lies `seconds` after `instant`, both in seconds since
/// 1970-01-01T00:00:00: their sum, where the calendar can represent both the
/// instant and the sum, and nothing otherwise. Between two instants of the
/// calendar there is no span too long for it.
pub open spec fn shifted_instant(instant: int, seconds: int) -> Option<int> {
    if in_calendar(instant) && in_calendar(instant + seconds) {
        Some(instant + seconds)
    } else {
        None
    }
}

/// Calls `chrono::NaiveDateTime::checked_add_signed`, on the date and time
/// that `DateTime::from_timestamp` gives for `instant` and the span that
/// `TimeDelta::try_seconds` gives for `seconds`, and reads the sum back with
/// `DateTime::timestamp`.
///
/// Trusted: the sum exists exactly when the instant and the sum both lie
/// between the first and the last second of the calendar, and then it is
/// the sum of the two arguments as numbers.
#[verifier::external_body]
fn shift_instant(instant: i64, seconds: i64) -> (r: Option<i64>)
    ensures
        shifted_instant(instant as int, seconds as int) == match r {
            Some(s) => Some(s as int),
            None => None::<int>,
        },
{
    let base = chrono::DateTime::from_timestamp(instant, 0)?.naive_utc();
    let span = chrono::TimeDelta::try_seconds(seconds)?;
    let sum = base.checked_add_signed(span)?;
    Some(sum.and_utc().timestamp())
}

/// The instant of point `i` on a grid that starts at `start` and moves on by
/// `step` seconds from one point to the next.
pub open spec fn grid_instant(start: int, step: int, i: int) -> int {
    start + i * step
}

/// The instants lie on the grid that starts at `start` and moves on by
/// `step` seconds from one point to the next.
pub open spec fn on_grid(instants: Seq<i64>, start: int, step: int) -> bool {
    forall|i: int| 0 <= i < instants.len() ==> #[trigger] instants[i] == grid_instant(start, step, i)
}

/// Each instant lies strictly after the one before it.
pub open spec fn strictly_increasing(instants: Seq<i64>) -> bool {
    forall|i: int, j: int| 0 <= i < j < instants.len() ==> instants[i] < instants[j]
}

/// Why a grid of `points` points cannot be built, if it cannot. A grid of
/// at most one point takes no step and can always be built. Any other needs
/// a step of at least one second, and its first and its last instant within
/// the calendar; the step is looked at first.
pub open spec fn grid_fault(start: int, step: int, points: nat) -> Option<GridError> {
    if points <= 1 {
        None
    } else if step <= 0 {
        Some(GridError::StepNotPositive)
    } else if !in_calendar(start) || !in_calendar(grid_instant(start, step, points - 1)) {
        Some(GridError::OutOfCalendar)
    } else {
        None
    }
}

/// Builds the instants of a path: `points` of them, the first at `start`,
/// each `step_seconds` after the one before, so that they increase strictly.
pub fn time_grid(start: i64, step_seconds: i64, points: usize) -> (r: Result<Vec<i64>, GridError>)
    ensures
        match r {
            Ok(v) => {
                &&& grid_fault(start as int, step_seconds as int, points as nat) is None
                &&& v@.len() == points
                &&& on_grid(v@, start as int, step_seconds as int)
                &&& strictly_increasing(v@)
            },
            Err(e) => grid_fault(start as int, step_seconds as int, points as nat) == Some(e),
        },
{
    let mut instants: Vec<i64> = Vec::new();
    if points == 0 {
        return Ok(instants);
    }
    if points == 1 {
        instants.push(start);
        assert(grid_instant(start as int, step_seconds as int, 0) == start as int);
        return Ok(instants);
    }
    if step_seconds <= 0 {
        return Err(GridError::StepNotPositive);
    }
    let mut current: i64 = start;
    let mut i: usize = 0;
    assert(grid_instant(start as int, step_seconds as int, 0) == start as int);
    loop
        invariant_except_break
            i < points,
            points > 1,
            step_seconds > 0,
            instants@.len() == i,
            current as int == grid_instant(start as int, step_seconds as int, i as int),
            on_grid(instants@, start as int, step_seconds as int),
            i > 0 ==> in_calendar(start as int) && in_calendar(current as int),
        ensures
            points > 1,
            step_seconds > 0,
            instants@.len() == points,
            on_grid(instants@, start as int, step_seconds as int),
            in_calendar(start as int),
            in_calendar(grid_instant(start as int, step_seconds as int, points - 1)),
        decreases points - i,
    {
        instants.push(current);
        if i + 1 == points {
            break ;
        }
        assert(grid_instant(start as int, step_seconds as int, i as int + 1) == grid_instant(
            start as int,
            step_seconds as int,
            i as int,
        ) + step_seconds as int) by (nonlinear_arith);
        match shift_instant(current, step_seconds) {
            Some(next) => {
                current = next;
            },
            None => {
                proof {
                    if in_calendar(start as int) {
                        // The step from point `i` leaves the calendar at its far
                        // end, and the last point lies further out still.
                        assert(grid_instant(start as int, step_seconds as int, points - 1)
                            >= grid_instant(start as int, step_seconds as int, i as int + 1))
                            by (nonlinear_arith)
                            requires
                                i + 1 <= points - 1,
                                step_seconds > 0,
                        ;
                    }
                }
                return Err(GridError::OutOfCalendar);
            },
        }
        i = i + 1;
    }
    proof {
        lemma_grid_strictly_increasing(instants@, start as int, step_seconds as int);
    }
    Ok(instants)
}

/// Instants on a grid with a positive step are strictly increasing, and each
/// lies exactly `step` seconds after the one before it.
pub proof fn lemma_grid_strictly_increasing(instants: Seq<i64>, start: int, step: int)
    requires
        on_grid(instants, start, step),
        step > 0,
    ensures
        forall|i: int|
            0 <= i && i + 1 < instants.len() ==> #[trigger] instants[i + 1] == instants[i] + step,
        strictly_increasing(instants),
{
    assert forall|i: int| 0 <= i && i + 1 < instants.len() implies #[trigger] instants[i + 1]
        == instants[i] + step by {
        assert((i + 1) * step == i * step + step) by (nonlinear_arith);
    }
    assert forall|i: int, j: int| 0 <= i < j < instants.len() implies instants[i] < instants[j] by {
        assert(i * step < j * step) by (nonlinear_arith)
            requires
                i < j,
                step > 0,
        ;
    }
}

/// The instants of a path of `points` points whose step is `step_seconds`,
/// from the path start on.
pub fn path_instants(step_seconds: i64, points: usize) -> (r: Result<Vec<i64>, GridError>)
    ensures
        match r {
            Ok(v) => {
                &&& grid_fault(PATH_START_SECONDS as int, step_seconds as int, points as nat) is None
                &&& v@.len() == points
                &&& on_grid(v@, PATH_START_SECONDS as int, step_seconds as int)
                &&& strictly_increasing(v@)
            },
            Err(e) => grid_fault(PATH_START_SECONDS as int, step_seconds as int, points as nat)
                == Some(e),
        },
{
    time_grid(path_start(), step_seconds, points)
}

/// A geometric Brownian motion: the drift and the volatility of one asset,
/// both per year.
#[derive(Clone, Copy, Debug, PartialEq, Eq, Structural)]
pub struct GeometricBrownianMotion {
    pub drift: Binary64,
    pub volatility: Binary64,
}

/// One call of the path generator: the process, the value of the first
/// point, the step in days, the number of points, and the seed.
#[derive(Clone, Copy, Debug, PartialEq, Eq, Structural)]
pub struct PathRequest {
    pub process: GeometricBrownianMotion,
    pub initial_value: Binary64,
    pub dt: Binary64,
    pub steps: usize,
    pub seed: Option<u64>,
}

/// A path: instants in seconds since 1970-01-01T00:00:00, and one price for
/// each instant.
#[derive(Clone, Debug)]
pub struct TimeSeries {
    pub timestamps: Vec<i64>,
    pub prices: Vec<Binary64>,
}

impl TimeSeries {
    /// There is exactly one price for each instant.
    pub open spec fn well_formed(&self) -> bool {
        self.timestamps@.len() == self.prices@.len()
    }

    /// The number of points.
    pub open spec fn spec_len(&self) -> nat {
        self.timestamps@.len()
    }

    /// Puts instants and prices together. `None` exactly when there is not
    /// one price for each instant.
    pub fn assemble(timestamps: Vec<i64>, prices: Vec<Binary64>) -> (r: Option<TimeSeries>)
        ensures
            r is Some <==> timestamps@.len() == prices@.len(),
            match r {
                Some(series) => series.timestamps@ == timestamps@ && series.prices@ == prices@
                    && series.well_formed(),
                None => true,
            },
    {
        if timestamps.len() == prices.len() {
            Some(TimeSeries { timestamps, prices })
        } else {
            None
        }
    }

    /// Puts a generated path together: the first point carries the initial
    /// value of the request, and the points after it carry the values that
    /// the generator computed, in order. `None` exactly when there are not as
    /// many instants as the request has points, or not one computed value
    /// for each point after the first.
    pub fn of_path(request: &PathRequest, instants: Vec<i64>, later_prices: Vec<Binary64>) -> (r:
        Option<TimeSeries>)
        ensures
            r is Some <==> instants@.len() == request.steps && (if request.steps == 0 {
                later_prices@.len() == 0
            } else {
                later_prices@.len() + 1 == request.steps
            }),
            match r {
                Some(series) => {
                    &&& series.well_formed()
                    &&& series.timestamps@ == instants@
                    &&& series.prices@.len() == request.steps
                    &&& request.steps > 0 ==> series.prices@[0] == request.initial_value
                    &&& forall|i: int|
                        0 <= i < later_prices@.len() ==> series.prices@[i + 1]
                            == #[trigger] later_prices@[i]
                },
                None => true,
            },
    {
        if instants.len() != request.steps {
            return None;
        }
        let mut prices: Vec<Binary64> = Vec::new();
        if request.steps == 0 {
            if later_prices.len() != 0 {
                return None;
            }
            return Some(TimeSeries { timestamps: instants, prices });
        }
        if later_prices.len() != request.steps - 1 {
            return None;
        }
        prices.push(request.initial_value);
        let mut i: usize = 0;
        while i < later_prices.len()
            invariant
                i <= later_prices@.len(),
                prices@.len() == i + 1,
                prices@[0] == request.initial_value,
                forall|j: int| 0 <= j < i ==> prices@[j + 1] == #[trigger] later_prices@[j],
            decreases later_prices@.len() - i,
        {
            prices.push(later_prices[i]);
            i = i + 1;
        }
        Some(TimeSeries { timestamps: instants, prices })
    }

    /// The number of points.
    pub fn len(&self) -> (r: usize)
        ensures
            r == self.spec_len(),
    {
        self.timestamps.len()
    }

    /// The price at the last point, if the path has any point.
    pub fn last_price(&self) -> (r: Option<Binary64>)
        ensures
            r == if self.prices@.len() == 0 {
                None
            } else {
                Some(self.prices@[self.prices@.len() - 1])
            },
    {
        let n = self.prices.len();
        if n == 0 {
            None
        } else {
            Some(self.prices[n - 1])
        }
    }

    /// The same instants under new prices: what a composer returns that
    /// reprices a path point by point. `None` exactly when there is not one
    /// new price for each instant.
    pub fn reprice(self, prices: Vec<Binary64>) -> (r: Option<TimeSeries>)
        ensures
            r is Some <==> self.timestamps@.len() == prices@.len(),
            match r {
                Some(series) => series.timestamps@ == self.timestamps@ && series.prices@
                    == prices@ && series.well_formed(),
                None => true,
            },
    {
        TimeSeries::assemble(self.timestamps, prices)
    }
}

/// The seed of the sub-path at position `index` under a base seed: the base
/// seed moved on by the position, modulo 2^64.
pub open spec fn derived_seed(base: u64, index: nat) -> u64 {
    ((base as int + index as int) % 0x1_0000_0000_0000_0000) as u64
}

/// The seed of sub-path `index`, where a base seed is given; an unseeded
/// request leaves every sub-path unseeded.
pub open spec fn sub_path_seed(base: Option<u64>, index: nat) -> Option<u64> {
    match base {
        Some(s) => Some(derived_seed(s, index)),
        None => None,
    }
}

/// Derives the seed of the sub-path at position `index`.
pub fn derive_seed(base: Option<u64>, index: usize) -> (r: Option<u64>)
    ensures
        r == sub_path_seed(base, index as nat),
{
    match base {
        Some(s) => {
            let offset: u64 = index as u64;
            let seed: u64 = s.wrapping_add(offset);
            Some(seed)
        },
        None => None,
    }
}

/// Derives the seeds of `count` sub-paths, in position order.
pub fn path_seeds(base: Option<u64>, count: usize) -> (r: Vec<Option<u64>>)
    ensures
        r@.len() == count,
        forall|i: int| 0 <= i < count ==> r@[i] == sub_path_seed(base, i as nat),
{
    let mut seeds: Vec<Option<u64>> = Vec::new();
    let mut i: usize = 0;
    while i < count
        invariant
            i <= count,
            seeds@.len() == i,
            forall|j: int| 0 <= j < i ==> seeds@[j] == sub_path_seed(base, j as nat),
        decreases count - i,
    {
        let seed = derive_seed(base, i);
        seeds.push(seed);
        i = i + 1;
    }
    seeds
}

/// Seeds depend on the base seed and the position alone, so two runs over the
/// same request start every sub-path from the same seed; and under one base
/// seed, two positions less than 2^64 apart never share a seed.
pub proof fn lemma_seeds_distinct(base: u64, i: nat, j: nat)
    requires
        i < j,
        j - i < 0x1_0000_0000_0000_0000,
    ensures
        derived_seed(base, i) != derived_seed(base, j),
{
    let m = 0x1_0000_0000_0000_0000int;
    let a = base as int + i as int;
    let b = base as int + j as int;
    if a % m == b % m {
        vstd::arithmetic::div_mod::lemma_fundamental_div_mod(a, m);
        vstd::arithmetic::div_mod::lemma_fundamental_div_mod(b, m);
        let qa = a / m;
        let qb = b / m;
        assert(b - a == m * (qb - qa)) by (nonlinear_arith)
            requires
                a == m * qa + a % m,
                b == m * qb + b % m,
                a % m == b % m,
        ;
        assert(false) by (nonlinear_arith)
            requires
                0 < b - a < m,
                b - a == m * (qb - qa),
        ;
    }
}

} // verus!
