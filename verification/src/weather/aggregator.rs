//! Joins weather and time for a batch of cities, one independent result per
//! city, and summarises how the batch fared.
use vstd::prelude::*;
use vstd::string::*;
use crate::errors::{AppError, ErrorModel};
use crate::models::{
    city_models, successes, texts, AggregateModel, AggregateResponse, CityData, CityModel,
    ResponseSummary, SummaryModel, TimeData, TimeModel, WeatherData, WeatherModel,
};

verus! {

/// Largest number of cities that one request may name.
pub const MAX_CITIES: usize = 20;

/// Number of city tasks that may hold a permit at one time.
pub const FAN_OUT_LIMIT: usize = 10;

/// Seconds granted to each of the two fetches of a city.
pub const FETCH_TIMEOUT_SECS: u64 = 10;

/// Whether a request naming `count` cities is accepted.
pub open spec fn city_count_ok(count: int) -> bool {
    1 <= count <= MAX_CITIES as int
}

/// Model of the outcome of a weather fetch.
pub open spec fn weather_outcome(r: Result<WeatherData, AppError>) -> Result<
    WeatherModel,
    ErrorModel,
> {
    match r {
        Ok(w) => Ok(w@),
        Err(e) => Err(e@),
    }
}

/// Model of the outcome of a time fetch.
pub open spec fn time_outcome(r: Result<TimeData, AppError>) -> Result<TimeModel, ErrorModel> {
    match r {
        Ok(t) => Ok(t@),
        Err(e) => Err(e@),
    }
}

/// How the task of one city ended.
#[derive(Debug)]
pub enum TaskOutcome {
    /// The request was cancelled before or while the city was fetched.
    Cancelled,
    /// The fan-out gate was closed while the task waited for a permit.
    GateClosed,
    /// Both fetches ran to an end, each with its own outcome.
    Fetched { weather: Result<WeatherData, AppError>, time: Result<TimeData, AppError> },
    /// The task itself was lost before it could report.
    JoinFailed,
}

/// Mathematical model of a [`TaskOutcome`].
pub enum OutcomeModel {
    Cancelled,
    GateClosed,
    Fetched { weather: Result<WeatherModel, ErrorModel>, time: Result<TimeModel, ErrorModel> },
    JoinFailed,
}

impl View for TaskOutcome {
    type V = OutcomeModel;

    open spec fn view(&self) -> OutcomeModel {
        match *self {
            TaskOutcome::Cancelled => OutcomeModel::Cancelled,
            TaskOutcome::GateClosed => OutcomeModel::GateClosed,
            TaskOutcome::Fetched { weather, time } => OutcomeModel::Fetched {
                weather: weather_outcome(weather),
                time: time_outcome(time),
            },
            TaskOutcome::JoinFailed => OutcomeModel::JoinFailed,
        }
    }
}

/// The failure strings of a weather fetch: none, or its message behind
/// `"Weather: "`.
pub open spec fn weather_failures(r: Result<WeatherModel, ErrorModel>) -> Seq<Seq<char>> {
    match r {
        Ok(_) => Seq::empty(),
        Err(e) => seq!["Weather: "@ + e.text()],
    }
}

/// The failure strings of a time fetch: none, or its message behind
/// `"Time: "`.
pub open spec fn time_failures(r: Result<TimeModel, ErrorModel>) -> Seq<Seq<char>> {
    match r {
        Ok(_) => Seq::empty(),
        Err(e) => seq!["Time: "@ + e.text()],
    }
}

/// The result of a city whose two fetches ended with `weather` and `time`:
/// each success is kept, each failure is reported, weather before time.
pub open spec fn fetched_city(
    city: Seq<char>,
    weather: Result<WeatherModel, ErrorModel>,
    time: Result<TimeModel, ErrorModel>,
) -> CityModel {
    CityModel {
        city,
        weather: match weather {
            Ok(w) => Some(w),
            Err(_) => None,
        },
        time: match time {
            Ok(t) => Some(t),
            Err(_) => None,
        },
        errors: weather_failures(weather) + time_failures(time),
    }
}

/// A result that carries no data and the single failure `reason`.
pub open spec fn failed_city(city: Seq<char>, reason: Seq<char>) -> CityModel {
    CityModel { city, weather: None, time: None, errors: seq![reason] }
}

/// The result that a city's task outcome stands for.
pub open spec fn city_result(city: Seq<char>, outcome: OutcomeModel) -> CityModel {
    match outcome {
        OutcomeModel::Cancelled => failed_city(city, "Request cancelled"@),
        OutcomeModel::GateClosed => failed_city(city, "Semaphore closed"@),
        OutcomeModel::Fetched { weather, time } => fetched_city(city, weather, time),
        OutcomeModel::JoinFailed => failed_city(city, "Task join error"@),
    }
}

/// The outcome reported for the city at `index`; a city without a report
/// counts as a lost task.
pub open spec fn outcome_at(outcomes: Seq<TaskOutcome>, index: int) -> OutcomeModel {
    if 0 <= index < outcomes.len() {
        outcomes[index]@
    } else {
        OutcomeModel::JoinFailed
    }
}

/// The per-city results of a batch, in the order of the request.
pub open spec fn batch_results(cities: Seq<String>, outcomes: Seq<TaskOutcome>) -> Seq<CityModel> {
    Seq::new(cities.len(), |i: int| city_result(cities[i]@, outcome_at(outcomes, i)))
}

/// The whole answer to a batch.
pub open spec fn batch_response(cities: Seq<String>, outcomes: Seq<TaskOutcome>) -> AggregateModel {
    let results = batch_results(cities, outcomes);
    AggregateModel {
        cities: results,
        summary: SummaryModel {
            total: cities.len(),
            successful: successes(results),
            failed: (cities.len() - successes(results)) as nat,
        },
    }
}

fn failure_text(prefix: &str, error: &AppError) -> (r: String)
    ensures
        r@ == prefix@ + error@.text(),
{
    String::from_str(prefix).concat(error.message().as_str())
}

/// The result of a city that yields no data, for the single `reason`.
pub fn failed_result(city: &str, reason: &str) -> (r: CityData)
    ensures
        r@ == failed_city(city@, reason@),
{
    let mut errors: Vec<String> = Vec::new();
    errors.push(String::from_str(reason));
    let r = CityData { city: String::from_str(city), weather: None, time: None, errors };
    assert(r@.errors =~= seq![reason@]);
    r
}

/// Builds the result of one city from the outcomes of its two fetches.
///
/// The outcomes are independent: a fetch that succeeded is kept whatever
/// became of the other one.
pub fn process_city(
    city: &str,
    weather: &Result<WeatherData, AppError>,
    time: &Result<TimeData, AppError>,
) -> (r: CityData)
    ensures
        r@ == fetched_city(city@, weather_outcome(*weather), time_outcome(*time)),
{
    let mut errors: Vec<String> = Vec::new();
    let kept_weather = match weather {
        Ok(w) => Some(w.clone()),
        Err(e) => {
            errors.push(failure_text("Weather: ", e));
            None
        },
    };
    assert(texts(errors@) =~= weather_failures(weather_outcome(*weather)));
    let kept_time = match time {
        Ok(t) => Some(t.clone()),
        Err(e) => {
            errors.push(failure_text("Time: ", e));
            None
        },
    };
    assert(texts(errors@) =~= weather_failures(weather_outcome(*weather)) + time_failures(
        time_outcome(*time),
    ));
    CityData { city: String::from_str(city), weather: kept_weather, time: kept_time, errors }
}

/// The result that the outcome of a city's task stands for.
pub fn task_result(city: &str, outcome: &TaskOutcome) -> (r: CityData)
    ensures
        r@ == city_result(city@, outcome@),
{
    match outcome {
        TaskOutcome::Cancelled => failed_result(city, "Request cancelled"),
        TaskOutcome::GateClosed => failed_result(city, "Semaphore closed"),
        TaskOutcome::Fetched { weather, time } => process_city(city, weather, time),
        TaskOutcome::JoinFailed => failed_result(city, "Task join error"),
    }
}

/// Folding one more result into the count of successes.
proof fn lemma_successes_push(results: Seq<CityModel>, next: CityModel)
    ensures
        successes(results.push(next)) == successes(results) + if next.successful() {
            1nat
        } else {
            0nat
        },
{
    assert(results.push(next).drop_last() =~= results);
}

/// The answer to a fetch that may have run out of time: the fetch's own
/// outcome, or a timeout naming the city when nothing came back in time.
pub open spec fn within_deadline<T>(
    what: Seq<char>,
    city: Seq<char>,
    outcome: Option<Result<T, AppError>>,
    r: Result<T, AppError>,
) -> bool {
    match outcome {
        Some(inner) => r == inner,
        None => r is Err && r->Err_0@ == ErrorModel::Timeout(
            what + " fetch for "@ + city + " timed out"@,
        ),
    }
}

fn deadline_passed(what: &str, city: &str) -> (e: AppError)
    ensures
        e@ == ErrorModel::Timeout(what@ + " fetch for "@ + city@ + " timed out"@),
{
    let text = String::from_str(what).concat(" fetch for ").concat(city).concat(" timed out");
    AppError::TimeoutError(text)
}

/// Settles the weather fetch of `city`: `outcome` is what the fetch returned,
/// or `None` when its deadline passed first.
pub fn fetch_weather(city: &str, outcome: Option<Result<WeatherData, AppError>>) -> (r: Result<
    WeatherData,
    AppError,
>)
    ensures
        within_deadline("Weather"@, city@, outcome, r),
{
    match outcome {
        Some(inner) => inner,
        None => Err(deadline_passed("Weather", city)),
    }
}

/// Settles the time fetch of `city`: `outcome` is what the fetch returned, or
/// `None` when its deadline passed first.
pub fn fetch_time(city: &str, outcome: Option<Result<TimeData, AppError>>) -> (r: Result<
    TimeData,
    AppError,
>)
    ensures
        within_deadline("Time"@, city@, outcome, r),
{
    match outcome {
        Some(inner) => inner,
        None => Err(deadline_passed("Time", city)),
    }
}

/// The aggregation rules of one weather service.
pub struct Aggregator {
    time_service_url: String,
    fan_out_limit: usize,
}

impl Aggregator {
    /// Base address of the time service.
    pub closed spec fn time_service(&self) -> Seq<char> {
        self.time_service_url@
    }

    /// Number of city tasks that may run at one time.
    pub closed spec fn limit(&self) -> nat {
        self.fan_out_limit as nat
    }

    /// An aggregator that asks `time_service_url` for the time and lets
    /// [`FAN_OUT_LIMIT`] city tasks run at once.
    pub fn new(time_service_url: String) -> (a: Aggregator)
        ensures
            a.time_service() == time_service_url@,
            a.limit() == FAN_OUT_LIMIT,
    {
        Aggregator { time_service_url, fan_out_limit: FAN_OUT_LIMIT }
    }

    /// An aggregator with a fan-out limit of its own.
    pub fn with_limit(time_service_url: String, fan_out_limit: usize) -> (a: Aggregator)
        ensures
            a.time_service() == time_service_url@,
            a.limit() == fan_out_limit,
    {
        Aggregator { time_service_url, fan_out_limit }
    }

    pub fn fan_out_limit(&self) -> (n: usize)
        ensures
            n == self.limit(),
    {
        self.fan_out_limit
    }

    /// Address at which the time service answers for `city`.
    pub fn time_url(&self, city: &str) -> (url: String)
        ensures
            url@ == self.time_service() + "/api/time/"@ + city@,
    {
        self.time_service_url.clone().concat("/api/time/").concat(city)
    }

    /// Accepts a request of one to twenty cities and rejects every other.
    pub fn validate(cities: &Vec<String>) -> (r: Result<(), AppError>)
        ensures
            r is Ok <==> city_count_ok(cities@.len() as int),
            r is Err ==> r->Err_0@ == ErrorModel::Validation(
                "Must provide between 1 and 20 cities"@,
            ),
    {
        if cities.len() == 0 || cities.len() > MAX_CITIES {
            Err(AppError::validation("Must provide between 1 and 20 cities"))
        } else {
            Ok(())
        }
    }

    /// Answers a request for `cities`, given how the task of each city ended.
    ///
    /// Only the size of the request can fail it. Every other failure stays
    /// with its city: the answer lists one result per city, in the order of
    /// the request, and counts the results without a failure.
    pub fn aggregate(&self, cities: Vec<String>, outcomes: Vec<TaskOutcome>) -> (r: Result<
        AggregateResponse,
        AppError,
    >)
        ensures
            r is Ok <==> city_count_ok(cities@.len() as int),
            r is Err ==> r->Err_0@ == ErrorModel::Validation(
                "Must provide between 1 and 20 cities"@,
            ),
            r is Ok ==> r->Ok_0@ == batch_response(cities@, outcomes@),
    {
        match Aggregator::validate(&cities) {
            Err(e) => { return Err(e); },
            Ok(_) => {},
        }
        let mut results: Vec<CityData> = Vec::new();
        let mut successful: usize = 0;
        let lost = TaskOutcome::JoinFailed;
        let mut i: usize = 0;
        while i < cities.len()
            invariant
                i <= cities.len(),
                cities.len() <= MAX_CITIES,
                lost@ == OutcomeModel::JoinFailed,
                results@.len() == i,
                city_models(results@) =~= batch_results(cities@, outcomes@).take(i as int),
                successful == successes(city_models(results@)),
                successful <= i,
            decreases cities.len() - i,
        {
            let outcome = if i < outcomes.len() {
                &outcomes[i]
            } else {
                &lost
            };
            let entry = task_result(cities[i].as_str(), outcome);
            proof {
                lemma_successes_push(city_models(results@), entry@);
                assert(city_models(results@.push(entry)) =~= city_models(results@).push(entry@));
            }
            if entry.errors.len() == 0 {
                successful = successful + 1;
            }
            results.push(entry);
            i = i + 1;
        }
        let total = results.len();
        proof {
            let all = batch_results(cities@, outcomes@);
            assert(all.take(all.len() as int) =~= all);
        }
        Ok(
            AggregateResponse {
                cities: results,
                summary: ResponseSummary { total, successful, failed: total - successful },
            },
        )
    }
}

/// An accepted request is answered with one result per city, each under the
/// city's own spelling and at the city's own place in the request.
pub proof fn lemma_results_follow_request(cities: Seq<String>, outcomes: Seq<TaskOutcome>)
    ensures
        batch_response(cities, outcomes).cities.len() == cities.len(),
        forall|i: int|
            0 <= i < cities.len() ==> (#[trigger] batch_response(cities, outcomes).cities[i]).city
                == cities[i]@,
{
}

/// The summary of an answer adds up: every city is counted once, as
/// successful or as failed, and the total is the number of cities listed.
pub proof fn lemma_summary_consistent(cities: Seq<String>, outcomes: Seq<TaskOutcome>)
    ensures
        batch_response(cities, outcomes).consistent(),
        batch_response(cities, outcomes).summary.successful + batch_response(
            cities,
            outcomes,
        ).summary.failed == batch_response(cities, outcomes).summary.total,
        batch_response(cities, outcomes).summary.total == batch_response(
            cities,
            outcomes,
        ).cities.len(),
{
    crate::models::lemma_successes_bounded(batch_results(cities, outcomes));
}

/// A city is counted as successful exactly when both of its fetches
/// succeeded.
pub proof fn lemma_success_means_both(
    city: Seq<char>,
    weather: Result<WeatherModel, ErrorModel>,
    time: Result<TimeModel, ErrorModel>,
)
    ensures
        fetched_city(city, weather, time).successful() <==> weather is Ok && time is Ok,
{
}

} // verus!
