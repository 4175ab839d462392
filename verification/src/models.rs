//! The values that travel between the services and their callers.
use vstd::prelude::*;

verus! {

/// A double-precision reading, carried by its IEEE-754 bit pattern so that it
/// is stored, copied and compared without loss.
#[derive(Debug, Clone, Copy, PartialEq, Eq, Structural)]
pub struct Measurement {
    pub bits: u64,
}

/// Weather conditions of one city at one moment.
#[derive(Debug)]
pub struct WeatherData {
    pub temperature: Measurement,
    pub condition: String,
    pub humidity: Option<Measurement>,
    pub wind_speed: Option<Measurement>,
}

/// Mathematical model of a [`WeatherData`].
pub struct WeatherModel {
    pub temperature: Measurement,
    pub condition: Seq<char>,
    pub humidity: Option<Measurement>,
    pub wind_speed: Option<Measurement>,
}

impl View for WeatherData {
    type V = WeatherModel;

    open spec fn view(&self) -> WeatherModel {
        WeatherModel {
            temperature: self.temperature,
            condition: self.condition@,
            humidity: self.humidity,
            wind_speed: self.wind_speed,
        }
    }
}

impl Clone for WeatherData {
    fn clone(&self) -> (r: WeatherData)
        ensures
            r@ == self@,
    {
        WeatherData {
            temperature: self.temperature,
            condition: self.condition.clone(),
            humidity: self.humidity,
            wind_speed: self.wind_speed,
        }
    }
}

/// Local time of one city at one moment.
#[derive(Debug)]
pub struct TimeData {
    pub datetime: String,
    pub timezone: String,
    pub unix_time: i64,
}

/// Mathematical model of a [`TimeData`].
pub struct TimeModel {
    pub datetime: Seq<char>,
    pub timezone: Seq<char>,
    pub unix_time: int,
}

impl View for TimeData {
    type V = TimeModel;

    open spec fn view(&self) -> TimeModel {
        TimeModel {
            datetime: self.datetime@,
            timezone: self.timezone@,
            unix_time: self.unix_time as int,
        }
    }
}

impl Clone for TimeData {
    fn clone(&self) -> (r: TimeData)
        ensures
            r@ == self@,
    {
        TimeData {
            datetime: self.datetime.clone(),
            timezone: self.timezone.clone(),
            unix_time: self.unix_time,
        }
    }
}

/// What an aggregation found out about one city.
#[derive(Debug)]
pub struct CityData {
    pub city: String,
    pub weather: Option<WeatherData>,
    pub time: Option<TimeData>,
    pub errors: Vec<String>,
}

/// Mathematical model of a [`CityData`].
pub struct CityModel {
    pub city: Seq<char>,
    pub weather: Option<WeatherModel>,
    pub time: Option<TimeModel>,
    pub errors: Seq<Seq<char>>,
}

impl CityModel {
    /// A city counts as successful when nothing failed for it.
    pub open spec fn successful(self) -> bool {
        self.errors.len() == 0
    }
}

/// The texts of a list of strings.
pub open spec fn texts(list: Seq<String>) -> Seq<Seq<char>> {
    Seq::new(list.len(), |i: int| list[i]@)
}

impl View for CityData {
    type V = CityModel;

    open spec fn view(&self) -> CityModel {
        CityModel {
            city: self.city@,
            weather: match self.weather {
                Some(w) => Some(w@),
                None => None,
            },
            time: match self.time {
                Some(t) => Some(t@),
                None => None,
            },
            errors: texts(self.errors@),
        }
    }
}

/// How many cities an aggregation covered, and how they fared.
#[derive(Debug, Clone, Copy, PartialEq, Eq, Structural)]
pub struct ResponseSummary {
    pub total: usize,
    pub successful: usize,
    pub failed: usize,
}

/// Mathematical model of a [`ResponseSummary`].
pub struct SummaryModel {
    pub total: nat,
    pub successful: nat,
    pub failed: nat,
}

impl View for ResponseSummary {
    type V = SummaryModel;

    open spec fn view(&self) -> SummaryModel {
        SummaryModel {
            total: self.total as nat,
            successful: self.successful as nat,
            failed: self.failed as nat,
        }
    }
}

/// The answer to one aggregate request.
#[derive(Debug)]
pub struct AggregateResponse {
    pub cities: Vec<CityData>,
    pub summary: ResponseSummary,
}

/// The models of a list of city results, in the same order.
pub open spec fn city_models(list: Seq<CityData>) -> Seq<CityModel> {
    Seq::new(list.len(), |i: int| list[i]@)
}

/// Number of successful entries among `cities`.
pub open spec fn successes(cities: Seq<CityModel>) -> nat
    decreases cities.len(),
{
    if cities.len() == 0 {
        0
    } else {
        successes(cities.drop_last()) + if cities.last().successful() {
            1nat
        } else {
            0nat
        }
    }
}

/// Mathematical model of an [`AggregateResponse`].
pub struct AggregateModel {
    pub cities: Seq<CityModel>,
    pub summary: SummaryModel,
}

impl AggregateModel {
    /// The summary agrees with the list: it counts every entry once, as
    /// successful or as failed.
    pub open spec fn consistent(self) -> bool {
        &&& self.summary.total == self.cities.len()
        &&& self.summary.successful == successes(self.cities)
        &&& self.summary.successful + self.summary.failed == self.summary.total
    }
}

impl View for AggregateResponse {
    type V = AggregateModel;

    open spec fn view(&self) -> AggregateModel {
        AggregateModel { cities: city_models(self.cities@), summary: self.summary@ }
    }
}

/// Claims carried by a bearer token.
#[derive(Debug, Clone)]
pub struct Claims {
    pub sub: String,
    pub exp: usize,
    pub role: String,
    pub permissions: Vec<String>,
}

/// Request to create a user.
#[derive(Debug)]
pub struct CreateUserRequest {
    pub username: String,
    pub email: String,
    pub password: String,
    pub role: Option<String>,
}

/// A user as shown to callers.
#[derive(Debug)]
pub struct UserResponse {
    pub id: String,
    pub username: String,
    pub email: String,
    pub role: String,
    pub created_at: String,
    pub updated_at: String,
}

/// Request to log in.
#[derive(Debug)]
pub struct LoginRequest {
    pub username: String,
    pub password: String,
}

/// Answer to a successful login.
#[derive(Debug)]
pub struct LoginResponse {
    pub token: String,
    pub user: UserResponse,
}

/// Successes never outnumber the entries.
pub proof fn lemma_successes_bounded(cities: Seq<CityModel>)
    ensures
        successes(cities) <= cities.len(),
    decreases cities.len(),
{
    if cities.len() > 0 {
        lemma_successes_bounded(cities.drop_last());
    }
}

} // verus!
