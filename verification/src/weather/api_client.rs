//! The client of the weather provider: where a city lies, what the provider
//! is asked, how its answer is read, and in which order cache, permits and
//! pacing come into play.
//!
//! The call to the provider is made by whoever drives the client. A lookup
//! answers from the cache or says that the provider has to be asked. A call
//! is then opened, which takes a permit and paces the call, and closed again
//! when the provider has answered or the call has failed.
use vstd::prelude::*;
use vstd::string::*;
use crate::http_client::{HttpClient, DEFAULT_MAX_RETRIES, DEFAULT_TIMEOUT_SECS};
use crate::models::{Measurement, WeatherData, WeatherModel};
use crate::text::{lowercase, same_text, to_lowercase};
use crate::weather::cache::{read, written, EntryModel, WeatherCache};
use crate::weather::rate_limit::{fire_time, interval_for, on_clock, permits_for, RateLimiter};

verus! {

/// The cities whose coordinates are known.
#[derive(Debug, Clone, Copy, PartialEq, Eq, Structural)]
pub enum KnownCity {
    London,
    Tokyo,
    NewYork,
    Paris,
    Berlin,
    Moscow,
    Beijing,
    Sydney,
    RioDeJaneiro,
    Cairo,
}

/// The known city that a lowercase name stands for.
pub open spec fn known_city(key: Seq<char>) -> Option<KnownCity> {
    if key == "london"@ {
        Some(KnownCity::London)
    } else if key == "tokyo"@ {
        Some(KnownCity::Tokyo)
    } else if key == "new york"@ || key == "new+york"@ {
        Some(KnownCity::NewYork)
    } else if key == "paris"@ {
        Some(KnownCity::Paris)
    } else if key == "berlin"@ {
        Some(KnownCity::Berlin)
    } else if key == "moscow"@ {
        Some(KnownCity::Moscow)
    } else if key == "beijing"@ {
        Some(KnownCity::Beijing)
    } else if key == "sydney"@ {
        Some(KnownCity::Sydney)
    } else if key == "rio de janeiro"@ || key == "rio+de+janeiro"@ {
        Some(KnownCity::RioDeJaneiro)
    } else if key == "cairo"@ {
        Some(KnownCity::Cairo)
    } else {
        None
    }
}

/// Latitude in decimal degrees, as it is written into a URL; zero for a
/// place that is not known.
pub open spec fn latitude_text(place: Option<KnownCity>) -> Seq<char> {
    match place {
        Some(KnownCity::London) => "51.5074"@,
        Some(KnownCity::Tokyo) => "35.6762"@,
        Some(KnownCity::NewYork) => "40.7128"@,
        Some(KnownCity::Paris) => "48.8566"@,
        Some(KnownCity::Berlin) => "52.52"@,
        Some(KnownCity::Moscow) => "55.7558"@,
        Some(KnownCity::Beijing) => "39.9042"@,
        Some(KnownCity::Sydney) => "-33.8688"@,
        Some(KnownCity::RioDeJaneiro) => "-22.9068"@,
        Some(KnownCity::Cairo) => "30.0444"@,
        None => "0"@,
    }
}

/// Longitude in decimal degrees, as it is written into a URL; zero for a
/// place that is not known.
pub open spec fn longitude_text(place: Option<KnownCity>) -> Seq<char> {
    match place {
        Some(KnownCity::London) => "-0.1278"@,
        Some(KnownCity::Tokyo) => "139.6503"@,
        Some(KnownCity::NewYork) => "-74.006"@,
        Some(KnownCity::Paris) => "2.3522"@,
        Some(KnownCity::Berlin) => "13.405"@,
        Some(KnownCity::Moscow) => "37.6173"@,
        Some(KnownCity::Beijing) => "116.4074"@,
        Some(KnownCity::Sydney) => "151.2093"@,
        Some(KnownCity::RioDeJaneiro) => "-43.1729"@,
        Some(KnownCity::Cairo) => "31.2357"@,
        None => "0"@,
    }
}

/// The short description of the weather that a provider code stands for.
pub open spec fn condition_text(code: int) -> Seq<char> {
    if code == 0 {
        "Clear sky"@
    } else if 1 <= code <= 3 {
        "Partly cloudy"@
    } else if code == 45 || code == 48 {
        "Foggy"@
    } else if code == 51 || code == 53 || code == 55 {
        "Drizzle"@
    } else if code == 61 || code == 63 || code == 65 {
        "Rain"@
    } else if code == 71 || code == 73 || code == 75 {
        "Snow"@
    } else if 80 <= code <= 82 {
        "Rain showers"@
    } else if code == 85 || code == 86 {
        "Snow showers"@
    } else if code == 95 {
        "Thunderstorm"@
    } else if code == 96 || code == 99 {
        "Thunderstorm with hail"@
    } else {
        "Unknown"@
    }
}

/// The query that asks the provider for the current conditions.
pub open spec fn current_fields() -> Seq<char> {
    "&current=temperature_2m,relative_humidity_2m,wind_speed_10m,weather_code"@
}

/// The URL at which the provider at `base` is asked about `city`.
pub open spec fn provider_url(base: Seq<char>, city: Seq<char>) -> Seq<char> {
    let place = known_city(lowercase(city));
    base + "?latitude="@ + latitude_text(place) + "&longitude="@ + longitude_text(place)
        + current_fields()
}

/// The current conditions as the provider reports them.
#[derive(Debug, Clone, Copy, PartialEq, Eq, Structural)]
pub struct CurrentWeather {
    pub temperature_2m: Measurement,
    pub relative_humidity_2m: Option<Measurement>,
    pub wind_speed_10m: Option<Measurement>,
    pub weather_code: Option<u32>,
}

/// The provider's answer.
#[derive(Debug, Clone, Copy, PartialEq, Eq, Structural)]
pub struct OpenMeteoResponse {
    pub current: CurrentWeather,
}

/// The sample that the provider's answer stands for. An answer without a
/// weather code counts as code zero.
pub open spec fn sample_of(response: OpenMeteoResponse) -> WeatherModel {
    WeatherModel {
        temperature: response.current.temperature_2m,
        condition: condition_text(
            match response.current.weather_code {
                Some(code) => code as int,
                None => 0,
            },
        ),
        humidity: response.current.relative_humidity_2m,
        wind_speed: response.current.wind_speed_10m,
    }
}

/// Tells which known city a lowercase name stands for.
pub fn find_city(key: &str) -> (place: Option<KnownCity>)
    ensures
        place == known_city(key@),
{
    if same_text(key, "london") {
        Some(KnownCity::London)
    } else if same_text(key, "tokyo") {
        Some(KnownCity::Tokyo)
    } else if same_text(key, "new york") || same_text(key, "new+york") {
        Some(KnownCity::NewYork)
    } else if same_text(key, "paris") {
        Some(KnownCity::Paris)
    } else if same_text(key, "berlin") {
        Some(KnownCity::Berlin)
    } else if same_text(key, "moscow") {
        Some(KnownCity::Moscow)
    } else if same_text(key, "beijing") {
        Some(KnownCity::Beijing)
    } else if same_text(key, "sydney") {
        Some(KnownCity::Sydney)
    } else if same_text(key, "rio de janeiro") || same_text(key, "rio+de+janeiro") {
        Some(KnownCity::RioDeJaneiro)
    } else if same_text(key, "cairo") {
        Some(KnownCity::Cairo)
    } else {
        None
    }
}

/// Latitude of a place in decimal degrees, zero for one that is not known.
pub fn latitude_of(place: Option<KnownCity>) -> (text: &'static str)
    ensures
        text@ == latitude_text(place),
{
    match place {
        Some(KnownCity::London) => "51.5074",
        Some(KnownCity::Tokyo) => "35.6762",
        Some(KnownCity::NewYork) => "40.7128",
        Some(KnownCity::Paris) => "48.8566",
        Some(KnownCity::Berlin) => "52.52",
        Some(KnownCity::Moscow) => "55.7558",
        Some(KnownCity::Beijing) => "39.9042",
        Some(KnownCity::Sydney) => "-33.8688",
        Some(KnownCity::RioDeJaneiro) => "-22.9068",
        Some(KnownCity::Cairo) => "30.0444",
        None => "0",
    }
}

/// Longitude of a place in decimal degrees, zero for one that is not known.
pub fn longitude_of(place: Option<KnownCity>) -> (text: &'static str)
    ensures
        text@ == longitude_text(place),
{
    match place {
        Some(KnownCity::London) => "-0.1278",
        Some(KnownCity::Tokyo) => "139.6503",
        Some(KnownCity::NewYork) => "-74.006",
        Some(KnownCity::Paris) => "2.3522",
        Some(KnownCity::Berlin) => "13.405",
        Some(KnownCity::Moscow) => "37.6173",
        Some(KnownCity::Beijing) => "116.4074",
        Some(KnownCity::Sydney) => "151.2093",
        Some(KnownCity::RioDeJaneiro) => "-43.1729",
        Some(KnownCity::Cairo) => "31.2357",
        None => "0",
    }
}

/// What a lookup of the weather of a city comes to.
#[derive(Debug)]
pub enum WeatherLookup {
    /// The cache holds a sample that still counts.
    Cached(WeatherData),
    /// The provider has to be asked, at this URL.
    Fetch { url: String },
}

/// A call to the provider that was opened: how long to wait before it is
/// made, and where it goes.
#[derive(Debug)]
pub struct FetchPlan {
    pub wait_ms: u64,
    pub url: String,
}

/// The client of one weather provider, with its cache and its limiter.
pub struct OpenMeteoClient {
    pub http_client: HttpClient,
    pub cache: WeatherCache,
    pub base_url: String,
    pub limiter: RateLimiter,
}

impl OpenMeteoClient {
    /// The limiter of the client is sound.
    pub open spec fn wf(&self) -> bool {
        self.limiter.wf()
    }

    /// A client of the provider at `base_url` that answers from `cache` where
    /// it can and keeps to `rate_limit_per_minute` calls per minute.
    pub fn new(cache: WeatherCache, base_url: String, rate_limit_per_minute: u32) -> (c:
        OpenMeteoClient)
        ensures
            c.wf(),
            c.cache == cache,
            c.base_url@ == base_url@,
            c.http_client == (HttpClient {
                max_retries: DEFAULT_MAX_RETRIES,
                timeout_secs: DEFAULT_TIMEOUT_SECS,
            }),
            c.limiter.permits() == permits_for(rate_limit_per_minute as nat),
            c.limiter.interval() == interval_for(rate_limit_per_minute as nat),
            c.limiter.in_flight() == 0,
            c.limiter.last() is None,
    {
        OpenMeteoClient {
            http_client: HttpClient::default(),
            cache,
            base_url,
            limiter: RateLimiter::new(rate_limit_per_minute),
        }
    }

    /// Latitude of `city` in decimal degrees.
    pub fn get_latitude(&self, city: &str) -> (text: &'static str)
        ensures
            text@ == latitude_text(known_city(lowercase(city@))),
    {
        latitude_of(find_city(to_lowercase(city).as_str()))
    }

    /// Longitude of `city` in decimal degrees.
    pub fn get_longitude(&self, city: &str) -> (text: &'static str)
        ensures
            text@ == longitude_text(known_city(lowercase(city@))),
    {
        longitude_of(find_city(to_lowercase(city).as_str()))
    }

    /// The short description of the weather that `code` stands for.
    pub fn weather_code_to_condition(&self, code: u32) -> (text: String)
        ensures
            text@ == condition_text(code as int),
    {
        let text: &str = if code == 0 {
            "Clear sky"
        } else if 1 <= code && code <= 3 {
            "Partly cloudy"
        } else if code == 45 || code == 48 {
            "Foggy"
        } else if code == 51 || code == 53 || code == 55 {
            "Drizzle"
        } else if code == 61 || code == 63 || code == 65 {
            "Rain"
        } else if code == 71 || code == 73 || code == 75 {
            "Snow"
        } else if 80 <= code && code <= 82 {
            "Rain showers"
        } else if code == 85 || code == 86 {
            "Snow showers"
        } else if code == 95 {
            "Thunderstorm"
        } else if code == 96 || code == 99 {
            "Thunderstorm with hail"
        } else {
            "Unknown"
        };
        String::from_str(text)
    }

    /// The URL at which the provider is asked about `city`.
    pub fn weather_url(&self, city: &str) -> (url: String)
        ensures
            url@ == provider_url(self.base_url@, city@),
    {
        let place = find_city(to_lowercase(city).as_str());
        self.base_url.clone().concat("?latitude=").concat(latitude_of(place)).concat(
            "&longitude=",
        ).concat(longitude_of(place)).concat(
            "&current=temperature_2m,relative_humidity_2m,wind_speed_10m,weather_code",
        )
    }

    /// Looks `city` up at the instant `now`: a cached sample that still
    /// counts is the answer; without one, the provider has to be asked.
    pub fn get_weather(&self, city: &str, now: u64) -> (step: WeatherLookup)
        ensures
            match read(self.cache.entries(), city@, now as nat) {
                Some(sample) => step matches WeatherLookup::Cached(data) && data@ == sample,
                None => step matches WeatherLookup::Fetch { url } && url@ == provider_url(
                    self.base_url@,
                    city@,
                ),
            },
    {
        match self.cache.get(city, now) {
            Some(data) => WeatherLookup::Cached(data),
            None => WeatherLookup::Fetch { url: self.weather_url(city) },
        }
    }

    /// Turns the provider's answer into a sample.
    pub fn to_sample(&self, response: &OpenMeteoResponse) -> (data: WeatherData)
        ensures
            data@ == sample_of(*response),
    {
        let code: u32 = match response.current.weather_code {
            Some(code) => code,
            None => 0,
        };
        WeatherData {
            temperature: response.current.temperature_2m,
            condition: self.weather_code_to_condition(code),
            humidity: response.current.relative_humidity_2m,
            wind_speed: response.current.wind_speed_10m,
        }
    }

    /// Opens a call to the provider about `city`, ready at the instant `now`:
    /// takes a permit, paces the call to fire no sooner than one interval
    /// after the call before it, and names the URL to fetch. Without a free
    /// permit nothing is opened and nothing changes.
    pub fn begin_fetch(&mut self, city: &str, now: u64) -> (plan: Option<FetchPlan>)
        requires
            old(self).wf(),
        ensures
            final(self).wf(),
            final(self).cache == old(self).cache,
            final(self).base_url == old(self).base_url,
            final(self).http_client == old(self).http_client,
            final(self).limiter.permits() == old(self).limiter.permits(),
            final(self).limiter.interval() == old(self).limiter.interval(),
            plan is Some <==> old(self).limiter.in_flight() < old(self).limiter.permits(),
            plan is Some ==> {
                &&& plan->Some_0.wait_ms == on_clock(
                    fire_time(old(self).limiter.last(), old(self).limiter.interval(), now as nat),
                ) - now
                &&& plan->Some_0.url@ == provider_url(old(self).base_url@, city@)
                &&& final(self).limiter.in_flight() == old(self).limiter.in_flight() + 1
                &&& final(self).limiter.last() == Some(
                    on_clock(
                        fire_time(
                            old(self).limiter.last(),
                            old(self).limiter.interval(),
                            now as nat,
                        ),
                    ),
                )
            },
            plan is None ==> {
                &&& final(self).limiter.in_flight() == old(self).limiter.in_flight()
                &&& final(self).limiter.last() == old(self).limiter.last()
            },
    {
        if !self.limiter.try_acquire() {
            return None;
        }
        let wait_ms = self.limiter.debounce(now);
        let url = self.weather_url(city);
        Some(FetchPlan { wait_ms, url })
    }

    /// Closes a call to the provider about `city` that was answered at the
    /// instant `now`: the answer becomes a sample, the sample is filed in the
    /// cache, and the permit of the call is free again.
    pub fn complete(&mut self, city: &str, response: &OpenMeteoResponse, now: u64) -> (data:
        WeatherData)
        requires
            old(self).wf(),
        ensures
            final(self).wf(),
            data@ == sample_of(*response),
            final(self).cache.ttl() == old(self).cache.ttl(),
            final(self).cache.entries() == written(
                old(self).cache.entries(),
                city@,
                sample_of(*response),
                now as nat,
                old(self).cache.ttl(),
            ),
            final(self).limiter.in_flight() == if old(self).limiter.in_flight() > 0 {
                (old(self).limiter.in_flight() - 1) as nat
            } else {
                0
            },
            final(self).limiter.permits() == old(self).limiter.permits(),
            final(self).limiter.interval() == old(self).limiter.interval(),
            final(self).limiter.last() == old(self).limiter.last(),
            final(self).base_url == old(self).base_url,
            final(self).http_client == old(self).http_client,
    {
        let data = self.to_sample(response);
        self.cache.set(String::from_str(city), data.clone(), now);
        self.limiter.release();
        data
    }

    /// Closes a call to the provider that failed: nothing is filed, and the
    /// permit of the call is free again.
    pub fn abandon(&mut self)
        requires
            old(self).wf(),
        ensures
            final(self).wf(),
            final(self).limiter.in_flight() == if old(self).limiter.in_flight() > 0 {
                (old(self).limiter.in_flight() - 1) as nat
            } else {
                0
            },
            final(self).limiter.permits() == old(self).limiter.permits(),
            final(self).limiter.interval() == old(self).limiter.interval(),
            final(self).limiter.last() == old(self).limiter.last(),
            final(self).cache == old(self).cache,
            final(self).base_url == old(self).base_url,
            final(self).http_client == old(self).http_client,
    {
        self.limiter.release();
    }
}

/// A city that was just taken in is answered from the cache, under any
/// spelling that normalises to the same name, until its time-to-live has
/// passed: the provider is not asked again.
pub proof fn lemma_second_lookup_is_cached(
    entries: Map<Seq<char>, EntryModel>,
    city: Seq<char>,
    probe: Seq<char>,
    response: OpenMeteoResponse,
    taken_in: nat,
    ttl_seconds: nat,
    now: nat,
)
    requires
        crate::text::normalized(probe) == crate::text::normalized(city),
        now < taken_in + ttl_seconds * 1000,
    ensures
        read(written(entries, city, sample_of(response), taken_in, ttl_seconds), probe, now)
            == Some(sample_of(response)),
{
}

} // verus!
