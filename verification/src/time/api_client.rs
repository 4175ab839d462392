//! The client of the time provider: in which zone a city lies, what the
//! provider is asked, how its answer is read, and how the cache is filled
//! ahead of the first request.
//!
//! The call to the provider is made by whoever drives the client. A lookup
//! answers from the cache or names the URL to fetch; once the provider has
//! answered, the client turns the answer into a sample and files it.
use vstd::prelude::*;
use vstd::string::*;
use vstd::utf8::encode_utf8;
use crate::http_client::{HttpClient, DEFAULT_MAX_RETRIES, DEFAULT_TIMEOUT_SECS};
use crate::models::{TimeData, TimeModel};
use crate::text::{lowercase, same_text, to_lowercase};
use crate::time::cache::{read, written, TimeCache};

verus! {

/// Whether a byte stands for itself in a URL: the ASCII letters and digits,
/// and the four marks `-`, `.`, `_` and `~`.
pub open spec fn unreserved(byte: u8) -> bool {
    ||| 0x30 <= byte <= 0x39
    ||| 0x41 <= byte <= 0x5a
    ||| 0x61 <= byte <= 0x7a
    ||| byte == 0x2d
    ||| byte == 0x2e
    ||| byte == 0x5f
    ||| byte == 0x7e
}

/// The digit of a value below sixteen, in upper case.
pub open spec fn hex_digit(value: u8) -> char {
    if value < 10 {
        (0x30 + value) as u8 as char
    } else {
        (0x41 + value - 10) as u8 as char
    }
}

/// One byte as it is written into a URL.
pub open spec fn encoded_byte(byte: u8) -> Seq<char> {
    if unreserved(byte) {
        seq![byte as char]
    } else {
        seq!['%', hex_digit(byte / 16), hex_digit(byte % 16)]
    }
}

/// A run of bytes as it is written into a URL.
pub open spec fn percent_encoded(bytes: Seq<u8>) -> Seq<char>
    decreases bytes.len(),
{
    if bytes.len() == 0 {
        Seq::empty()
    } else {
        percent_encoded(bytes.drop_last()) + encoded_byte(bytes.last())
    }
}

/// A text as it is written into a URL: its UTF-8 form, byte by byte.
pub open spec fn url_encoded(text: Seq<char>) -> Seq<char> {
    percent_encoded(encode_utf8(text))
}

/// `urlencoding::encode`. Trusted: every byte of the text's UTF-8 form is
/// kept if it is an ASCII letter, a digit or one of `-`, `.`, `_`, `~`, and
/// is written as `%` with two upper-case hexadecimal digits otherwise.
#[verifier::external_body]
fn url_encode(text: &str) -> (r: String)
    ensures
        r@ == url_encoded(text@),
{
    urlencoding::encode(text).into_owned()
}

/// The IANA zone of the city with the lowercase name `key`; UTC for a city
/// that is not known.
pub open spec fn timezone_of(key: Seq<char>) -> Seq<char> {
    if key == "london"@ {
        "Europe/London"@
    } else if key == "tokyo"@ {
        "Asia/Tokyo"@
    } else if key == "new york"@ || key == "new+york"@ {
        "America/New_York"@
    } else if key == "paris"@ {
        "Europe/Paris"@
    } else if key == "berlin"@ {
        "Europe/Berlin"@
    } else if key == "moscow"@ {
        "Europe/Moscow"@
    } else if key == "beijing"@ {
        "Asia/Shanghai"@
    } else if key == "sydney"@ {
        "Australia/Sydney"@
    } else if key == "rio de janeiro"@ || key == "rio+de+janeiro"@ {
        "America/Sao_Paulo"@
    } else if key == "cairo"@ {
        "Africa/Cairo"@
    } else if key == "los angeles"@ || key == "los+angeles"@ {
        "America/Los_Angeles"@
    } else if key == "chicago"@ {
        "America/Chicago"@
    } else if key == "toronto"@ {
        "America/Toronto"@
    } else if key == "mexico city"@ || key == "mexico+city"@ {
        "America/Mexico_City"@
    } else if key == "s\u{c3}\u{a3}o paulo"@ || key == "sao+paulo"@ {
        "America/Sao_Paulo"@
    } else if key == "buenos aires"@ || key == "buenos+aires"@ {
        "America/Argentina/Buenos_Aires"@
    } else if key == "dubai"@ {
        "Asia/Dubai"@
    } else if key == "mumbai"@ {
        "Asia/Kolkata"@
    } else if key == "singapore"@ {
        "Asia/Singapore"@
    } else if key == "hong kong"@ || key == "hong+kong"@ {
        "Asia/Hong_Kong"@
    } else {
        "UTC"@
    }
}

/// The URL at which the provider at `base` is asked about `city`: the base,
/// a slash and the city's zone.
pub open spec fn provider_url(base: Seq<char>, city: Seq<char>) -> Seq<char> {
    base + "/"@ + url_encoded(timezone_of(lowercase(city)))
}

/// The IANA zone of the city with the lowercase name `key`.
pub fn zone_for_key(key: &str) -> (zone: &'static str)
    ensures
        zone@ == timezone_of(key@),
{
    if same_text(key, "london") {
        "Europe/London"
    } else if same_text(key, "tokyo") {
        "Asia/Tokyo"
    } else if same_text(key, "new york") || same_text(key, "new+york") {
        "America/New_York"
    } else if same_text(key, "paris") {
        "Europe/Paris"
    } else if same_text(key, "berlin") {
        "Europe/Berlin"
    } else if same_text(key, "moscow") {
        "Europe/Moscow"
    } else if same_text(key, "beijing") {
        "Asia/Shanghai"
    } else if same_text(key, "sydney") {
        "Australia/Sydney"
    } else if same_text(key, "rio de janeiro") || same_text(key, "rio+de+janeiro") {
        "America/Sao_Paulo"
    } else if same_text(key, "cairo") {
        "Africa/Cairo"
    } else if same_text(key, "los angeles") || same_text(key, "los+angeles") {
        "America/Los_Angeles"
    } else if same_text(key, "chicago") {
        "America/Chicago"
    } else if same_text(key, "toronto") {
        "America/Toronto"
    } else if same_text(key, "mexico city") || same_text(key, "mexico+city") {
        "America/Mexico_City"
    } else if same_text(key, "s\u{c3}\u{a3}o paulo") || same_text(key, "sao+paulo") {
        "America/Sao_Paulo"
    } else if same_text(key, "buenos aires") || same_text(key, "buenos+aires") {
        "America/Argentina/Buenos_Aires"
    } else if same_text(key, "dubai") {
        "Asia/Dubai"
    } else if same_text(key, "mumbai") {
        "Asia/Kolkata"
    } else if same_text(key, "singapore") {
        "Asia/Singapore"
    } else if same_text(key, "hong kong") || same_text(key, "hong+kong") {
        "Asia/Hong_Kong"
    } else {
        "UTC"
    }
}

/// The provider's answer.
#[derive(Debug)]
pub struct WorldTimeApiResponse {
    pub datetime: String,
    pub timezone: String,
    pub unixtime: i64,
}

/// The sample that the provider's answer stands for.
pub open spec fn sample_of(response: WorldTimeApiResponse) -> TimeModel {
    TimeModel {
        datetime: response.datetime@,
        timezone: response.timezone@,
        unix_time: response.unixtime as int,
    }
}

/// What a lookup of the time of a city comes to.
#[derive(Debug)]
pub enum TimeLookup {
    /// The cache holds a sample.
    Cached(TimeData),
    /// The provider has to be asked, at this URL.
    Fetch { url: String },
}

/// The client of one time provider, with its cache.
pub struct WorldTimeApiClient {
    pub http_client: HttpClient,
    pub cache: TimeCache,
    pub base_url: String,
}

impl WorldTimeApiClient {
    /// A client of the provider at `base_url` that answers from `cache` where
    /// it can.
    pub fn new(cache: TimeCache, base_url: String) -> (c: WorldTimeApiClient)
        ensures
            c.cache == cache,
            c.base_url@ == base_url@,
            c.http_client == (HttpClient {
                max_retries: DEFAULT_MAX_RETRIES,
                timeout_secs: DEFAULT_TIMEOUT_SECS,
            }),
    {
        WorldTimeApiClient { http_client: HttpClient::default(), cache, base_url }
    }

    /// The IANA zone in which `city` lies.
    pub fn city_to_timezone(&self, city: &str) -> (zone: &'static str)
        ensures
            zone@ == timezone_of(lowercase(city@)),
    {
        zone_for_key(to_lowercase(city).as_str())
    }

    /// The URL at which the provider is asked about `city`.
    pub fn time_url(&self, city: &str) -> (url: String)
        ensures
            url@ == provider_url(self.base_url@, city@),
    {
        let zone = self.city_to_timezone(city);
        self.base_url.clone().concat("/").concat(url_encode(zone).as_str())
    }

    /// Looks `city` up: a cached sample is the answer; without one, the
    /// provider has to be asked about the city's zone.
    pub fn get_time(&self, city: &str) -> (step: TimeLookup)
        ensures
            match read(self.cache.entries(), city@) {
                Some(sample) => step matches TimeLookup::Cached(data) && data@ == sample,
                None => step matches TimeLookup::Fetch { url } && url@ == provider_url(
                    self.base_url@,
                    city@,
                ),
            },
    {
        match self.cache.get(city) {
            Some(data) => TimeLookup::Cached(data),
            None => TimeLookup::Fetch { url: self.time_url(city) },
        }
    }

    /// Takes in the provider's answer about `city`: the sample is filed in
    /// the cache and returned.
    pub fn complete(&mut self, city: &str, response: WorldTimeApiResponse) -> (data: TimeData)
        ensures
            data@ == sample_of(response),
            final(self).cache.entries() == written(
                old(self).cache.entries(),
                city@,
                sample_of(response),
            ),
            final(self).base_url == old(self).base_url,
            final(self).http_client == old(self).http_client,
    {
        let data = TimeData {
            datetime: response.datetime,
            timezone: response.timezone,
            unix_time: response.unixtime,
        };
        self.cache.set(String::from_str(city), data.clone());
        data
    }
}

/// The cities whose time is fetched before the first request, in the order
/// in which they are fetched.
pub open spec fn prefill_list() -> Seq<Seq<char>> {
    seq![
        "London"@,
        "Tokyo"@,
        "New York"@,
        "Paris"@,
        "Berlin"@,
        "Sydney"@,
        "Los Angeles"@,
        "Chicago"@,
        "Toronto"@,
        "Singapore"@,
    ]
}

/// Number of cities on the prefill list.
pub const PREFILL_CITIES: usize = 10;

/// The city at place `index` of the prefill list.
pub fn prefill_city(index: usize) -> (city: Option<&'static str>)
    ensures
        city is Some <==> index < PREFILL_CITIES,
        city is Some ==> city->Some_0@ == prefill_list()[index as int],
{
    if index == 0 {
        Some("London")
    } else if index == 1 {
        Some("Tokyo")
    } else if index == 2 {
        Some("New York")
    } else if index == 3 {
        Some("Paris")
    } else if index == 4 {
        Some("Berlin")
    } else if index == 5 {
        Some("Sydney")
    } else if index == 6 {
        Some("Los Angeles")
    } else if index == 7 {
        Some("Chicago")
    } else if index == 8 {
        Some("Toronto")
    } else if index == 9 {
        Some("Singapore")
    } else {
        None
    }
}

/// How far the prefill of the cache has come: the cities are taken one after
/// the other, and each counts as cached or as failed. A failure never stops
/// the prefill.
#[derive(Debug, Clone, Copy, PartialEq, Eq, Structural)]
pub struct Prefill {
    pub cached: usize,
    pub errors: usize,
}

impl Prefill {
    /// No more cities are counted than are listed.
    pub open spec fn wf(&self) -> bool {
        self.cached + self.errors <= PREFILL_CITIES
    }

    /// Number of cities dealt with.
    pub open spec fn done(&self) -> nat {
        (self.cached + self.errors) as nat
    }

    /// The prefill before its first city.
    pub fn new() -> (p: Prefill)
        ensures
            p.wf(),
            p == (Prefill { cached: 0, errors: 0 }),
    {
        Prefill { cached: 0, errors: 0 }
    }

    /// The city to deal with next, or `None` when every city was dealt with.
    pub fn next_city(&self) -> (city: Option<&'static str>)
        requires
            self.wf(),
        ensures
            city is Some <==> self.done() < PREFILL_CITIES,
            city is Some ==> city->Some_0@ == prefill_list()[self.done() as int],
    {
        prefill_city(self.cached + self.errors)
    }

    /// Counts the city that was dealt with: as cached when its time was
    /// fetched, as failed when it was not. Once every city was dealt with,
    /// nothing is counted.
    pub fn record(&mut self, fetched: bool)
        requires
            old(self).wf(),
        ensures
            final(self).wf(),
            old(self).done() < PREFILL_CITIES && fetched ==> *final(self) == (Prefill {
                cached: (old(self).cached + 1) as usize,
                errors: old(self).errors,
            }),
            old(self).done() < PREFILL_CITIES && !fetched ==> *final(self) == (Prefill {
                cached: old(self).cached,
                errors: (old(self).errors + 1) as usize,
            }),
            old(self).done() >= PREFILL_CITIES ==> *final(self) == *old(self),
    {
        if self.cached + self.errors < PREFILL_CITIES {
            if fetched {
                self.cached = self.cached + 1;
            } else {
                self.errors = self.errors + 1;
            }
        }
    }

    /// Whether every city was dealt with.
    pub fn finished(&self) -> (b: bool)
        requires
            self.wf(),
        ensures
            b <==> self.done() == PREFILL_CITIES,
    {
        self.cached + self.errors == PREFILL_CITIES
    }
}

} // verus!
