//! The rules of the retrying JSON fetcher: how one attempt is classified, when
//! a failed attempt is repeated, and how long the fetcher waits before it is.
//!
//! The transport itself is not here. Whoever drives the fetcher performs each
//! attempt, reports what came back as an [`Attempt`], and acts on the
//! [`RetryStep`] that it is answered with.
use vstd::prelude::*;
use vstd::string::*;
use vstd::arithmetic::power2::{pow2, lemma_pow2_unfold, lemma_pow2_strictly_increases, lemma2_to64};
use crate::errors::{AppError, ErrorModel};

verus! {

/// Seconds granted to one attempt unless configured otherwise.
pub const DEFAULT_TIMEOUT_SECS: u64 = 2;

/// Number of repetitions after a failed first attempt unless configured
/// otherwise.
pub const DEFAULT_MAX_RETRIES: u32 = 2;

/// The status of an HTTP response: a code from 100 to 999.
#[derive(Debug, Clone, Copy)]
pub struct HttpStatus {
    code: u16,
}

/// The text of the status line for `code`: the code, a blank, and the reason
/// phrase of the code or a placeholder where it has none.
pub uninterp spec fn status_line(code: u16) -> Seq<char>;

/// Renders a status as `http::StatusCode` displays it, reached through
/// `axum::http::StatusCode::from_u16` and its `Display`: the code, a blank,
/// and the canonical reason phrase of the code or, where the code has none,
/// a fixed placeholder.
///
/// Trusted: the text depends on the code alone. Codes outside 100..=999 are
/// left out, for which the conversion fails.
#[verifier::external_body]
fn render_status(code: u16) -> (r: String)
    requires
        100 <= code <= 999,
    ensures
        r@ == status_line(code),
{
    match axum::http::StatusCode::from_u16(code) {
        Ok(status) => status.to_string(),
        Err(invalid) => invalid.to_string(),
    }
}

impl HttpStatus {
    #[verifier::type_invariant]
    spec fn in_range(self) -> bool {
        100 <= self.code <= 999
    }

    /// The numeric code.
    pub closed spec fn value(self) -> u16 {
        self.code
    }

    /// Whether the status reports success: a code from 200 to 299.
    pub open spec fn success(self) -> bool {
        200 <= self.value() <= 299
    }

    /// The status with the given code, if the code is one.
    pub fn new(code: u16) -> (r: Option<HttpStatus>)
        ensures
            r is Some <==> 100 <= code <= 999,
            r is Some ==> r->Some_0.value() == code,
    {
        if 100 <= code && code <= 999 {
            Some(HttpStatus { code })
        } else {
            None
        }
    }

    pub fn code(&self) -> (c: u16)
        ensures
            c == self.value(),
            100 <= c <= 999,
    {
        proof {
            use_type_invariant(self);
        }
        self.code
    }

    pub fn is_success(&self) -> (b: bool)
        ensures
            b == self.success(),
    {
        200 <= self.code && self.code <= 299
    }

    /// The status line: code and reason phrase.
    pub fn describe(&self) -> (r: String)
        ensures
            r@ == status_line(self.value()),
    {
        proof {
            use_type_invariant(self);
        }
        render_status(self.code)
    }
}

/// What became of the body of a response.
#[derive(Debug)]
pub enum Body<T> {
    /// The body could not be read; the text says why.
    Unreadable(String),
    /// The body was read and is not of the requested shape; the text says why.
    Malformed(String),
    /// The body was read and holds this value.
    Parsed(T),
}

/// What one attempt to fetch a URL came back with.
#[derive(Debug)]
pub enum Attempt<T> {
    /// Nothing came back within the time granted.
    TimedOut,
    /// The transport failed; `timed_out` tells whether it did so by running
    /// out of time, `detail` says what went wrong.
    TransportFailed { timed_out: bool, detail: String },
    /// A response arrived. The body counts only under a status of success.
    Responded { status: HttpStatus, body: Body<T> },
}

/// The failure of a request to `url` that ran out of time.
pub open spec fn timed_out_error(url: Seq<char>) -> ErrorModel {
    ErrorModel::Timeout("Request to "@ + url + " timed out"@)
}

/// The failure that reports a response with `status`, whose status line
/// reads `line`.
pub open spec fn rejected(status: HttpStatus, line: Seq<char>) -> ErrorModel {
    ErrorModel::Http { status: status.value() as int, message: "HTTP error: "@ + line }
}

/// The failure that reports a response with `status`.
pub open spec fn status_error(status: HttpStatus) -> ErrorModel {
    rejected(status, status_line(status.value()))
}

/// Whether `r` is the classification of `attempt` at fetching `url`:
/// a timeout, a transport failure, a status other than success, an unreadable
/// or malformed body, each as the failure of its kind, and the parsed value
/// of a successful response.
pub open spec fn classifies<T>(url: Seq<char>, attempt: Attempt<T>, r: Result<T, AppError>) -> bool {
    match attempt {
        Attempt::TimedOut => r is Err && r->Err_0@ == timed_out_error(url),
        Attempt::TransportFailed { timed_out, detail } => r is Err && r->Err_0@ == if timed_out {
            timed_out_error(url)
        } else {
            ErrorModel::Network(detail@)
        },
        Attempt::Responded { status, body } => if !status.success() {
            r is Err && r->Err_0@ == status_error(status)
        } else {
            match body {
                Body::Unreadable(detail) => r is Err && r->Err_0@ == ErrorModel::Network(detail@),
                Body::Malformed(detail) => r is Err && r->Err_0@ == ErrorModel::Parse(detail@),
                Body::Parsed(value) => r == Ok::<T, AppError>(value),
            }
        },
    }
}

/// The wait before the attempt that follows failed attempt number `attempt`
/// (counted from zero), in milliseconds: 100, doubled once per attempt.
pub open spec fn backoff(attempt: nat) -> nat {
    100 * pow2(attempt)
}

/// What the fetcher does after an attempt.
#[derive(Debug)]
pub enum RetryStep<T> {
    /// The fetch is over, with this result.
    Done(Result<T, AppError>),
    /// Wait this many milliseconds, then make the next attempt.
    Retry { after_ms: u64 },
}

/// Configuration of a retrying fetcher.
#[derive(Debug, Clone, Copy, PartialEq, Eq, Structural)]
pub struct HttpClient {
    pub max_retries: u32,
    pub timeout_secs: u64,
}

fn timed_out(url: &str) -> (e: AppError)
    ensures
        e@ == timed_out_error(url@),
{
    AppError::TimeoutError(String::from_str("Request to ").concat(url).concat(" timed out"))
}

/// The failure of a fetch that was answered with `status`, whose status line
/// reads `line`.
pub fn http_failure(status: HttpStatus, line: &str) -> (e: AppError)
    ensures
        e@ == rejected(status, line@),
{
    AppError::HttpError {
        status: status.code(),
        message: String::from_str("HTTP error: ").concat(line),
    }
}

impl HttpClient {
    pub fn new(timeout_secs: u64, max_retries: u32) -> (c: HttpClient)
        ensures
            c == (HttpClient { max_retries, timeout_secs }),
    {
        HttpClient { max_retries, timeout_secs }
    }

    /// Classifies what one attempt at `url` came back with.
    pub fn fetch_with_timeout<T>(url: &str, attempt: Attempt<T>) -> (r: Result<T, AppError>)
        ensures
            classifies(url@, attempt, r),
    {
        match attempt {
            Attempt::TimedOut => Err(timed_out(url)),
            Attempt::TransportFailed { timed_out: by_time, detail } => {
                if by_time {
                    Err(timed_out(url))
                } else {
                    Err(AppError::NetworkError(detail))
                }
            },
            Attempt::Responded { status, body } => {
                if !status.is_success() {
                    Err(http_failure(status, status.describe().as_str()))
                } else {
                    match body {
                        Body::Unreadable(detail) => Err(AppError::NetworkError(detail)),
                        Body::Malformed(detail) => Err(AppError::ParseError(detail)),
                        Body::Parsed(value) => Ok(value),
                    }
                }
            },
        }
    }

    /// Milliseconds to wait after failed attempt number `attempt`: 100 doubled
    /// `attempt` times, held at the largest `u64` where the product passes it.
    pub fn backoff_ms(attempt: u32) -> (ms: u64)
        ensures
            ms == if backoff(attempt as nat) <= u64::MAX {
                backoff(attempt as nat)
            } else {
                u64::MAX as nat
            },
    {
        let mut ms: u64 = 100;
        let mut k: u32 = 0;
        proof {
            lemma2_to64();
        }
        while k < attempt
            invariant
                k <= attempt,
                ms == backoff(k as nat),
            decreases attempt - k,
        {
            proof {
                lemma_pow2_unfold((k + 1) as nat);
            }
            if ms > u64::MAX / 2 {
                proof {
                    if k + 1 < attempt {
                        lemma_pow2_strictly_increases((k + 1) as nat, attempt as nat);
                    }
                    assert(backoff(attempt as nat) >= backoff((k + 1) as nat)) by (nonlinear_arith)
                        requires
                            pow2(attempt as nat) >= pow2((k + 1) as nat),
                    ;
                }
                return u64::MAX;
            }
            ms = ms * 2;
            k = k + 1;
        }
        ms
    }

    /// What follows attempt number `attempt` (counted from zero) that ended
    /// with `outcome`.
    pub open spec fn next_step<T>(self, attempt: u32, outcome: Result<T, AppError>, step: RetryStep<T>) -> bool {
        match outcome {
            Ok(_) => step == RetryStep::Done(outcome),
            Err(_) => if attempt < self.max_retries {
                step matches RetryStep::Retry { after_ms } && after_ms == if backoff(attempt as nat)
                    <= u64::MAX {
                    backoff(attempt as nat)
                } else {
                    u64::MAX as nat
                }
            } else {
                step == RetryStep::Done(outcome)
            },
        }
    }

    /// Decides what follows an attempt: a success ends the fetch, a failure
    /// is repeated after the backoff while repetitions are left, and the
    /// failure of the last attempt is the failure of the fetch.
    pub fn after_attempt<T>(&self, attempt: u32, outcome: Result<T, AppError>) -> (step: RetryStep<T>)
        ensures
            self.next_step(attempt, outcome, step),
    {
        match outcome {
            Ok(value) => RetryStep::Done(Ok(value)),
            Err(e) => {
                if attempt < self.max_retries {
                    RetryStep::Retry { after_ms: HttpClient::backoff_ms(attempt) }
                } else {
                    RetryStep::Done(Err(e))
                }
            },
        }
    }
}

impl Default for HttpClient {
    fn default() -> (c: HttpClient)
        ensures
            c == (HttpClient {
                max_retries: DEFAULT_MAX_RETRIES,
                timeout_secs: DEFAULT_TIMEOUT_SECS,
            }),
    {
        HttpClient::new(DEFAULT_TIMEOUT_SECS, DEFAULT_MAX_RETRIES)
    }
}

} // verus!
