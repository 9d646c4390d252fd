//! Errors, and which upstream failures are worth another attempt.

use vstd::prelude::*;

use crate::json;
use crate::text;

verus! {

/// How often a transient upstream failure is retried at least.
pub const DEFAULT_TRANSIENT_RETRIES: u32 = 2;

/// What can go wrong.
#[derive(Debug)]
pub enum OpenFusionError {
    NoApiKey,
    ApiError { status: u16, body: String, retry_after_secs: Option<u64> },
    Network(String),
    WorkerTimeout { model: String, duration_ms: u64 },
    WorkerError { model: String, message: String },
    InsufficientWorkers { success_count: usize, total: usize, min: usize, details: String },
    Config(String),
    Serialization(String),
    Io(String),
    SessionNotFound { id: String },
    Protocol(String),
}

/// The model of an error.
#[verifier::ext_equal]
pub enum ErrorView {
    NoApiKey,
    ApiError { status: u16, body: Seq<char>, retry_after_secs: Option<u64> },
    Network(Seq<char>),
    WorkerTimeout { model: Seq<char>, duration_ms: u64 },
    WorkerError { model: Seq<char>, message: Seq<char> },
    InsufficientWorkers { success_count: usize, total: usize, min: usize, details: Seq<char> },
    Config(Seq<char>),
    Serialization(Seq<char>),
    Io(Seq<char>),
    SessionNotFound { id: Seq<char> },
    Protocol(Seq<char>),
}

impl DeepView for OpenFusionError {
    type V = ErrorView;

    open spec fn deep_view(&self) -> ErrorView {
        match *self {
            OpenFusionError::NoApiKey => ErrorView::NoApiKey,
            OpenFusionError::ApiError { status, body, retry_after_secs } => ErrorView::ApiError {
                status,
                body: body@,
                retry_after_secs,
            },
            OpenFusionError::Network(m) => ErrorView::Network(m@),
            OpenFusionError::WorkerTimeout { model, duration_ms } => ErrorView::WorkerTimeout {
                model: model@,
                duration_ms,
            },
            OpenFusionError::WorkerError { model, message } => ErrorView::WorkerError {
                model: model@,
                message: message@,
            },
            OpenFusionError::InsufficientWorkers { success_count, total, min, details } =>
                ErrorView::InsufficientWorkers { success_count, total, min, details: details@ },
            OpenFusionError::Config(m) => ErrorView::Config(m@),
            OpenFusionError::Serialization(m) => ErrorView::Serialization(m@),
            OpenFusionError::Io(m) => ErrorView::Io(m@),
            OpenFusionError::SessionNotFound { id } => ErrorView::SessionNotFound { id: id@ },
            OpenFusionError::Protocol(m) => ErrorView::Protocol(m@),
        }
    }
}

/// What an error says to people.
pub open spec fn message_of(e: ErrorView) -> Seq<char> {
    match e {
        ErrorView::NoApiKey =>
            "No API key configured. Set api_key in config, OPENFUSION_API_KEY env var, or pass via request."@,
        ErrorView::ApiError { status, body, .. } => "API error: HTTP "@ + text::decimal_of(
            status as nat,
        ) + ": "@ + body,
        ErrorView::Network(m) => "Network error: "@ + m,
        ErrorView::WorkerTimeout { model, duration_ms } => "Worker '"@ + model
            + "' timed out after "@ + text::decimal_of(duration_ms as nat) + "ms"@,
        ErrorView::WorkerError { model, message } => "Worker '"@ + model + "' failed: "@ + message,
        ErrorView::InsufficientWorkers { success_count, total, min, details } =>
            "Insufficient workers: "@ + text::decimal_of(success_count as nat) + "/"@
                + text::decimal_of(total as nat) + " succeeded, need "@ + text::decimal_of(
                min as nat,
            ) + "\n"@ + details,
        ErrorView::Config(m) => "Config error: "@ + m,
        ErrorView::Serialization(m) => "Serialization error: "@ + m,
        ErrorView::Io(m) => "IO error: "@ + m,
        ErrorView::SessionNotFound { id } => "Session not found: "@ + id,
        ErrorView::Protocol(m) => "Invalid protocol conversion: "@ + m,
    }
}

impl OpenFusionError {
    /// The pause that the upstream asked for before another attempt.
    pub fn retry_after_secs(&self) -> (r: Option<u64>)
        ensures
            r == (match self.deep_view() {
                ErrorView::ApiError { retry_after_secs, .. } => retry_after_secs,
                _ => None,
            }),
    {
        match self {
            OpenFusionError::ApiError { retry_after_secs, .. } => *retry_after_secs,
            _ => None,
        }
    }

    /// What the error says to people.
    pub fn message(&self) -> (r: String)
        ensures
            r@ == message_of(self.deep_view()),
    {
        match self {
            OpenFusionError::NoApiKey =>
                "No API key configured. Set api_key in config, OPENFUSION_API_KEY env var, or pass via request.".to_owned(),
            OpenFusionError::ApiError { status, body, .. } => {
                let mut r = text::concat(
                    "API error: HTTP ",
                    text::decimal(*status as u64).as_str(),
                );
                r.append(": ");
                r.append(body.as_str());
                r
            },
            OpenFusionError::Network(m) => text::concat("Network error: ", m.as_str()),
            OpenFusionError::WorkerTimeout { model, duration_ms } => {
                let mut r = text::concat("Worker '", model.as_str());
                r.append("' timed out after ");
                r.append(text::decimal(*duration_ms).as_str());
                r.append("ms");
                r
            },
            OpenFusionError::WorkerError { model, message } => {
                let mut r = text::concat("Worker '", model.as_str());
                r.append("' failed: ");
                r.append(message.as_str());
                r
            },
            OpenFusionError::InsufficientWorkers { success_count, total, min, details } => {
                let mut r = text::concat(
                    "Insufficient workers: ",
                    text::decimal(*success_count as u64).as_str(),
                );
                r.append("/");
                r.append(text::decimal(*total as u64).as_str());
                r.append(" succeeded, need ");
                r.append(text::decimal(*min as u64).as_str());
                r.append("\n");
                r.append(details.as_str());
                r
            },
            OpenFusionError::Config(m) => text::concat("Config error: ", m.as_str()),
            OpenFusionError::Serialization(m) => text::concat("Serialization error: ", m.as_str()),
            OpenFusionError::Io(m) => text::concat("IO error: ", m.as_str()),
            OpenFusionError::SessionNotFound { id } => text::concat(
                "Session not found: ",
                id.as_str(),
            ),
            OpenFusionError::Protocol(m) => text::concat(
                "Invalid protocol conversion: ",
                m.as_str(),
            ),
        }
    }
}

/// The status codes that announce a passing failure.
pub open spec fn transient_status(status: u16) -> bool {
    ||| status == 408
    ||| status == 425
    ||| status == 429
    ||| status == 500
    ||| status == 502
    ||| status == 503
    ||| status == 504
    ||| status == 529
}

/// The phrases by which an upstream announces a passing failure.
pub open spec fn transient_phrases() -> Seq<Seq<char>> {
    seq![
        "high demand"@,
        "temporary errors"@,
        "temporarily unavailable"@,
        "try again"@,
        "too many requests"@,
        "rate limit"@,
        "rate_limit"@,
        "overloaded"@,
        "overload"@,
        "capacity"@,
        "service unavailable"@,
    ]
}

/// Whether an upstream failure is passing: by its status, or by a phrase in its
/// body in whatever case.
pub open spec fn is_transient(status: u16, body: Seq<char>) -> bool {
    transient_status(status) || exists|i: int|
        0 <= i < transient_phrases().len() && text::contains_of(
            text::ascii_lower_of(body),
            #[trigger] transient_phrases()[i],
        )
}

/// Whether an upstream failure is passing.
pub fn is_transient_upstream_error(status: u16, body: &str) -> (r: bool)
    ensures
        r == is_transient(status, body@),
{
    if status == 408 || status == 425 || status == 429 || status == 500 || status == 502 || status
        == 503 || status == 504 || status == 529 {
        return true;
    }
    let lower = text::ascii_lower(body);
    let phrases: Vec<&str> = vec![
        "high demand",
        "temporary errors",
        "temporarily unavailable",
        "try again",
        "too many requests",
        "rate limit",
        "rate_limit",
        "overloaded",
        "overload",
        "capacity",
        "service unavailable",
    ];
    assert(json::names_view(phrases@) =~= transient_phrases());
    let mut i: usize = 0;
    while i < phrases.len()
        invariant
            i <= phrases@.len(),
            lower@ == text::ascii_lower_of(body@),
            json::names_view(phrases@) == transient_phrases(),
            transient_phrases().len() == phrases@.len(),
            forall|k: int|
                0 <= k < i ==> !text::contains_of(lower@, #[trigger] transient_phrases()[k]),
        decreases phrases.len() - i,
    {
        let hit = text::contains(lower.as_str(), phrases[i]);
        assert(phrases@[i as int]@ == transient_phrases()[i as int]);
        if hit {
            return true;
        }
        i += 1;
    }
    false
}

/// A transient status makes a failure transient whatever its body says.
pub proof fn transient_status_is_enough(status: u16, body: Seq<char>)
    requires
        transient_status(status),
    ensures
        is_transient(status, body),
{
}

/// What stands in an error stands in what it says to people: the status and the body of an
/// answer, who failed and why, and how many workers of how many succeeded.
pub proof fn messages_tell_the_error(e: ErrorView)
    ensures
        ({
            let said = message_of(e);
            match e {
                ErrorView::NoApiKey => said.len() > 0,
                ErrorView::ApiError { status, body, .. } => text::contains_of(said, body)
                    && text::contains_of(said, text::decimal_of(status as nat)),
                ErrorView::Network(m) => text::contains_of(said, m),
                ErrorView::WorkerTimeout { model, duration_ms } => text::contains_of(said, model)
                    && text::contains_of(said, text::decimal_of(duration_ms as nat)),
                ErrorView::WorkerError { model, message } => text::contains_of(said, model)
                    && text::contains_of(said, message),
                ErrorView::InsufficientWorkers { success_count, total, min, details } => {
                    &&& text::contains_of(said, details)
                    &&& text::contains_of(
                        said,
                        text::decimal_of(success_count as nat) + "/"@ + text::decimal_of(
                            total as nat,
                        ),
                    )
                    &&& text::contains_of(said, text::decimal_of(min as nat))
                },
                ErrorView::Config(m) => text::contains_of(said, m),
                ErrorView::Serialization(m) => text::contains_of(said, m),
                ErrorView::Io(m) => text::contains_of(said, m),
                ErrorView::SessionNotFound { id } => text::contains_of(said, id),
                ErrorView::Protocol(m) => text::contains_of(said, m),
            }
        }),
{
    let none = Seq::<char>::empty();
    match e {
        ErrorView::NoApiKey => {
            reveal_strlit(
                "No API key configured. Set api_key in config, OPENFUSION_API_KEY env var, or pass via request.",
            );
        },
        ErrorView::ApiError { status, body, .. } => {
            let code = text::decimal_of(status as nat);
            stands_within("API error: HTTP "@, code, ": "@ + body);
            assert("API error: HTTP "@ + code + (": "@ + body) =~= message_of(e));
            stands_within("API error: HTTP "@ + code + ": "@, body, none);
            assert(("API error: HTTP "@ + code + ": "@) + body + none =~= message_of(e));
        },
        ErrorView::Network(m) => {
            stands_within("Network error: "@, m, none);
            assert("Network error: "@ + m + none =~= message_of(e));
        },
        ErrorView::WorkerTimeout { model, duration_ms } => {
            let time = text::decimal_of(duration_ms as nat);
            stands_within("Worker '"@, model, "' timed out after "@ + time + "ms"@);
            assert("Worker '"@ + model + ("' timed out after "@ + time + "ms"@) =~= message_of(e));
            stands_within("Worker '"@ + model + "' timed out after "@, time, "ms"@);
        },
        ErrorView::WorkerError { model, message } => {
            stands_within("Worker '"@, model, "' failed: "@ + message);
            assert("Worker '"@ + model + ("' failed: "@ + message) =~= message_of(e));
            stands_within("Worker '"@ + model + "' failed: "@, message, none);
            assert(("Worker '"@ + model + "' failed: "@) + message + none =~= message_of(e));
        },
        ErrorView::InsufficientWorkers { success_count, total, min, details } => {
            let part = text::decimal_of(success_count as nat) + "/"@ + text::decimal_of(
                total as nat,
            );
            let need = text::decimal_of(min as nat);
            let a = "Insufficient workers: "@;
            let b = " succeeded, need "@;
            stands_within(a, part, b + need + "\n"@ + details);
            assert(a + part + (b + need + "\n"@ + details) =~= message_of(e));
            stands_within(a + part + b, need, "\n"@ + details);
            assert((a + part + b) + need + ("\n"@ + details) =~= message_of(e));
            stands_within(a + part + b + need + "\n"@, details, none);
            assert((a + part + b + need + "\n"@) + details + none =~= message_of(e));
        },
        ErrorView::Config(m) => {
            stands_within("Config error: "@, m, none);
            assert("Config error: "@ + m + none =~= message_of(e));
        },
        ErrorView::Serialization(m) => {
            stands_within("Serialization error: "@, m, none);
            assert("Serialization error: "@ + m + none =~= message_of(e));
        },
        ErrorView::Io(m) => {
            stands_within("IO error: "@, m, none);
            assert("IO error: "@ + m + none =~= message_of(e));
        },
        ErrorView::SessionNotFound { id } => {
            stands_within("Session not found: "@, id, none);
            assert("Session not found: "@ + id + none =~= message_of(e));
        },
        ErrorView::Protocol(m) => {
            stands_within("Invalid protocol conversion: "@, m, none);
            assert("Invalid protocol conversion: "@ + m + none =~= message_of(e));
        },
    }
}

proof fn stands_within(before: Seq<char>, s: Seq<char>, after: Seq<char>)
    ensures
        text::contains_of(before + s + after, s),
{
    crate::text_laws::occurs_in_itself(s);
    crate::text_laws::occurs_in_more(before, s, after, s);
}

/// A failure is passing if its status says so, or if its body does so in one of the known
/// phrases, in whatever case; a failure without either is not.
pub proof fn passing_failures_are_known(status: u16, body: Seq<char>)
    ensures
        ({
            let said = text::ascii_lower_of(body);
            let phrased = text::contains_of(said, "high demand"@) || text::contains_of(
                said,
                "temporary errors"@,
            ) || text::contains_of(said, "temporarily unavailable"@) || text::contains_of(
                said,
                "try again"@,
            ) || text::contains_of(said, "too many requests"@) || text::contains_of(
                said,
                "rate limit"@,
            ) || text::contains_of(said, "rate_limit"@) || text::contains_of(said, "overloaded"@)
                || text::contains_of(said, "overload"@) || text::contains_of(said, "capacity"@)
                || text::contains_of(said, "service unavailable"@);
            is_transient(status, body) <==> phrased || status == 408 || status == 425 || status
                == 429 || status == 500 || status == 502 || status == 503 || status == 504
                || status == 529
        }),
{
    let phrases = transient_phrases();
    assert(phrases.len() == 11);
    assert(phrases[0] == "high demand"@ && phrases[1] == "temporary errors"@);
    assert(phrases[2] == "temporarily unavailable"@ && phrases[3] == "try again"@);
    assert(phrases[4] == "too many requests"@ && phrases[5] == "rate limit"@);
    assert(phrases[6] == "rate_limit"@ && phrases[7] == "overloaded"@);
    assert(phrases[8] == "overload"@ && phrases[9] == "capacity"@);
    assert(phrases[10] == "service unavailable"@);
}

} // verus!
