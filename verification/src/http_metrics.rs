//! Counters of the HTTP query handler.
//!
//! Each counter is a name and a list of labels; the labels are built here and
//! the counters are kept by the `metrics` crate's global recorder.
use vstd::prelude::*;

verus! {

/// The decimal digits of `n`, most significant first, without leading zeros.
pub open spec fn decimal_string(n: nat) -> Seq<char>
    decreases n,
{
    if n < 10 {
        seq![((n as int) + 48) as char]
    } else {
        decimal_string(n / 10).push(((n % 10) as int + 48) as char)
    }
}

/// The labels of a counted HTTP request.
pub fn http_request_labels(method: String, api: String, status: String) -> (r: Vec<
    (&'static str, String),
>)
    ensures
        r@.len() == 3,
        r@[0].0@ == "method"@ && r@[0].1@ == method@,
        r@[1].0@ == "api"@ && r@[1].1@ == api@,
        r@[2].0@ == "status"@ && r@[2].1@ == status@,
{
    let mut labels: Vec<(&'static str, String)> = Vec::new();
    labels.push(("method", method));
    labels.push(("api", api));
    labels.push(("status", status));
    labels
}

/// The labels of a counted HTTP response error.
pub fn http_response_error_labels(err: String, code: u16) -> (r: Vec<(&'static str, String)>)
    ensures
        r@.len() == 2,
        r@[0].0@ == "err"@ && r@[0].1@ == err@,
        r@[1].0@ == "code"@ && r@[1].1@ == decimal_string(code as nat),
{
    let mut labels: Vec<(&'static str, String)> = Vec::new();
    labels.push(("err", err));
    labels.push(("code", u16_to_string(code)));
    labels
}

/// The counter of HTTP requests: its name and the labels of one request.
pub fn http_request_counter(method: String, api: String, status: String) -> (r: (
    &'static str,
    Vec<(&'static str, String)>,
))
    ensures
        r.0@ == "query_http_requests_count"@,
        r.1@.len() == 3,
        r.1@[0].0@ == "method"@ && r.1@[0].1@ == method@,
        r.1@[1].0@ == "api"@ && r.1@[1].1@ == api@,
        r.1@[2].0@ == "status"@ && r.1@[2].1@ == status@,
{
    proof {
        reveal_strlit("query_http_requests_count");
    }
    ("query_http_requests_count", http_request_labels(method, api, status))
}

/// The counter of slow HTTP requests: its name and the labels of one request.
pub fn http_slow_request_counter(method: String, api: String, status: String) -> (r: (
    &'static str,
    Vec<(&'static str, String)>,
))
    ensures
        r.0@ == "query_http_slow_requests_count"@,
        r.1@.len() == 3,
        r.1@[0].0@ == "method"@ && r.1@[0].1@ == method@,
        r.1@[1].0@ == "api"@ && r.1@[1].1@ == api@,
        r.1@[2].0@ == "status"@ && r.1@[2].1@ == status@,
{
    proof {
        reveal_strlit("query_http_slow_requests_count");
    }
    ("query_http_slow_requests_count", http_request_labels(method, api, status))
}

/// The counter of HTTP response errors: its name and the labels of one error.
pub fn http_response_errors_counter(err: String, code: u16) -> (r: (
    &'static str,
    Vec<(&'static str, String)>,
))
    ensures
        r.0@ == "query_http_response_errors_count"@,
        r.1@.len() == 2,
        r.1@[0].0@ == "err"@ && r.1@[0].1@ == err@,
        r.1@[1].0@ == "code"@ && r.1@[1].1@ == decimal_string(code as nat),
{
    proof {
        reveal_strlit("query_http_response_errors_count");
    }
    ("query_http_response_errors_count", http_response_error_labels(err, code))
}

/// The counter of panics in HTTP handlers: its name, with no labels.
pub fn http_response_panics_counter() -> (r: (&'static str, Vec<(&'static str, String)>))
    ensures
        r.0@ == "query_http_response_panics_count"@,
        r.1@.len() == 0,
{
    proof {
        reveal_strlit("query_http_response_panics_count");
    }
    ("query_http_response_panics_count", Vec::new())
}

/// Counts one HTTP request.
pub fn metrics_incr_http_request_count(method: String, api: String, status: String) {
    let (name, labels) = http_request_counter(method, api, status);
    counter_increment(name, 1, &labels);
}

/// Counts one slow HTTP request.
pub fn metrics_incr_http_slow_request_count(method: String, api: String, status: String) {
    let (name, labels) = http_slow_request_counter(method, api, status);
    counter_increment(name, 1, &labels);
}

/// Counts one HTTP response error.
pub fn metrics_incr_http_response_errors_count(err: String, code: u16) {
    let (name, labels) = http_response_errors_counter(err, code);
    counter_increment(name, 1, &labels);
}

/// Counts one panic in an HTTP handler.
pub fn metrics_incr_http_response_panics_count() {
    let (name, labels) = http_response_panics_counter();
    counter_increment(name, 1, &labels);
}

/// Adds `value` to the counter `name` with `labels` in the global recorder
/// of the `metrics` crate (what its `counter!` macro expands to). The call
/// returns nothing and changes only the recorder, of which nothing is stated.
#[verifier::external_body]
fn counter_increment(name: &'static str, value: u64, labels: &Vec<(&'static str, String)>) {
    let labels: Vec<metrics::Label> = labels.iter().map(|(k, v)| metrics::Label::new(*k, v.clone())).collect();
    metrics::recorder().register_counter(&metrics::Key::from_parts(name, labels)).increment(value);
}

/// Calls `ToString::to_string` on a `u16`, which std documents as its
/// decimal representation.
#[verifier::external_body]
fn u16_to_string(code: u16) -> (r: String)
    ensures
        r@ == decimal_string(code as nat),
{
    code.to_string()
}

} // verus!
