//! Breadcrumbs and slow-request reports that the HTTP middleware records
//! for each request.

use vstd::prelude::*;
use crate::text::{nat_text, push_nat, u64_text};

verus! {

/// Severity of a breadcrumb.
#[derive(PartialEq, Eq, Structural)]
pub enum BreadcrumbLevel {
    Info,
    Warning,
    Error,
}

/// Requests that take longer than this many milliseconds are reported.
pub const SLOW_REQUEST_MS: u128 = 500;

/// The severity of a response's breadcrumb: errors for 5xx, warnings for
/// 4xx, information otherwise.
pub open spec fn level_of(status: u16) -> BreadcrumbLevel {
    if status >= 500 {
        BreadcrumbLevel::Error
    } else if status >= 400 {
        BreadcrumbLevel::Warning
    } else {
        BreadcrumbLevel::Info
    }
}

/// `format!("{method} {path} -> {status} ({duration_ms}ms)")`.
pub open spec fn response_breadcrumb_text(method: Seq<char>, path: Seq<char>, status: u16, duration_ms: u128) -> Seq<char> {
    method + " "@ + path + " -> "@ + nat_text(status as nat) + " ("@ + nat_text(duration_ms as nat) + "ms)"@
}

/// `format!("Slow request: {method} {path} took {duration_ms}ms")`.
pub open spec fn slow_request_text(method: Seq<char>, path: Seq<char>, duration_ms: u128) -> Seq<char> {
    "Slow request: "@ + method + " "@ + path + " took "@ + nat_text(duration_ms as nat) + "ms"@
}

/// The severity of the breadcrumb for a response with this status.
pub fn response_level(status: u16) -> (r: BreadcrumbLevel)
    ensures
        r == level_of(status),
{
    if status >= 500 {
        BreadcrumbLevel::Error
    } else if status >= 400 {
        BreadcrumbLevel::Warning
    } else {
        BreadcrumbLevel::Info
    }
}

/// Whether a request that took `duration_ms` milliseconds is reported as slow.
pub fn is_slow(duration_ms: u128) -> (r: bool)
    ensures
        r == (duration_ms > 500),
{
    duration_ms > SLOW_REQUEST_MS
}

/// The breadcrumb message of a request: `format!("{method} {path}")`.
pub fn request_breadcrumb(method: &str, path: &str) -> (r: String)
    ensures
        r@ == method@ + " "@ + path@,
{
    let mut r = method.to_string();
    r.append(" ");
    r.append(path);
    r
}

/// The breadcrumb message of a response.
pub fn response_breadcrumb(method: &str, path: &str, status: u16, duration_ms: u128) -> (r: String)
    ensures
        r@ == response_breadcrumb_text(method@, path@, status, duration_ms),
{
    let mut r = method.to_string();
    r.append(" ");
    r.append(path);
    r.append(" -> ");
    push_nat(&mut r, status as u128);
    r.append(" (");
    push_nat(&mut r, duration_ms);
    r.append("ms)");
    assert(r@ =~= response_breadcrumb_text(method@, path@, status, duration_ms));
    r
}

/// The message reported for a slow request.
pub fn slow_request_message(method: &str, path: &str, duration_ms: u128) -> (r: String)
    ensures
        r@ == slow_request_text(method@, path@, duration_ms),
{
    let mut r = "Slow request: ".to_string();
    r.append(method);
    r.append(" ");
    r.append(path);
    r.append(" took ");
    push_nat(&mut r, duration_ms);
    r.append("ms");
    assert(r@ =~= slow_request_text(method@, path@, duration_ms));
    r
}

/// The status code as the text of the report's tag: `status.to_string()`.
pub fn status_tag(status: u16) -> (r: String)
    ensures
        r@ == nat_text(status as nat),
{
    u64_text(status as u64)
}


/// Server errors are recorded as errors, client errors as warnings, and
/// every other response as information.
pub proof fn lemma_level_bands(status: u16)
    ensures
        level_of(status) == BreadcrumbLevel::Error <==> status >= 500,
        level_of(status) == BreadcrumbLevel::Warning <==> 400 <= status < 500,
        level_of(status) == BreadcrumbLevel::Info <==> status < 400,
{
}

/// The breadcrumb of a response starts with that of its request followed
/// by ` -> ` and the status, and the slow-request report names the same
/// method and path.
pub proof fn lemma_breadcrumbs_agree(method: Seq<char>, path: Seq<char>, status: u16, duration_ms: u128)
    ensures
        response_breadcrumb_text(method, path, status, duration_ms).take(method.len() as int + 1 + path.len() + 4 + nat_text(status as nat).len())
            == method + " "@ + path + " -> "@ + nat_text(status as nat),
        slow_request_text(method, path, duration_ms).skip(14).take(method.len() as int + 1 + path.len()) == method + " "@ + path,
{
    reveal_strlit(" ");
    reveal_strlit(" -> ");
    reveal_strlit("Slow request: ");
    let t = response_breadcrumb_text(method, path, status, duration_ms);
    assert(t.take(method.len() as int + 1 + path.len() + 4 + nat_text(status as nat).len())
        =~= method + " "@ + path + " -> "@ + nat_text(status as nat));
    let u = slow_request_text(method, path, duration_ms);
    assert(u.skip(14).take(method.len() as int + 1 + path.len()) =~= method + " "@ + path);
}

} // verus!
