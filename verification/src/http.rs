//! Headers that every HTTP response carries.
use vstd::prelude::*;

verus! {

/// The security headers of every response, as `(name, value)` in the order
/// they are added: no content sniffing, no framing, no referrer and, when
/// `enable_hsts`, HTTP Strict Transport Security for two years, subdomains
/// included. Content-Security-Policy and `Cache-Control: no-store` belong to
/// the API routes only, because the API documentation page loads scripts.
pub open spec fn spec_security_headers(enable_hsts: bool) -> Seq<(Seq<char>, Seq<char>)> {
    let base = seq![
        ("x-content-type-options"@, "nosniff"@),
        ("x-frame-options"@, "DENY"@),
        ("referrer-policy"@, "no-referrer"@),
    ];
    if enable_hsts {
        base.push(("strict-transport-security"@, "max-age=63072000; includeSubDomains"@))
    } else {
        base
    }
}

/// The pairs' contents.
pub open spec fn header_views(v: Seq<(&'static str, &'static str)>) -> Seq<(Seq<char>, Seq<char>)> {
    v.map_values(|p: (&'static str, &'static str)| (p.0@, p.1@))
}

/// The security headers of every response (see [`spec_security_headers`]);
/// HSTS is enabled in deployed environments.
pub fn security_headers(enable_hsts: bool) -> (r: Vec<(&'static str, &'static str)>)
    ensures
        header_views(r@) == spec_security_headers(enable_hsts),
{
    let mut headers: Vec<(&'static str, &'static str)> = Vec::new();
    headers.push(("x-content-type-options", "nosniff"));
    headers.push(("x-frame-options", "DENY"));
    headers.push(("referrer-policy", "no-referrer"));
    if enable_hsts {
        headers.push(("strict-transport-security", "max-age=63072000; includeSubDomains"));
    }
    assert(header_views(headers@) =~= spec_security_headers(enable_hsts));
    headers
}

} // verus!
