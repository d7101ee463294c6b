//! Allowed browser origins (`FRONTEND_URL`).
use vstd::prelude::*;

use super::env::{required, spec_optional, ConfigError, EnvVars, SettingFault};
use crate::text::{chars_of, push_char, str_eq, trim, trim_end_char, trim_str};

verus! {

/// The origins allowed to call the API, without trailing slashes, and whether
/// any origin is allowed (`*`).
pub struct CorsConfig {
    pub allowed_origins: Vec<String>,
    pub allow_any_origin: bool,
}

/// Whether `HeaderValue::from_str` accepts `s`: every byte is a tab or lies in
/// 32..=255 except 127. The bytes of a non-ASCII character are all at least
/// 0x80, so on characters this is:
pub open spec fn header_value_ok(s: Seq<char>) -> bool {
    forall|i: int|
        0 <= i < s.len() ==> (#[trigger] s[i] == '\t' || (32 <= (s[i] as u32) && (s[i] as u32) != 127))
}

/// `http::HeaderValue::from_str(s)` succeeds. The contract restates the byte
/// check of `HeaderValue::try_from_generic` (`b >= 32 && b != 127 || b == b'\t'`).
#[verifier::external_body]
fn is_valid_header_value(s: &str) -> (r: bool)
    ensures
        r == header_value_ok(s@),
{
    axum::http::HeaderValue::from_str(s).is_ok()
}

/// The pieces of `s` between commas (`str::split(',')`).
pub open spec fn split_commas(s: Seq<char>) -> Seq<Seq<char>>
    decreases s.len(),
{
    if s.len() == 0 {
        seq![Seq::empty()]
    } else {
        let p = split_commas(s.drop_last());
        if s.last() == ',' {
            p.push(Seq::empty())
        } else {
            p.update(p.len() - 1, p.last().push(s.last()))
        }
    }
}

/// Reads the comma-separated entries in order: blank entries are skipped, `*`
/// allows any origin, every other entry loses its trailing slashes and must be
/// a valid header value. The result is `(allowed origins, any origin allowed,
/// an invalid origin was found)`; reading stops at the first invalid origin.
pub open spec fn scan_origins(entries: Seq<Seq<char>>) -> (Seq<Seq<char>>, bool, bool)
    decreases entries.len(),
{
    if entries.len() == 0 {
        (Seq::empty(), false, false)
    } else {
        let (allowed, any, invalid) = scan_origins(entries.drop_last());
        let origin = trim(entries.last());
        if invalid || origin.len() == 0 {
            (allowed, any, invalid)
        } else if origin == "*"@ {
            (allowed, true, invalid)
        } else if header_value_ok(trim_end_char(origin, '/')) {
            (allowed.push(trim_end_char(origin, '/')), any, invalid)
        } else {
            (allowed, any, true)
        }
    }
}

proof fn lemma_invalid_stays(entries: Seq<Seq<char>>, k: int)
    requires
        0 <= k <= entries.len(),
        scan_origins(entries.take(k)).2,
    ensures
        scan_origins(entries).2,
    decreases entries.len() - k,
{
    if k < entries.len() {
        assert(entries.take(k + 1).drop_last() =~= entries.take(k));
        lemma_invalid_stays(entries, k + 1);
    } else {
        assert(entries.take(k) =~= entries);
    }
}

/// The strings' contents.
pub open spec fn views(v: Seq<String>) -> Seq<Seq<char>> {
    v.map_values(|s: String| s@)
}

fn push_string(v: &mut Vec<String>, s: String)
    ensures
        views(final(v)@) == views(old(v)@).push(s@),
{
    v.push(s);
    assert(views(v@) =~= views(old(v)@).push(s@));
}

/// Splits `raw` at commas.
fn split_at_commas(raw: &str) -> (r: Vec<String>)
    ensures
        views(r@) == split_commas(raw@),
{
    let v = chars_of(raw);
    let mut done: Vec<String> = Vec::new();
    let mut cur = String::new();
    let mut i: usize = 0;
    assert(v@.take(0) =~= Seq::<char>::empty());
    assert(views(done@).push(cur@) =~= seq![Seq::<char>::empty()]);
    while i < v.len()
        invariant
            i <= v.len(),
            v@ == raw@,
            views(done@).push(cur@) == split_commas(v@.take(i as int)),
        decreases v.len() - i,
    {
        let c = v[i];
        assert(v@.take(i + 1).drop_last() =~= v@.take(i as int));
        assert(v@.take(i + 1).last() == c);
        let ghost before = views(done@);
        if c == ',' {
            let finished = cur;
            cur = String::new();
            push_string(&mut done, finished);
            assert(views(done@).push(cur@) =~= split_commas(v@.take(i + 1)));
        } else {
            push_char(&mut cur, c);
            assert(views(done@).push(cur@) =~= split_commas(v@.take(i + 1)));
        }
        i += 1;
    }
    push_string(&mut done, cur);
    assert(v@.take(v@.len() as int) =~= v@);
    done
}

/// `s` without its trailing slashes.
fn trim_trailing_slashes(s: &str) -> (r: String)
    ensures
        r@ == trim_end_char(s@, '/'),
{
    let v = chars_of(s);
    let mut end = v.len();
    assert(v@.subrange(0, end as int) =~= v@);
    while end > 0 && v[end - 1] == '/'
        invariant
            end <= v.len(),
            v@ == s@,
            trim_end_char(s@, '/') == trim_end_char(v@.subrange(0, end as int), '/'),
        decreases end,
    {
        assert(v@.subrange(0, end as int).drop_last() =~= v@.subrange(0, end - 1));
        end -= 1;
    }
    crate::text::string_from_range(&v, 0, end)
}

/// The outcome of reading the origins in `raw`: the allowed origins and
/// whether any origin is allowed, or the reason `raw` is refused.
pub open spec fn spec_cors_outcome(raw: Seq<char>) -> Result<(Seq<Seq<char>>, bool), Seq<char>> {
    let scanned = scan_origins(split_commas(raw));
    if scanned.2 {
        Err("contains an invalid origin"@)
    } else if scanned.0.len() == 0 && !scanned.1 {
        Err("at least one origin is required"@)
    } else {
        Ok((scanned.0, scanned.1))
    }
}

/// Why `FRONTEND_URL` cannot be read, if it cannot.
pub open spec fn spec_cors_fault(vars: Seq<(Seq<char>, Seq<char>)>) -> Option<SettingFault> {
    match spec_optional::<String>(vars, "FRONTEND_URL"@) {
        Err(reason) => Some(SettingFault::Invalid("FRONTEND_URL"@, reason)),
        Ok(None) => Some(SettingFault::Missing("FRONTEND_URL"@)),
        Ok(Some(raw)) => match spec_cors_outcome(raw) {
            Err(reason) => Some(SettingFault::Invalid("FRONTEND_URL"@, reason)),
            Ok(_) => None,
        },
    }
}

impl CorsConfig {
    /// Reads `FRONTEND_URL`: comma-separated origins, `*` for any origin. At
    /// least one origin is required, and every origin must be a valid header
    /// value.
    pub fn from_env(vars: &EnvVars) -> (r: Result<CorsConfig, ConfigError>)
        ensures
            match spec_optional::<String>(vars@, "FRONTEND_URL"@) {
                Ok(None) => r matches Err(e) && e.is_missing("FRONTEND_URL"@),
                Ok(Some(raw)) => match spec_cors_outcome(raw) {
                    Ok((allowed, any)) => r matches Ok(c) && views(c.allowed_origins@) == allowed
                        && c.allow_any_origin == any,
                    Err(reason) => r matches Err(e) && e.is_invalid("FRONTEND_URL"@, reason),
                },
                Err(reason) => r matches Err(e) && e.is_invalid("FRONTEND_URL"@, reason),
            },
            match spec_cors_fault(vars@) {
                Some(fault) => r matches Err(e) && e.reports(fault),
                None => r is Ok,
            },
    {
        let raw: String = required::<String>(vars, "FRONTEND_URL")?;
        assert(spec_optional::<String>(vars@, "FRONTEND_URL"@) == Ok::<Option<Seq<char>>, Seq<char>>(
            Some(raw@),
        ));
        let entries = split_at_commas(raw.as_str());
        let ghost all = split_commas(raw@);
        let mut allowed_origins: Vec<String> = Vec::new();
        let mut allow_any_origin = false;
        let mut k: usize = 0;
        assert(all.take(0) =~= Seq::<Seq<char>>::empty());
        while k < entries.len()
            invariant
                k <= entries.len(),
                views(entries@) == all,
                all == split_commas(raw@),
                spec_optional::<String>(vars@, "FRONTEND_URL"@) == Ok::<Option<Seq<char>>, Seq<char>>(
                    Some(raw@),
                ),
                scan_origins(all.take(k as int)) == (
                    views(allowed_origins@),
                    allow_any_origin,
                    false,
                ),
            decreases entries.len() - k,
        {
            assert(all.take(k + 1).drop_last() =~= all.take(k as int));
            assert(all.take(k + 1).last() == entries@[k as int]@);
            let origin = trim_str(entries[k].as_str());
            if origin.as_str().is_empty() {
            } else if str_eq(origin.as_str(), "*") {
                allow_any_origin = true;
            } else {
                let value = trim_trailing_slashes(origin.as_str());
                if !is_valid_header_value(value.as_str()) {
                    proof {
                        assert(scan_origins(all.take(k + 1)).2);
                        lemma_invalid_stays(all, k + 1);
                        assert(scan_origins(split_commas(raw@)).2);
                    }
                    return Err(
                        ConfigError::invalid("FRONTEND_URL", "contains an invalid origin".to_owned()),
                    );
                }
                push_string(&mut allowed_origins, value);
            }
            k += 1;
        }
        assert(all.take(entries.len() as int) =~= all);
        if allowed_origins.len() == 0 && !allow_any_origin {
            return Err(
                ConfigError::invalid("FRONTEND_URL", "at least one origin is required".to_owned()),
            );
        }
        Ok(CorsConfig { allowed_origins, allow_any_origin })
    }
}

} // verus!
