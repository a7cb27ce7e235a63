use vstd::prelude::*;

use crate::text::{chars_of, has_prefix, segment_end, segment_len, starts_with_at, trim, trim_bounds};

verus! {

/// Requests a client may make per rate-limit window.
pub const DEFAULT_MAX_REQUESTS: u64 = 60;

/// The client address a request is attributed to: the first entry of `X-Forwarded-For`
/// (trimmed) when that header is readable text, else `X-Real-IP`, else `unknown`.
pub open spec fn client_ip_spec(forwarded_for: Option<Seq<char>>, real_ip: Option<Seq<char>>) -> Seq<char> {
    match forwarded_for {
        Some(f) => trim(f.take(segment_len(f, ',') as int)),
        None => match real_ip {
            Some(r) => r,
            None => "unknown"@,
        },
    }
}

/// Work out the client address from the text of the `X-Forwarded-For` and `X-Real-IP`
/// headers (`None` where a header is missing or not readable text).
pub fn extract_client_ip(forwarded_for: Option<&str>, real_ip: Option<&str>) -> (r: String)
    ensures
        r@ == client_ip_spec(
            match forwarded_for {
                Some(f) => Some(f@),
                None => None,
            },
            match real_ip {
                Some(x) => Some(x@),
                None => None,
            },
        ),
{
    match forwarded_for {
        Some(f) => {
            let v = chars_of(f);
            let end = segment_end(&v, 0, ',');
            proof {
                assert(v@.skip(0) =~= v@);
            }
            let (lo, hi) = trim_bounds(&v, 0, end);
            f.substring_char(lo, hi).to_owned()
        },
        None => match real_ip {
            Some(x) => x.to_owned(),
            None => String::from_str("unknown"),
        },
    }
}

/// What the rate limiter does with a request.
#[derive(Debug)]
pub enum RateLimitAction {
    /// The client is within its limit: run the request.
    Proceed,
    /// The client is over its limit: answer 429, to be retried after `retry_after` seconds.
    TooManyRequests { retry_after: u64 },
    /// The limit could not be checked: answer 503 with this message (the limiter fails
    /// closed).
    ServiceUnavailable(String),
}

/// The rate limiter's decision on the outcome of the limit check: `Ok((allowed,
/// retry_after))`, or `Err` when the check itself failed.
pub fn rate_limit_action(check: Result<(bool, u64), ()>) -> (a: RateLimitAction)
    ensures
        match check {
            Ok((true, _)) => a is Proceed,
            Ok((false, retry_after)) => a == (RateLimitAction::TooManyRequests { retry_after }),
            Err(()) => a matches RateLimitAction::ServiceUnavailable(m) && m@ == "Service temporarily unavailable"@,
        },
{
    match check {
        Ok((true, _)) => RateLimitAction::Proceed,
        Ok((false, retry_after)) => RateLimitAction::TooManyRequests { retry_after },
        Err(()) => {
            proof {
                reveal_strlit("Service temporarily unavailable");
            }
            RateLimitAction::ServiceUnavailable(String::from_str("Service temporarily unavailable"))
        },
    }
}

pub open spec fn session_label() -> Seq<char> {
    seq!['s', 'e', 's', 's', 'i', 'o', 'n', '=']
}

/// The session id a cookie pair carries: the pair, trimmed, must read `session=<id>`.
pub open spec fn session_pair_value(pair: Seq<char>) -> Option<Seq<char>> {
    let t = trim(pair);
    if has_prefix(t, session_label()) {
        Some(t.skip(8))
    } else {
        None
    }
}

/// The session id in the first `;`-separated pair of `s` that carries one.
pub open spec fn session_in_header(s: Seq<char>) -> Option<Seq<char>>
    decreases s.len(),
{
    let n = segment_len(s, ';');
    match session_pair_value(s.take(n as int)) {
        Some(v) => Some(v),
        None => {
            if n < s.len() {
                session_in_header(s.skip(n as int + 1))
            } else {
                None
            }
        },
    }
}

/// The session id in the first `Cookie` header that carries one.
pub open spec fn session_cookie_spec(headers: Seq<Seq<char>>) -> Option<Seq<char>>
    decreases headers.len(),
{
    if headers.len() == 0 {
        None
    } else {
        match session_in_header(headers[0]) {
            Some(v) => Some(v),
            None => session_cookie_spec(headers.drop_first()),
        }
    }
}

fn session_in_cookie_header(header: &str, label: &Vec<char>) -> (r: Option<String>)
    requires
        label@ == session_label(),
    ensures
        match session_in_header(header@) {
            Some(v) => r matches Some(s) && s@ == v,
            None => r is None,
        },
{
    let v = chars_of(header);
    let mut start: usize = 0;
    proof {
        assert(v@.skip(0) =~= v@);
    }
    loop
        invariant
            v@ == header@,
            label@ == session_label(),
            start <= v@.len(),
            session_in_header(v@) == session_in_header(v@.skip(start as int)),
        decreases v@.len() - start,
    {
        let end = segment_end(&v, start, ';');
        let ghost rest = v@.skip(start as int);
        let (lo, hi) = trim_bounds(&v, start, end);
        if starts_with_at(&v, lo, hi, label) {
            proof {
                assert(v@.subrange(lo as int, hi as int).skip(8) =~= v@.subrange(lo + 8, hi as int));
            }
            return Some(header.substring_char(lo + 8, hi).to_owned());
        }
        if end == v.len() {
            return None;
        }
        proof {
            assert(rest.skip(end - start + 1) =~= v@.skip(end + 1));
        }
        start = end + 1;
    }
}

/// Find the session id among the `Cookie` header values of a request (those that are
/// readable text), in order.
pub fn extract_session_cookie(cookie_headers: &Vec<String>) -> (r: Option<String>)
    ensures
        match session_cookie_spec(cookie_headers@.map_values(|h: String| h@)) {
            Some(v) => r matches Some(s) && s@ == v,
            None => r is None,
        },
{
    let ghost hs = cookie_headers@.map_values(|h: String| h@);
    proof {
        reveal_strlit("session=");
    }
    let label = chars_of("session=");
    let mut i: usize = 0;
    proof {
        assert(hs.skip(0) =~= hs);
    }
    while i < cookie_headers.len()
        invariant
            hs == cookie_headers@.map_values(|h: String| h@),
            label@ == session_label(),
            0 <= i <= cookie_headers@.len(),
            session_cookie_spec(hs) == session_cookie_spec(hs.skip(i as int)),
        decreases cookie_headers@.len() - i,
    {
        proof {
            assert(hs.skip(i as int)[0] == cookie_headers@[i as int]@);
            assert(hs.skip(i as int).drop_first() =~= hs.skip(i + 1));
        }
        match session_in_cookie_header(cookie_headers[i].as_str(), &label) {
            Some(value) => {
                return Some(value);
            },
            None => {},
        }
        i = i + 1;
    }
    None
}

} // verus!
