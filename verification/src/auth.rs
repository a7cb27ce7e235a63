use vstd::prelude::*;
use vstd::string::StrSliceExecFns;
use vstd::utf8::encode_utf8;

use crate::decimal::{decimal_digits, digit_char, i128_to_string, int_text};
use crate::text::{
    ascii_lower, chars_of, is_ascii_text, has_prefix, is_whitespace, lemma_trim_end_take, lemma_trim_start_skip,
    same_text, starts_with_at, text_starts_with, trim, trim_bounds, trim_end, trim_start, utf8_len_upto,
};

verus! {

broadcast use vstd::string::group_string_axioms;

/// How long a sign-in nonce stays valid, in seconds (5 minutes).
pub const NONCE_TTL_SECS: u64 = 300;

/// How long a session stays valid, in seconds (7 days).
pub const SESSION_TTL_SECS: u64 = 604800;

pub open spec fn address_label() -> Seq<char> {
    seq!['A', 'd', 'd', 'r', 'e', 's', 's', ':']
}

pub open spec fn hex_prefix() -> Seq<char> {
    seq!['0', 'x']
}

/// Length in bytes of the UTF-8 encoding of `s` (what `str::len` reports).
pub open spec fn utf8_len(s: Seq<char>) -> nat {
    encode_utf8(s).len()
}

/// The shape of a wallet address: `0x` followed by text, 42 bytes in all.
pub open spec fn address_shape(a: Seq<char>) -> bool {
    has_prefix(a, hex_prefix()) && utf8_len(a) == 42
}

/// The address one line of a sign-in message names: the line, trimmed, must start with
/// `Address:`; what follows, trimmed again, must have the shape of an address.
pub open spec fn line_address(line: Seq<char>) -> Option<Seq<char>> {
    let t = trim(line);
    if has_prefix(t, address_label()) {
        let a = trim(t.skip(8));
        if address_shape(a) {
            Some(a)
        } else {
            None
        }
    } else {
        None
    }
}

/// Number of characters before the first line feed of `s` (all of them when there is none).
pub open spec fn first_line_len(s: Seq<char>) -> nat
    decreases s.len(),
{
    if s.len() == 0 {
        0
    } else if s[0] == '\n' {
        0
    } else {
        1 + first_line_len(s.drop_first())
    }
}

/// The address named by the first line of `s` that names one.
pub open spec fn find_address(s: Seq<char>) -> Option<Seq<char>>
    decreases s.len(),
{
    let n = first_line_len(s);
    match line_address(s.take(n as int)) {
        Some(a) => Some(a),
        None => {
            if n < s.len() {
                find_address(s.skip(n as int + 1))
            } else {
                None
            }
        },
    }
}

/// What `str::to_lowercase` returns for `s`.
pub uninterp spec fn lowercase_text(s: Seq<char>) -> Seq<char>;

/// `str::to_lowercase`: the lowercase form of `s` as the standard library defines it
/// (Unicode `Lowercase` mapping), named by `lowercase_text`; on ASCII text that mapping
/// turns `A`..=`Z` into `a`..=`z` and leaves every other character as it is. Beyond
/// ASCII the contract states nothing of the mapping.
#[verifier::external_body]
fn to_lowercase(s: &str) -> (r: String)
    ensures
        r@ == lowercase_text(s@),
        is_ascii_text(s@) ==> r@ == s@.map_values(|c: char| ascii_lower(c)),
{
    s.to_lowercase()
}

proof fn lemma_first_line_len(s: Seq<char>, k: int)
    requires
        0 <= k <= s.len(),
        forall|i: int| 0 <= i < k ==> #[trigger] s[i] != '\n',
        k == s.len() || s[k] == '\n',
    ensures
        first_line_len(s) == k,
    decreases k,
{
    if k > 0 {
        let t = s.drop_first();
        assert forall|i: int| 0 <= i < k - 1 implies #[trigger] t[i] != '\n' by {
            assert(t[i] == s[i + 1]);
        }
        lemma_first_line_len(t, k - 1);
    }
}

/// The bounds of the address that `v[start..end]` names, if it names one.
fn line_address_bounds(v: &Vec<char>, label: &Vec<char>, start: usize, end: usize) -> (r: Option<(usize, usize)>)
    requires
        label@ == address_label(),
        start <= end <= v@.len(),
    ensures
        match r {
            Some((x, y)) => x <= y <= v@.len() && line_address(v@.subrange(start as int, end as int))
                == Some(v@.subrange(x as int, y as int)),
            None => line_address(v@.subrange(start as int, end as int)) is None,
        },
{
    let (lo, hi) = trim_bounds(v, start, end);
    if !starts_with_at(v, lo, hi, label) {
        return None;
    }
    let (lo2, hi2) = trim_bounds(v, lo + 8, hi);
    proof {
        assert(v@.subrange(lo as int, hi as int).skip(8) =~= v@.subrange(lo + 8, hi as int));
    }
    if hi2 - lo2 < 2 || v[lo2] != '0' || v[lo2 + 1] != 'x' {
        proof {
            let a = v@.subrange(lo2 as int, hi2 as int);
            if has_prefix(a, hex_prefix()) {
                assert(a.take(2)[0] == a[0]);
                assert(a.take(2)[1] == a[1]);
            }
        }
        return None;
    }
    proof {
        let a = v@.subrange(lo2 as int, hi2 as int);
        assert(a.take(2) =~= hex_prefix());
    }
    if utf8_len_upto(v, lo2, hi2, 42) == 42 {
        proof {
            let a = v@.subrange(lo2 as int, hi2 as int);
            let t = v@.subrange(lo as int, hi as int);
            assert(t == trim(v@.subrange(start as int, end as int)));
            assert(has_prefix(t, address_label()));
            assert(trim(t.skip(8)) == a);
            assert(utf8_len(a) == 42);
            assert(address_shape(a));
        }
        Some((lo2, hi2))
    } else {
        None
    }
}

/// The error reported when no line of a sign-in message names an address.
pub open spec fn no_address_message() -> Seq<char> {
    "Could not extract address from nonce message"@
}

/// Find the wallet address in a sign-in message: the first line that, trimmed, reads
/// `Address: 0x...` with a 42-byte address. The address is returned in lowercase.
pub fn extract_address_from_nonce(nonce_message: &str) -> (r: Result<String, String>)
    ensures
        match find_address(nonce_message@) {
            Some(a) => r matches Ok(s) && s@ == lowercase_text(a) && (is_ascii_text(a) ==> s@ == a.map_values(
                |c: char| ascii_lower(c),
            )),
            None => r matches Err(e) && e@ == no_address_message(),
        },
{
    let v = chars_of(nonce_message);
    proof {
        reveal_strlit("Address:");
    }
    let label = chars_of("Address:");
    let mut start: usize = 0;
    proof {
        assert(v@.skip(0) =~= v@);
    }
    loop
        invariant
            v@ == nonce_message@,
            label@ == address_label(),
            start <= v@.len(),
            find_address(v@) == find_address(v@.skip(start as int)),
        decreases v@.len() - start,
    {
        let mut end = start;
        while end < v.len() && v[end] != '\n'
            invariant
                start <= end <= v@.len(),
                forall|i: int| start <= i < end ==> #[trigger] v@[i] != '\n',
            decreases v@.len() - end,
        {
            end = end + 1;
        }
        let ghost rest = v@.skip(start as int);
        proof {
            assert forall|i: int| 0 <= i < end - start implies #[trigger] rest[i] != '\n' by {
                assert(rest[i] == v@[start + i]);
            }
            lemma_first_line_len(rest, end - start);
            assert(rest.take(end - start) =~= v@.subrange(start as int, end as int));
        }
        match line_address_bounds(&v, &label, start, end) {
            Some((x, y)) => {
                let found = nonce_message.substring_char(x, y);
                return Ok(to_lowercase(found));
            },
            None => {},
        }
        if end == v.len() {
            proof {
                reveal_strlit("Could not extract address from nonce message");
            }
            return Err(String::from_str("Could not extract address from nonce message"));
        }
        proof {
            assert(rest.skip(end - start + 1) =~= v@.skip(end + 1));
        }
        start = end + 1;
    }
}

/// The first line of a sign-in message.
pub open spec fn sign_in_intro() -> Seq<char> {
    "openlaunch.io wants you to sign in with your wallet."@
}

/// The sign-in message a wallet is asked to sign: an introduction, a blank line, then the
/// address, the nonce (`address:timestamp:nonce_id`) and the time it was issued, one per line.
pub open spec fn sign_in_message(address: Seq<char>, timestamp: int, nonce_id: Seq<char>, issued_at: Seq<char>) -> Seq<char> {
    sign_in_intro() + "\n\nAddress: "@ + address + "\nNonce: "@ + address + ":"@ + int_text(timestamp) + ":"@
        + nonce_id + "\nIssued At: "@ + issued_at
}

/// Build the sign-in message for `address`; `timestamp` (unix seconds), `nonce_id`
/// (a random identifier) and `issued_at` (the issue time as RFC 3339 text) come from the caller.
pub fn sign_in_message_text(address: &str, timestamp: i64, nonce_id: &str, issued_at: &str) -> (r: String)
    ensures
        r@ == sign_in_message(address@, timestamp as int, nonce_id@, issued_at@),
{
    let mut m = String::from_str("openlaunch.io wants you to sign in with your wallet.");
    m.append("\n\nAddress: ");
    m.append(address);
    m.append("\nNonce: ");
    m.append(address);
    m.append(":");
    let ts = i128_to_string(timestamp as i128);
    m.append(ts.as_str());
    m.append(":");
    m.append(nonce_id);
    m.append("\nIssued At: ");
    m.append(issued_at);
    m
}

pub open spec fn no_newline(s: Seq<char>) -> bool {
    forall|i: int| 0 <= i < s.len() ==> #[trigger] s[i] != '\n'
}

proof fn lemma_find_address_step(line: Seq<char>, rest: Seq<char>)
    requires
        no_newline(line),
    ensures
        find_address(line + seq!['\n'] + rest) == match line_address(line) {
            Some(a) => Some(a),
            None => find_address(rest),
        },
{
    let s = line + seq!['\n'] + rest;
    assert forall|i: int| 0 <= i < line.len() implies #[trigger] s[i] != '\n' by {
        assert(s[i] == line[i]);
    }
    lemma_first_line_len(s, line.len() as int);
    assert(s.take(line.len() as int) =~= line);
    assert(s.skip(line.len() as int + 1) =~= rest);
}

proof fn lemma_find_address_last(line: Seq<char>)
    requires
        no_newline(line),
    ensures
        find_address(line) == line_address(line),
{
    lemma_first_line_len(line, line.len() as int);
    assert(line.take(line.len() as int) =~= line);
}

proof fn lemma_trim_start_len(s: Seq<char>)
    ensures
        trim_start(s).len() <= s.len(),
        s.len() > 0 && is_whitespace(s[0]) ==> trim_start(s).len() < s.len(),
    decreases s.len(),
{
    if s.len() > 0 && is_whitespace(s[0]) {
        lemma_trim_start_len(s.drop_first());
    }
}

proof fn lemma_trim_end_len(s: Seq<char>)
    ensures
        trim_end(s).len() <= s.len(),
        s.len() > 0 && is_whitespace(s.last()) ==> trim_end(s).len() < s.len(),
    decreases s.len(),
{
    if s.len() > 0 && is_whitespace(s.last()) {
        lemma_trim_end_len(s.drop_last());
    }
}

/// Text equal to its own trim has no whitespace at either end.
proof fn lemma_trimmed_ends(a: Seq<char>)
    requires
        trim(a) == a,
    ensures
        a.len() > 0 ==> !is_whitespace(a[0]) && !is_whitespace(a.last()),
{
    lemma_trim_start_len(a);
    lemma_trim_end_len(trim_start(a));
    if a.len() > 0 && !is_whitespace(a[0]) {
        lemma_trim_start_skip(a, 0);
        assert(a.skip(0) =~= a);
        lemma_trim_end_len(a);
    }
}

proof fn lemma_trim_end_keeps_first(s: Seq<char>)
    requires
        s.len() > 0,
        !is_whitespace(s[0]),
    ensures
        trim_end(s).len() > 0,
        trim_end(s)[0] == s[0],
    decreases s.len(),
{
    if is_whitespace(s.last()) {
        assert(s.len() > 1);
        assert(s.drop_last()[0] == s[0]);
        lemma_trim_end_keeps_first(s.drop_last());
    }
}

/// A line that starts with something other than whitespace or `A` names no address.
proof fn lemma_line_without_label(s: Seq<char>)
    requires
        s.len() > 0,
        !is_whitespace(s[0]),
        s[0] != 'A',
    ensures
        line_address(s) is None,
{
    lemma_trim_start_skip(s, 0);
    assert(s.skip(0) =~= s);
    lemma_trim_end_keeps_first(s);
    let t = trim(s);
    if has_prefix(t, address_label()) {
        assert(t.take(8)[0] == t[0]);
    }
}

/// The address line of a sign-in message names exactly the address written into it,
/// when that has the shape of an address.
proof fn lemma_address_line(a: Seq<char>)
    requires
        trim(a) == a,
    ensures
        line_address("Address: "@ + a) == if address_shape(a) { Some(a) } else { None },
{
    reveal_strlit("Address: ");
    let s = "Address: "@ + a;
    lemma_trimmed_ends(a);
    lemma_trim_start_skip(s, 0);
    assert(s.skip(0) =~= s);
    let label = address_label();
    if a.len() > 0 {
        assert(s.last() == a.last());
        lemma_trim_end_take(s, s.len() as int);
        assert(s.take(s.len() as int) =~= s);
        let t = trim(s);
        assert(t == s);
        assert(t.take(8) =~= label);
        let rest = t.skip(8);
        assert(rest =~= seq![' '] + a);
        assert(rest.drop_first() =~= a);
        lemma_trim_start_skip(a, 0);
        assert(a.skip(0) =~= a);
        assert(trim_start(rest) == a);
        lemma_trim_end_take(a, a.len() as int);
        assert(a.take(a.len() as int) =~= a);
        assert(trim(rest) == a);
    } else {
        assert(s =~= label.push(' '));
        assert(s.drop_last() =~= label);
        lemma_trim_end_take(label, 8);
        assert(label.take(8) =~= label);
        let t = trim(s);
        assert(t == label);
        assert(t.take(8) =~= label);
        assert(t.skip(8) =~= Seq::<char>::empty());
        assert(trim(t.skip(8)) =~= Seq::<char>::empty());
    }
}

proof fn lemma_decimal_digits_are_digits(n: nat)
    ensures
        forall|i: int| 0 <= i < decimal_digits(n).len() ==> '0' <= #[trigger] decimal_digits(n)[i] <= '9',
    decreases n,
{
    if n >= 10 {
        lemma_decimal_digits_are_digits(n / 10);
        let p = decimal_digits(n / 10);
        let d = digit_char((n % 10) as int);
        assert('0' <= d <= '9');
        assert forall|i: int| 0 <= i < decimal_digits(n).len() implies '0' <= #[trigger] decimal_digits(n)[i] <= '9' by {
            if i < p.len() {
                assert(decimal_digits(n)[i] == p[i]);
            } else {
                assert(decimal_digits(n)[i] == d);
            }
        }
    } else {
        let d = digit_char(n as int);
        assert('0' <= d <= '9');
        assert(decimal_digits(n) == seq![d]);
    }
}

proof fn lemma_int_text_no_newline(v: int)
    ensures
        no_newline(int_text(v)),
{
    if v < 0 {
        lemma_decimal_digits_are_digits((-v) as nat);
        let t = int_text(v);
        assert forall|i: int| 0 <= i < t.len() implies #[trigger] t[i] != '\n' by {
            if i > 0 {
                assert(t[i] == decimal_digits((-v) as nat)[i - 1]);
            }
        }
    } else {
        lemma_decimal_digits_are_digits(v as nat);
    }
}

/// The address a sign-in message was built for is the one found in it again: reading the
/// message back yields the address exactly when it has the shape of an address, and
/// nothing otherwise. (The address must not carry whitespace at its ends, and none of the
/// parts may contain a line feed.)
pub proof fn lemma_sign_in_message_round_trip(address: Seq<char>, timestamp: int, nonce_id: Seq<char>, issued_at: Seq<char>)
    requires
        trim(address) == address,
        no_newline(address),
        no_newline(nonce_id),
        no_newline(issued_at),
    ensures
        find_address(sign_in_message(address, timestamp, nonce_id, issued_at)) == if address_shape(address) {
            Some(address)
        } else {
            None
        },
{
    reveal_strlit("openlaunch.io wants you to sign in with your wallet.");
    reveal_strlit("\n\nAddress: ");
    reveal_strlit("Address: ");
    reveal_strlit("\nNonce: ");
    reveal_strlit("Nonce: ");
    reveal_strlit(":");
    reveal_strlit("\nIssued At: ");
    reveal_strlit("Issued At: ");
    let intro = sign_in_intro();
    let line3 = "Address: "@ + address;
    let line4 = "Nonce: "@ + address + ":"@ + int_text(timestamp) + ":"@ + nonce_id;
    let line5 = "Issued At: "@ + issued_at;
    let msg = sign_in_message(address, timestamp, nonce_id, issued_at);
    let tail4 = line4 + seq!['\n'] + line5;
    let tail3 = line3 + seq!['\n'] + tail4;
    let tail2 = Seq::<char>::empty() + seq!['\n'] + tail3;
    assert(msg =~= intro + seq!['\n'] + tail2);
    assert(no_newline(intro));
    assert(no_newline(Seq::<char>::empty()));
    assert(no_newline(line3)) by {
        assert forall|i: int| 0 <= i < line3.len() implies #[trigger] line3[i] != '\n' by {
            if i >= 9 {
                assert(line3[i] == address[i - 9]);
            }
        }
    }
    lemma_int_text_no_newline(timestamp);
    assert(no_newline(line4)) by {
        let t = int_text(timestamp);
        let n = address.len();
        assert forall|i: int| 0 <= i < line4.len() implies #[trigger] line4[i] != '\n' by {
            if 7 <= i < 7 + n {
                assert(line4[i] == address[i - 7]);
            } else if 8 + n <= i < 8 + n + t.len() {
                assert(line4[i] == t[i - 8 - n]);
            } else if 9 + n + t.len() <= i {
                assert(line4[i] == nonce_id[i - 9 - n - t.len()]);
            }
        }
    }
    assert(no_newline(line5)) by {
        assert forall|i: int| 0 <= i < line5.len() implies #[trigger] line5[i] != '\n' by {
            if i >= 11 {
                assert(line5[i] == issued_at[i - 11]);
            }
        }
    }
    lemma_find_address_step(intro, tail2);
    lemma_line_without_label(intro);
    lemma_find_address_step(Seq::<char>::empty(), tail3);
    assert(trim(Seq::<char>::empty()) =~= Seq::<char>::empty());
    lemma_find_address_step(line3, tail4);
    lemma_address_line(address);
    lemma_find_address_step(line4, line5);
    lemma_line_without_label(line4);
    lemma_find_address_last(line5);
    lemma_line_without_label(line5);
}

/// A session created for a signed-in wallet.
#[derive(Debug, Clone)]
pub struct SessionInfo {
    pub session_id: String,
    pub account_id: String,
    pub created_at: i64,
    pub expires_at: i64,
}

/// Why a session request is refused, checked in this order: the nonce was never issued
/// or has expired, the stored nonce differs from the one presented, the signature is
/// not a `0x`-prefixed 132-byte text.
pub open spec fn session_request_problem(stored_nonce: Option<Seq<char>>, nonce: Seq<char>, signature: Seq<char>) -> Option<Seq<char>> {
    match stored_nonce {
        None => Some("Nonce not found or expired"@),
        Some(stored) => if stored != nonce {
            Some("Nonce mismatch"@)
        } else if !(has_prefix(signature, hex_prefix()) && utf8_len(signature) == 132) {
            Some("Invalid signature format"@)
        } else {
            None
        },
    }
}

/// Check a session request against the nonce that was stored for its address (and has
/// just been consumed): it must exist, match the presented nonce, and the signature must
/// be well formed.
pub fn check_session_request(stored_nonce: Option<String>, nonce: &str, signature: &str) -> (r: Result<(), String>)
    ensures
        match session_request_problem(
            match stored_nonce {
                Some(s) => Some(s@),
                None => None,
            },
            nonce@,
            signature@,
        ) {
            Some(msg) => r matches Err(e) && e@ == msg,
            None => r is Ok,
        },
{
    let stored = match stored_nonce {
        None => return Err(String::from_str("Nonce not found or expired")),
        Some(s) => s,
    };
    if !same_text(stored.as_str(), nonce) {
        return Err(String::from_str("Nonce mismatch"));
    }
    let v = chars_of(signature);
    proof {
        assert(v@.subrange(0, v@.len() as int) =~= v@);
    }
    let well_formed = text_starts_with(signature, "0x") && utf8_len_upto(&v, 0, v.len(), 132) == 132;
    proof {
        reveal_strlit("0x");
        assert("0x"@ =~= hex_prefix());
    }
    if !well_formed {
        return Err(String::from_str("Invalid signature format"));
    }
    Ok(())
}

/// The session created at time `now` (unix seconds) for `account_id`; it expires
/// `SESSION_TTL_SECS` later.
pub fn new_session(session_id: String, account_id: String, now: i64) -> (info: SessionInfo)
    requires
        now + SESSION_TTL_SECS <= i64::MAX,
    ensures
        info.session_id == session_id,
        info.account_id == account_id,
        info.created_at == now,
        info.expires_at == now + SESSION_TTL_SECS,
{
    SessionInfo { session_id, account_id, created_at: now, expires_at: now + SESSION_TTL_SECS as i64 }
}

/// How long the browser keeps the session cookie, in seconds (7 days).
pub const SESSION_MAX_AGE_SECS: i64 = 604800;

/// The `Set-Cookie` value that hands `session_id` to the browser for `max_age` seconds:
/// readable by HTTP only, sent over HTTPS only, for the whole site, same-site `Lax`.
pub open spec fn session_cookie_text(session_id: Seq<char>, max_age: int) -> Seq<char> {
    "session="@ + session_id + "; HttpOnly; Secure; Path=/; Max-Age="@ + int_text(max_age) + "; SameSite=Lax"@
}

fn cookie_text(session_id: &str, max_age: i64) -> (r: String)
    ensures
        r@ == session_cookie_text(session_id@, max_age as int),
{
    let mut c = String::from_str("session=");
    c.append(session_id);
    c.append("; HttpOnly; Secure; Path=/; Max-Age=");
    let age = i128_to_string(max_age as i128);
    c.append(age.as_str());
    c.append("; SameSite=Lax");
    c
}

/// The cookie set when a session is created.
pub fn session_cookie_value(session_id: &str) -> (r: String)
    ensures
        r@ == session_cookie_text(session_id@, SESSION_MAX_AGE_SECS as int),
{
    cookie_text(session_id, SESSION_MAX_AGE_SECS)
}

/// The cookie set when a session is deleted: an empty session that expires at once.
pub fn expired_session_cookie() -> (r: String)
    ensures
        r@ == session_cookie_text(Seq::<char>::empty(), 0),
{
    proof {
        reveal_strlit("");
    }
    cookie_text("", 0)
}

} // verus!
