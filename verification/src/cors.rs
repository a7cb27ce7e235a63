use vstd::prelude::*;
use vstd::string::StrSliceExecFns;

use crate::text::{chars_of, segment_end, segment_len, trim, trim_bounds};

verus! {

broadcast use vstd::string::group_string_axioms;

/// A character that may stand in an HTTP header value: visible ASCII, a space, a tab,
/// or anything beyond ASCII (every byte of its UTF-8 encoding is then at least 0x80).
pub open spec fn header_char_ok(c: char) -> bool {
    (c as u32 >= 32 && c as u32 != 127) || c == '\t'
}

/// Whether `s` is acceptable as an HTTP header value.
pub open spec fn header_text_ok(s: Seq<char>) -> bool {
    forall|i: int| 0 <= i < s.len() ==> header_char_ok(#[trigger] s[i])
}

/// `http::HeaderValue::from_str` (reached through axum) succeeds exactly when every byte
/// of the text is at least 32 and not 127, or is a tab; on characters that is
/// `header_text_ok`.
#[verifier::external_body]
fn header_value_ok(s: &str) -> (r: bool)
    ensures
        r == header_text_ok(s@),
{
    axum::http::HeaderValue::from_str(s).is_ok()
}

/// The origins allowed when none are configured.
pub open spec fn default_origins() -> Seq<Seq<char>> {
    seq!["http://localhost:3000"@, "http://localhost:5173"@]
}

/// The origins listed in `s`: its comma-separated entries, trimmed, keeping those that
/// are valid header values, in order.
pub open spec fn listed_origins(s: Seq<char>) -> Seq<Seq<char>>
    decreases s.len(),
{
    let n = segment_len(s, ',');
    let t = trim(s.take(n as int));
    let head = if header_text_ok(t) {
        seq![t]
    } else {
        Seq::<Seq<char>>::empty()
    };
    if n < s.len() {
        head + listed_origins(s.skip(n as int + 1))
    } else {
        head
    }
}

/// The allowed origins for a configured list: the defaults when it is empty.
pub open spec fn allowed_origins_spec(configured: Seq<char>) -> Seq<Seq<char>> {
    if configured.len() == 0 {
        default_origins()
    } else {
        listed_origins(configured)
    }
}

/// The origins that cross-origin requests may come from, given the configured
/// comma-separated list (empty when nothing is configured).
pub fn allowed_origins(configured: &str) -> (r: Vec<String>)
    ensures
        r@.map_values(|o: String| o@) == allowed_origins_spec(configured@),
{
    let v = chars_of(configured);
    if v.len() == 0 {
        let mut out: Vec<String> = Vec::new();
        proof {
            reveal_strlit("http://localhost:3000");
            reveal_strlit("http://localhost:5173");
        }
        out.push(String::from_str("http://localhost:3000"));
        out.push(String::from_str("http://localhost:5173"));
        proof {
            assert(out@.map_values(|o: String| o@) =~= default_origins());
        }
        return out;
    }
    let mut out: Vec<String> = Vec::new();
    let mut start: usize = 0;
    proof {
        assert(v@.skip(0) =~= v@);
        assert(out@.map_values(|o: String| o@) + listed_origins(v@) =~= listed_origins(v@));
    }
    loop
        invariant
            v@ == configured@,
            v@.len() > 0,
            start <= v@.len(),
            out@.map_values(|o: String| o@) + listed_origins(v@.skip(start as int)) == listed_origins(v@),
        decreases v@.len() - start,
    {
        let ghost rest = v@.skip(start as int);
        let ghost before = out@.map_values(|o: String| o@);
        let end = segment_end(&v, start, ',');
        let (lo, hi) = trim_bounds(&v, start, end);
        let piece = configured.substring_char(lo, hi);
        let ghost t = trim(rest.take(end - start));
        proof {
            assert(piece@ == t);
        }
        let ok = header_value_ok(piece);
        if ok {
            out.push(piece.to_owned());
        }
        proof {
            let head = if header_text_ok(t) {
                seq![t]
            } else {
                Seq::<Seq<char>>::empty()
            };
            assert(out@.map_values(|o: String| o@) =~= before + head);
        }
        if end == v.len() {
            proof {
                assert(listed_origins(rest) == (if header_text_ok(t) {
                    seq![t]
                } else {
                    Seq::<Seq<char>>::empty()
                }));
                assert(out@.map_values(|o: String| o@) + Seq::<Seq<char>>::empty() =~= out@.map_values(|o: String| o@));
            }
            return out;
        }
        proof {
            assert(rest.skip(end - start + 1) =~= v@.skip(end + 1));
            let head = if header_text_ok(t) {
                seq![t]
            } else {
                Seq::<Seq<char>>::empty()
            };
            assert(listed_origins(rest) == head + listed_origins(v@.skip(end + 1)));
            assert(before + (head + listed_origins(v@.skip(end + 1))) =~= (before + head) + listed_origins(v@.skip(end + 1)));
        }
        start = end + 1;
    }
}

} // verus!
