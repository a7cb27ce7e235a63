use bigdecimal::BigDecimal;
use std::str::FromStr;
use vstd::prelude::*;

verus! {

#[verifier::external_type_specification]
#[verifier::external_body]
pub struct ExBigDecimal(BigDecimal);

/// Whether `BigDecimal::from_str` accepts the text `s`.
pub uninterp spec fn decimal_parses(s: Seq<char>) -> bool;

/// Whether the decimal read from text `a` is at least the decimal read from text `b`
/// (`BigDecimal`'s `>=`, on the values `BigDecimal::from_str` gives).
pub uninterp spec fn decimal_at_least(a: Seq<char>, b: Seq<char>) -> bool;

/// The text `BigDecimal`'s `Display` gives for the decimal read from text `s`.
pub uninterp spec fn decimal_normal_text(s: Seq<char>) -> Seq<char>;

/// A decimal read from text, together with the text it was read from.
pub struct ParsedDecimal {
    value: BigDecimal,
    source: Ghost<Seq<char>>,
}

impl ParsedDecimal {
    /// The text this decimal was read from.
    pub closed spec fn source(&self) -> Seq<char> {
        self.source@
    }
}

/// `BigDecimal::from_str`: succeeds exactly on the texts it accepts (`decimal_parses`);
/// the value read is kept with the text it came from.
#[verifier::external_body]
pub(crate) fn parse_decimal(s: &str) -> (r: Option<ParsedDecimal>)
    ensures
        (r is Some) == decimal_parses(s@),
        r matches Some(d) ==> d.source() == s@,
{
    match BigDecimal::from_str(s) {
        Ok(value) => Some(ParsedDecimal { value, source: Ghost(s@) }),
        Err(_) => None,
    }
}

/// `BigDecimal`'s `>=` on two decimals read from text: the comparison named by
/// `decimal_at_least` on their source texts.
#[verifier::external_body]
pub(crate) fn decimal_ge(a: &ParsedDecimal, b: &ParsedDecimal) -> (r: bool)
    ensures
        r == decimal_at_least(a.source(), b.source()),
{
    a.value >= b.value
}

/// `BigDecimal`'s `Display` (through `to_string`): the text named by
/// `decimal_normal_text` on the source text.
#[verifier::external_body]
pub(crate) fn decimal_to_text(d: &ParsedDecimal) -> (r: String)
    ensures
        r@ == decimal_normal_text(d.source()),
{
    d.value.to_string()
}

} // verus!
