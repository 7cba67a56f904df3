//! The `Bit` value: a two-state logical unit with a total boolean algebra,
//! numeric views, a default, and strict textual parsing and formatting.

use vstd::prelude::*;

verus! {

/// A two-valued logical unit. Exactly two inhabitants, `Zero` and `One`;
/// equality is structural and `Zero` orders before `One`.
#[derive(PartialEq, Eq, Structural, Debug, Ord, Clone, Copy, Hash)]
pub enum Bit {
    Zero,
    One,
}

impl PartialOrd for Bit {
    /// The total order on bits: `Zero` orders before `One`.
    fn partial_cmp(&self, other: &Bit) -> (r: Option<core::cmp::Ordering>) {
        match (*self, *other) {
            (Bit::Zero, Bit::Zero) => Some(core::cmp::Ordering::Equal),
            (Bit::Zero, Bit::One) => Some(core::cmp::Ordering::Less),
            (Bit::One, Bit::Zero) => Some(core::cmp::Ordering::Greater),
            (Bit::One, Bit::One) => Some(core::cmp::Ordering::Equal),
        }
    }
}

impl vstd::std_specs::cmp::PartialOrdSpecImpl for Bit {
    open spec fn obeys_partial_cmp_spec() -> bool {
        true
    }

    open spec fn partial_cmp_spec(&self, other: &Bit) -> Option<core::cmp::Ordering> {
        if bit_value(*self) < bit_value(*other) {
            Some(core::cmp::Ordering::Less)
        } else if bit_value(*self) == bit_value(*other) {
            Some(core::cmp::Ordering::Equal)
        } else {
            Some(core::cmp::Ordering::Greater)
        }
    }
}

/// The numeric view of a bit: `Zero` is 0 and `One` is 1.
pub open spec fn bit_value(x: Bit) -> int {
    match x {
        Bit::Zero => 0,
        Bit::One => 1,
    }
}

/// Negation truth table: `Zero` and `One` swap.
pub open spec fn spec_not(x: Bit) -> Bit {
    match x {
        Bit::Zero => Bit::One,
        Bit::One => Bit::Zero,
    }
}

/// Conjunction truth table: `One` exactly when both operands are `One`.
pub open spec fn spec_and(x: Bit, y: Bit) -> Bit {
    if x is One && y is One {
        Bit::One
    } else {
        Bit::Zero
    }
}

/// Disjunction truth table: `One` exactly when at least one operand is `One`.
pub open spec fn spec_or(x: Bit, y: Bit) -> Bit {
    if x is One || y is One {
        Bit::One
    } else {
        Bit::Zero
    }
}

/// Exclusive disjunction truth table: `One` exactly when the operands differ.
pub open spec fn spec_xor(x: Bit, y: Bit) -> Bit {
    if x == y {
        Bit::Zero
    } else {
        Bit::One
    }
}

impl Bit {
    /// The signed numeric view: `Zero` is 0 and `One` is 1.
    pub fn to_i32(&self) -> (r: i32)
        ensures
            r == bit_value(*self),
    {
        match *self {
            Bit::Zero => 0,
            Bit::One => 1,
        }
    }

    /// The unsigned numeric view: `Zero` is 0 and `One` is 1.
    pub fn to_u32(&self) -> (r: u32)
        ensures
            r == bit_value(*self),
    {
        match *self {
            Bit::Zero => 0u32,
            Bit::One => 1u32,
        }
    }
}

/// The canonical negation: both `!` operators delegate here.
pub fn not_impl(x: &Bit) -> (r: Bit)
    ensures
        r == spec_not(*x),
{
    match *x {
        Bit::Zero => Bit::One,
        Bit::One => Bit::Zero,
    }
}

impl core::ops::Not for Bit {
    type Output = Bit;

    fn not(self) -> (r: Bit)
        ensures
            r == spec_not(self),
    {
        not_impl(&self)
    }
}

impl vstd::std_specs::ops::NotSpecImpl for Bit {
    open spec fn obeys_not_spec() -> bool {
        true
    }

    open spec fn not_req(self) -> bool {
        true
    }

    open spec fn not_spec(self) -> Self::Output {
        spec_not(self)
    }
}

impl<'a> core::ops::Not for &'a Bit {
    type Output = Bit;

    fn not(self) -> (r: Bit)
        ensures
            r == spec_not(*self),
    {
        not_impl(self)
    }
}

impl<'a> vstd::std_specs::ops::NotSpecImpl for &'a Bit {
    open spec fn obeys_not_spec() -> bool {
        true
    }

    open spec fn not_req(self) -> bool {
        true
    }

    open spec fn not_spec(self) -> Self::Output {
        spec_not(*self)
    }
}

/// The canonical conjunction: all four `&` operators delegate here.
pub fn bitand_impl(x: &Bit, y: &Bit) -> (r: Bit)
    ensures
        r == spec_and(*x, *y),
{
    match (*x, *y) {
        (Bit::Zero, Bit::Zero) => Bit::Zero,
        (Bit::Zero, Bit::One) => Bit::Zero,
        (Bit::One, Bit::Zero) => Bit::Zero,
        (Bit::One, Bit::One) => Bit::One,
    }
}

impl core::ops::BitAnd for Bit {
    type Output = Bit;

    fn bitand(self, rhs: Bit) -> (r: Bit)
        ensures
            r == spec_and(self, rhs),
    {
        bitand_impl(&self, &rhs)
    }
}

impl vstd::std_specs::ops::BitAndSpecImpl for Bit {
    open spec fn obeys_bitand_spec() -> bool {
        true
    }

    open spec fn bitand_req(self, rhs: Bit) -> bool {
        true
    }

    open spec fn bitand_spec(self, rhs: Bit) -> Self::Output {
        spec_and(self, rhs)
    }
}

impl<'a> core::ops::BitAnd<Bit> for &'a Bit {
    type Output = Bit;

    fn bitand(self, rhs: Bit) -> (r: Bit)
        ensures
            r == spec_and(*self, rhs),
    {
        bitand_impl(self, &rhs)
    }
}

impl<'a> vstd::std_specs::ops::BitAndSpecImpl<Bit> for &'a Bit {
    open spec fn obeys_bitand_spec() -> bool {
        true
    }

    open spec fn bitand_req(self, rhs: Bit) -> bool {
        true
    }

    open spec fn bitand_spec(self, rhs: Bit) -> Self::Output {
        spec_and(*self, rhs)
    }
}

impl<'a> core::ops::BitAnd<&'a Bit> for Bit {
    type Output = Bit;

    fn bitand(self, rhs: &'a Bit) -> (r: Bit)
        ensures
            r == spec_and(self, *rhs),
    {
        bitand_impl(&self, rhs)
    }
}

impl<'a> vstd::std_specs::ops::BitAndSpecImpl<&'a Bit> for Bit {
    open spec fn obeys_bitand_spec() -> bool {
        true
    }

    open spec fn bitand_req(self, rhs: &'a Bit) -> bool {
        true
    }

    open spec fn bitand_spec(self, rhs: &'a Bit) -> Self::Output {
        spec_and(self, *rhs)
    }
}

impl<'a, 'b> core::ops::BitAnd<&'a Bit> for &'b Bit {
    type Output = Bit;

    fn bitand(self, rhs: &'a Bit) -> (r: Bit)
        ensures
            r == spec_and(*self, *rhs),
    {
        bitand_impl(self, rhs)
    }
}

impl<'a, 'b> vstd::std_specs::ops::BitAndSpecImpl<&'a Bit> for &'b Bit {
    open spec fn obeys_bitand_spec() -> bool {
        true
    }

    open spec fn bitand_req(self, rhs: &'a Bit) -> bool {
        true
    }

    open spec fn bitand_spec(self, rhs: &'a Bit) -> Self::Output {
        spec_and(*self, *rhs)
    }
}

/// The canonical disjunction: all four `|` operators delegate here.
pub fn bitor_impl(x: &Bit, y: &Bit) -> (r: Bit)
    ensures
        r == spec_or(*x, *y),
{
    match (*x, *y) {
        (Bit::Zero, Bit::Zero) => Bit::Zero,
        (Bit::Zero, Bit::One) => Bit::One,
        (Bit::One, Bit::Zero) => Bit::One,
        (Bit::One, Bit::One) => Bit::One,
    }
}

impl core::ops::BitOr for Bit {
    type Output = Bit;

    fn bitor(self, rhs: Bit) -> (r: Bit)
        ensures
            r == spec_or(self, rhs),
    {
        bitor_impl(&self, &rhs)
    }
}

impl vstd::std_specs::ops::BitOrSpecImpl for Bit {
    open spec fn obeys_bitor_spec() -> bool {
        true
    }

    open spec fn bitor_req(self, rhs: Bit) -> bool {
        true
    }

    open spec fn bitor_spec(self, rhs: Bit) -> Self::Output {
        spec_or(self, rhs)
    }
}

impl<'a> core::ops::BitOr<Bit> for &'a Bit {
    type Output = Bit;

    fn bitor(self, rhs: Bit) -> (r: Bit)
        ensures
            r == spec_or(*self, rhs),
    {
        bitor_impl(self, &rhs)
    }
}

impl<'a> vstd::std_specs::ops::BitOrSpecImpl<Bit> for &'a Bit {
    open spec fn obeys_bitor_spec() -> bool {
        true
    }

    open spec fn bitor_req(self, rhs: Bit) -> bool {
        true
    }

    open spec fn bitor_spec(self, rhs: Bit) -> Self::Output {
        spec_or(*self, rhs)
    }
}

impl<'a> core::ops::BitOr<&'a Bit> for Bit {
    type Output = Bit;

    fn bitor(self, rhs: &'a Bit) -> (r: Bit)
        ensures
            r == spec_or(self, *rhs),
    {
        bitor_impl(&self, rhs)
    }
}

impl<'a> vstd::std_specs::ops::BitOrSpecImpl<&'a Bit> for Bit {
    open spec fn obeys_bitor_spec() -> bool {
        true
    }

    open spec fn bitor_req(self, rhs: &'a Bit) -> bool {
        true
    }

    open spec fn bitor_spec(self, rhs: &'a Bit) -> Self::Output {
        spec_or(self, *rhs)
    }
}

impl<'a, 'b> core::ops::BitOr<&'a Bit> for &'b Bit {
    type Output = Bit;

    fn bitor(self, rhs: &'a Bit) -> (r: Bit)
        ensures
            r == spec_or(*self, *rhs),
    {
        bitor_impl(self, rhs)
    }
}

impl<'a, 'b> vstd::std_specs::ops::BitOrSpecImpl<&'a Bit> for &'b Bit {
    open spec fn obeys_bitor_spec() -> bool {
        true
    }

    open spec fn bitor_req(self, rhs: &'a Bit) -> bool {
        true
    }

    open spec fn bitor_spec(self, rhs: &'a Bit) -> Self::Output {
        spec_or(*self, *rhs)
    }
}

/// The canonical exclusive disjunction: all four `^` operators delegate here.
pub fn bitxor_impl(x: &Bit, y: &Bit) -> (r: Bit)
    ensures
        r == spec_xor(*x, *y),
{
    match (*x, *y) {
        (Bit::Zero, Bit::Zero) => Bit::Zero,
        (Bit::Zero, Bit::One) => Bit::One,
        (Bit::One, Bit::Zero) => Bit::One,
        (Bit::One, Bit::One) => Bit::Zero,
    }
}

impl core::ops::BitXor for Bit {
    type Output = Bit;

    fn bitxor(self, rhs: Bit) -> (r: Bit)
        ensures
            r == spec_xor(self, rhs),
    {
        bitxor_impl(&self, &rhs)
    }
}

impl vstd::std_specs::ops::BitXorSpecImpl for Bit {
    open spec fn obeys_bitxor_spec() -> bool {
        true
    }

    open spec fn bitxor_req(self, rhs: Bit) -> bool {
        true
    }

    open spec fn bitxor_spec(self, rhs: Bit) -> Self::Output {
        spec_xor(self, rhs)
    }
}

impl<'a> core::ops::BitXor<Bit> for &'a Bit {
    type Output = Bit;

    fn bitxor(self, rhs: Bit) -> (r: Bit)
        ensures
            r == spec_xor(*self, rhs),
    {
        bitxor_impl(self, &rhs)
    }
}

impl<'a> vstd::std_specs::ops::BitXorSpecImpl<Bit> for &'a Bit {
    open spec fn obeys_bitxor_spec() -> bool {
        true
    }

    open spec fn bitxor_req(self, rhs: Bit) -> bool {
        true
    }

    open spec fn bitxor_spec(self, rhs: Bit) -> Self::Output {
        spec_xor(*self, rhs)
    }
}

impl<'a> core::ops::BitXor<&'a Bit> for Bit {
    type Output = Bit;

    fn bitxor(self, rhs: &'a Bit) -> (r: Bit)
        ensures
            r == spec_xor(self, *rhs),
    {
        bitxor_impl(&self, rhs)
    }
}

impl<'a> vstd::std_specs::ops::BitXorSpecImpl<&'a Bit> for Bit {
    open spec fn obeys_bitxor_spec() -> bool {
        true
    }

    open spec fn bitxor_req(self, rhs: &'a Bit) -> bool {
        true
    }

    open spec fn bitxor_spec(self, rhs: &'a Bit) -> Self::Output {
        spec_xor(self, *rhs)
    }
}

impl<'a, 'b> core::ops::BitXor<&'a Bit> for &'b Bit {
    type Output = Bit;

    fn bitxor(self, rhs: &'a Bit) -> (r: Bit)
        ensures
            r == spec_xor(*self, *rhs),
    {
        bitxor_impl(self, rhs)
    }
}

impl<'a, 'b> vstd::std_specs::ops::BitXorSpecImpl<&'a Bit> for &'b Bit {
    open spec fn obeys_bitxor_spec() -> bool {
        true
    }

    open spec fn bitxor_req(self, rhs: &'a Bit) -> bool {
        true
    }

    open spec fn bitxor_spec(self, rhs: &'a Bit) -> Self::Output {
        spec_xor(*self, *rhs)
    }
}

impl Default for Bit {
    /// The default bit is `Zero`.
    fn default() -> (r: Bit)
        ensures
            r == Bit::Zero,
    {
        Bit::Zero
    }
}

/// The error raised when parse input is not exactly `"0"` or `"1"`.
/// It carries no data: there is exactly one failure cause.
#[derive(PartialEq, Eq, Structural, Debug)]
pub struct ParseBitError;

/// The text a bit formats to: `Zero` to `"0"`, `One` to `"1"`.
pub open spec fn format_spec(b: Bit) -> Seq<char> {
    match b {
        Bit::Zero => seq!['0'],
        Bit::One => seq!['1'],
    }
}

/// The strict, exact-match parse: exactly `"0"` gives `Zero` and exactly
/// `"1"` gives `One`; every other text is rejected. No trimming, no
/// case-folding.
pub open spec fn parse_spec(s: Seq<char>) -> Result<Bit, ParseBitError> {
    if s == format_spec(Bit::Zero) {
        Ok(Bit::Zero)
    } else if s == format_spec(Bit::One) {
        Ok(Bit::One)
    } else {
        Err(ParseBitError)
    }
}

impl Bit {
    /// Parses a bit from text, accepting exactly the literal strings
    /// `"0"` and `"1"`.
    pub fn parse(s: &str) -> (r: Result<Bit, ParseBitError>)
        ensures
            r == parse_spec(s@),
    {
        proof {
            reveal_strlit("0");
            reveal_strlit("1");
        }
        if s.unicode_len() == 1 {
            let c = s.get_char(0);
            if c == '0' {
                proof {
                    assert(s@ =~= format_spec(Bit::Zero));
                }
                Ok(Bit::Zero)
            } else if c == '1' {
                proof {
                    assert(s@ =~= format_spec(Bit::One));
                    assert(s@ != format_spec(Bit::Zero));
                }
                Ok(Bit::One)
            } else {
                proof {
                    assert(s@ != format_spec(Bit::Zero));
                    assert(s@ != format_spec(Bit::One));
                }
                Err(ParseBitError)
            }
        } else {
            proof {
                assert(s@ != format_spec(Bit::Zero));
                assert(s@ != format_spec(Bit::One));
            }
            Err(ParseBitError)
        }
    }

    /// Formats the bit as its one-character text, `"0"` or `"1"`.
    pub fn to_string(&self) -> (r: String)
        ensures
            r@ == format_spec(*self),
    {
        proof {
            reveal_strlit("0");
            reveal_strlit("1");
        }
        match *self {
            Bit::Zero => {
                let r = "0".to_owned();
                proof {
                    assert(r@ =~= format_spec(Bit::Zero));
                }
                r
            },
            Bit::One => {
                let r = "1".to_owned();
                proof {
                    assert(r@ =~= format_spec(Bit::One));
                }
                r
            },
        }
    }
}

impl core::str::FromStr for Bit {
    type Err = ParseBitError;

    fn from_str(s: &str) -> Result<Bit, ParseBitError> {
        Bit::parse(s)
    }
}

impl ParseBitError {
    /// The fixed human-readable message of this error.
    pub fn to_string(&self) -> (r: String)
        ensures
            r@ == "provided string was not `0` or `1`"@,
    {
        "provided string was not `0` or `1`".to_owned()
    }

    /// The fixed machine-readable category of this error.
    pub fn description(&self) -> (r: &'static str)
        ensures
            r@ == "failed to parse Bit"@,
    {
        "failed to parse Bit"
    }
}

/// Round-trip law: formatting a bit and parsing the text back yields the
/// same bit, for both inhabitants.
pub proof fn lemma_parse_format_round_trip(b: Bit)
    ensures
        parse_spec(format_spec(b)) == Ok::<Bit, ParseBitError>(b),
{
    match b {
        Bit::Zero => {
        },
        Bit::One => {
            assert(format_spec(Bit::One)[0] != format_spec(Bit::Zero)[0]);
        },
    }
}

} // verus!
