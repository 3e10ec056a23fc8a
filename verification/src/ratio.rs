use vstd::prelude::*;
use vstd::string::StringExecFns;

verus! {

/// An exact rational scalar: monetary amounts and utilities that arise from
/// size-weighted averages and basis-point normalisation are kept as
/// numerator/denominator pairs instead of being rounded.
#[derive(Debug, Clone, Copy, PartialEq, Eq, Structural)]
pub struct Ratio {
    pub num: i128,
    pub den: i128,
}

impl Ratio {
    /// A ratio is well formed when its denominator is positive, so that the
    /// represented value is `num / den` with the sign carried by `num`.
    pub open spec fn wf(self) -> bool {
        self.den >= 1
    }

    /// Both ratios represent the same rational value.
    pub open spec fn same_value(self, other: Ratio) -> bool {
        self.num * other.den == other.num * self.den
    }

    /// The ratio represents exactly the integer `v`.
    pub open spec fn is_int(self, v: int) -> bool {
        self.num == v * self.den
    }

    /// This ratio's value is strictly below the other's; meaningful only for
    /// well-formed ratios.
    pub open spec fn lt(self, other: Ratio) -> bool {
        self.num * other.den < other.num * self.den
    }

    /// The exact integer `v` as a ratio.
    pub fn from_int(v: i128) -> (r: Ratio)
        ensures
            r.wf(),
            r.is_int(v as int),
            r.num == v,
            r.den == 1,
    {
        Ratio { num: v, den: 1 }
    }

    /// Decimal rendering `<num>/<den>`.
    pub open spec fn spec_text(self) -> Seq<char> {
        crate::paths::spec_int_decimal(self.num as int) + "/"@ + crate::paths::spec_int_decimal(
            self.den as int,
        )
    }

    /// Decimal rendering `<num>/<den>`.
    pub fn to_text(&self) -> (r: String)
        ensures
            r@ == self.spec_text(),
    {
        let mut r: String = crate::paths::i128_to_string(self.num);
        r.append("/");
        let den_text: String = crate::paths::i128_to_string(self.den);
        r.append(den_text.as_str());
        r
    }

    /// Zero.
    pub fn zero() -> (r: Ratio)
        ensures
            r.wf(),
            r.is_int(0),
            r.num == 0,
            r.den == 1,
    {
        Ratio { num: 0, den: 1 }
    }
}

} // verus!
