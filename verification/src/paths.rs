use crate::model_type::ModelType;
use vstd::prelude::*;
use vstd::string::StringExecFns;

verus! {

/// The character of one decimal digit.
pub open spec fn digit_seq(d: int) -> Seq<char> {
    if d == 0 {
        "0"@
    } else if d == 1 {
        "1"@
    } else if d == 2 {
        "2"@
    } else if d == 3 {
        "3"@
    } else if d == 4 {
        "4"@
    } else if d == 5 {
        "5"@
    } else if d == 6 {
        "6"@
    } else if d == 7 {
        "7"@
    } else if d == 8 {
        "8"@
    } else {
        "9"@
    }
}

/// Decimal digits of `n`, most significant first, without leading zeros
/// (a single `0` for zero).
pub open spec fn spec_decimal(n: nat) -> Seq<char>
    decreases n,
{
    if n < 10 {
        digit_seq(n as int)
    } else {
        spec_decimal(n / 10) + digit_seq((n % 10) as int)
    }
}

fn digit_str(d: usize) -> (r: &'static str)
    requires
        d < 10,
    ensures
        r@ == digit_seq(d as int),
{
    match d {
        0 => "0",
        1 => "1",
        2 => "2",
        3 => "3",
        4 => "4",
        5 => "5",
        6 => "6",
        7 => "7",
        8 => "8",
        _ => "9",
    }
}

/// Decimal rendering of an unsigned integer.
pub fn usize_to_string(n: usize) -> (r: String)
    ensures
        r@ == spec_decimal(n as nat),
    decreases n,
{
    if n < 10 {
        digit_str(n).to_owned()
    } else {
        proof {
            vstd::arithmetic::div_mod::lemma_div_is_strictly_smaller(n as int, 10);
        }
        let mut r: String = usize_to_string(n / 10);
        r.append(digit_str(n % 10));
        r
    }
}

/// Decimal digits of a signed integer: a minus sign for negative values,
/// then the digits of the magnitude.
pub open spec fn spec_int_decimal(n: int) -> Seq<char> {
    if n < 0 {
        "-"@ + spec_decimal((-n) as nat)
    } else {
        spec_decimal(n as nat)
    }
}

/// Decimal rendering of an unsigned 128-bit integer.
pub fn u128_to_string(n: u128) -> (r: String)
    ensures
        r@ == spec_decimal(n as nat),
    decreases n,
{
    if n < 10 {
        digit_str(n as usize).to_owned()
    } else {
        proof {
            vstd::arithmetic::div_mod::lemma_div_is_strictly_smaller(n as int, 10);
        }
        let mut r: String = u128_to_string(n / 10);
        r.append(digit_str((n % 10) as usize));
        r
    }
}

/// Decimal rendering of a signed 128-bit integer.
pub fn i128_to_string(n: i128) -> (r: String)
    ensures
        r@ == spec_int_decimal(n as int),
{
    if n >= 0 {
        u128_to_string(n as u128)
    } else {
        let magnitude: u128 = ((-(n + 1)) as u128) + 1;
        let mut r: String = "-".to_owned();
        let digits: String = u128_to_string(magnitude);
        r.append(digits.as_str());
        r
    }
}

/// Path of the persisted parameters of one model variant of one iteration:
/// `<output_dir>/<iteration_index>_<model_type>.json`.
pub fn model_path(output_dir: &str, iteration_index: usize, model_type: ModelType) -> (r: String)
    ensures
        r@ == output_dir@ + "/"@ + spec_decimal(iteration_index as nat) + "_"@
            + model_type.spec_label() + ".json"@,
{
    let mut r: String = output_dir.to_owned();
    r.append("/");
    let digits: String = usize_to_string(iteration_index);
    r.append(digits.as_str());
    r.append("_");
    r.append(model_type.label());
    r.append(".json");
    r
}

} // verus!
