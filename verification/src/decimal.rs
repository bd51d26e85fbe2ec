//! The boundary to `rust_decimal`: reading a decimal number from text and
//! writing one back. Nothing in this file is proved; the contracts below are
//! what the rest of the library assumes of that crate.

use vstd::prelude::*;
use rust_decimal::Decimal;
use std::str::FromStr;

verus! {

/// The largest magnitude a `rust_decimal::Decimal` holds as its mantissa: 2^96 - 1.
pub const DECIMAL_MANTISSA_MAX: i128 = 0x0000_0000_FFFF_FFFF_FFFF_FFFF_FFFF_FFFF;

/// The largest scale, the number of digits after the decimal point, that a
/// `rust_decimal::Decimal` takes.
pub const DECIMAL_SCALE_MAX: u32 = 28;

/// What `Decimal::from_str` makes of a text: the mantissa and the scale of the
/// number it reads, or `None` where it rejects the text.
pub uninterp spec fn decimal_parts(text: Seq<char>) -> Option<(int, nat)>;

/// What `Decimal`'s `to_string` prints for the number with the given
/// mantissa and scale, `mantissa / 10^scale`.
pub uninterp spec fn decimal_text(mantissa: int, scale: nat) -> Seq<char>;

/// Calls `Decimal::from_str`, then `Decimal::mantissa` and `Decimal::scale` on
/// what it read.
///
/// Assumed: the outcome depends on the text alone, and the mantissa of a
/// parsed number fits in 96 bits, which is all a `Decimal` stores.
#[verifier::external_body]
pub(crate) fn decimal_from_str(text: &str) -> (r: Option<(i128, u32)>)
    ensures
        match r {
            Some((mantissa, scale)) => {
                &&& decimal_parts(text@) == Some((mantissa as int, scale as nat))
                &&& -DECIMAL_MANTISSA_MAX <= mantissa <= DECIMAL_MANTISSA_MAX
            },
            None => decimal_parts(text@) is None,
        },
{
    match Decimal::from_str(text) {
        Ok(d) => Some((d.mantissa(), d.scale())),
        Err(_) => None,
    }
}

/// Calls `Decimal::try_from_i128_with_scale` and prints the number with
/// `to_string`.
///
/// Assumed: the constructor succeeds exactly where the scale is at most 28
/// and the mantissa has at most 96 bits, and the printed text depends on
/// mantissa and scale alone.
#[verifier::external_body]
pub(crate) fn decimal_to_string(mantissa: i128, scale: u32) -> (r: Option<String>)
    ensures
        r.is_some() == (scale <= DECIMAL_SCALE_MAX && -DECIMAL_MANTISSA_MAX <= mantissa
            <= DECIMAL_MANTISSA_MAX),
        r matches Some(s) ==> s@ == decimal_text(mantissa as int, scale as nat),
{
    match Decimal::try_from_i128_with_scale(mantissa, scale) {
        Ok(d) => Some(d.to_string()),
        Err(_) => None,
    }
}

} // verus!
