use vstd::prelude::*;

verus! {

/// The four 64-bit limbs, least significant first, of the 256-bit number that a
/// decimal text stands for, where it stands for one.
pub uninterp spec fn value_of_text(text: Seq<char>) -> Option<Seq<u64>>;

/// The decimal text of the number with the limbs `limbs` in a unit of
/// `decimals` decimal places, where `decimals` names a unit.
pub uninterp spec fn units_text(limbs: Seq<u64>, decimals: Seq<char>) -> Option<Seq<char>>;

/// Calls `alloy::primitives::U256::from_str_radix` with radix 10, and
/// `into_limbs` on what it returns. Not proved: that the limbs are those of the
/// number the text stands for, and that `None` comes back exactly where the
/// text is no number or the number needs more than 256 bits.
#[verifier::external_body]
fn value_from_text(text: &str) -> (r: Option<[u64; 4]>)
    ensures
        match r {
            Some(limbs) => value_of_text(text@) == Some(limbs@),
            None => value_of_text(text@).is_none(),
        },
{
    match alloy::primitives::U256::from_str_radix(text, 10) {
        Ok(value) => Some(value.into_limbs()),
        Err(_) => None,
    }
}

/// Calls `alloy::primitives::utils::format_units` on the number made by
/// `U256::from_limbs`. Not proved: that the text is the number shifted by the
/// unit's decimal places, and that `None` comes back exactly where `decimals`
/// names no unit.
#[verifier::external_body]
fn units_from_value(limbs: &[u64; 4], decimals: &str) -> (r: Option<String>)
    ensures
        match r {
            Some(text) => units_text(limbs@, decimals@) == Some(text@),
            None => units_text(limbs@, decimals@).is_none(),
        },
{
    let value = alloy::primitives::U256::from_limbs(*limbs);
    match alloy::primitives::utils::format_units(value, decimals) {
        Ok(text) => Some(text),
        Err(_) => None,
    }
}

/// The decimal text that a raw value in text form has in a unit of `decimals`
/// decimal places: the value is read first, then shifted.
pub open spec fn converted(value: Seq<char>, decimals: Seq<char>) -> Option<Seq<char>> {
    match value_of_text(value) {
        Some(limbs) => units_text(limbs, decimals),
        None => None,
    }
}

/// A raw 256-bit token value, as its limbs, least significant first.
#[derive(Clone, Copy, Debug)]
pub struct RawValue {
    pub limbs: [u64; 4],
}

impl RawValue {
    /// Reads a raw value from decimal text.
    pub fn parse(text: &str) -> (r: Option<RawValue>)
        ensures
            match r {
                Some(value) => value_of_text(text@) == Some(value.limbs@),
                None => value_of_text(text@).is_none(),
            },
    {
        match value_from_text(text) {
            Some(limbs) => Some(RawValue { limbs }),
            None => None,
        }
    }

    /// The value as decimal text in a unit of `decimals` decimal places.
    pub fn to_units(&self, decimals: &str) -> (r: Option<String>)
        ensures
            match r {
                Some(text) => units_text(self.limbs@, decimals@) == Some(text@),
                None => units_text(self.limbs@, decimals@).is_none(),
            },
    {
        units_from_value(&self.limbs, decimals)
    }
}

/// Converts a raw value in text form to decimal text.
pub fn convert(value: &str, decimals: &str) -> (r: Option<String>)
    ensures
        match r {
            Some(text) => converted(value@, decimals@) == Some(text@),
            None => converted(value@, decimals@).is_none(),
        },
{
    match RawValue::parse(value) {
        Some(raw) => raw.to_units(decimals),
        None => None,
    }
}

} // verus!
