//! Adapter-specific options that the direct command line accepts as flags.

use vstd::prelude::*;

use crate::error::Operation;
use crate::json::{JsonModel, JsonNumber, JsonValue, NumberModel};
use crate::number::{decimal_text, parse_u64, parse_unsigned, u64_text};

verus! {

/// The values a native option takes.
#[derive(Clone, Copy, Debug, PartialEq, Eq, Structural)]
pub enum NativeOptionValueSpec {
    IntegerRange { min: u64, max: u64 },
}

/// The value a native option has when it is not given.
#[derive(Clone, Copy, Debug, PartialEq, Eq, Structural)]
pub enum NativeOptionDefault {
    Integer(u64),
}

/// A native option: its flag, its key among the operation options, the
/// operations that use it, its values and its default.
#[derive(Clone, Copy, Debug)]
pub struct NativeOptionSpec {
    pub flag: &'static str,
    pub option_key: &'static str,
    pub operations: &'static [Operation],
    pub value: NativeOptionValueSpec,
    pub default: Option<NativeOptionDefault>,
}

/// The message for a value outside an integer range.
pub open spec fn range_error_text(flag: Seq<char>, min: u64, max: u64) -> Seq<char> {
    flag + " must be an integer from "@ + decimal_text(min as nat) + " to "@ + decimal_text(max as nat)
}

/// What a native option makes of a value: a number in its range, or the
/// message saying which numbers it takes.
pub open spec fn native_value_spec(spec: NativeOptionSpec, value: Seq<char>) -> Result<JsonModel, Seq<char>> {
    match spec.value {
        NativeOptionValueSpec::IntegerRange { min, max } => match parse_unsigned(value, u64::MAX as nat) {
            Some(n) => if n < min || n > max {
                Err(range_error_text(spec.flag@, min, max))
            } else {
                Ok(JsonModel::Number(NumberModel::PosInt(n as u64)))
            },
            None => Err(range_error_text(spec.flag@, min, max)),
        },
    }
}

impl NativeOptionSpec {
    pub open spec fn spec_supports(self, operation: Operation) -> bool {
        self.operations@.contains(operation)
    }

    /// Whether the operation uses this option.
    pub fn supports(&self, operation: Operation) -> (r: bool)
        ensures
            r == self.spec_supports(operation),
    {
        let mut i: usize = 0;
        while i < self.operations.len()
            invariant
                i <= self.operations@.len(),
                forall|j: int| 0 <= j < i ==> self.operations@[j] != operation,
            decreases self.operations.len() - i,
        {
            if self.operations[i] == operation {
                return true;
            }
            i = i + 1;
        }
        false
    }

    /// Reads a value of the option.
    pub fn parse_value(&self, value: &str) -> (r: Result<JsonValue, String>)
        ensures
            match r {
                Ok(v) => native_value_spec(*self, value@) == Ok::<JsonModel, Seq<char>>(v@),
                Err(e) => native_value_spec(*self, value@) == Err::<JsonModel, Seq<char>>(e@),
            },
    {
        match self.value {
            NativeOptionValueSpec::IntegerRange { min, max } => match parse_u64(value) {
                Some(n) => if n < min || n > max {
                    Err(integer_range_error(self.flag, min, max))
                } else {
                    Ok(JsonValue::Number(JsonNumber::PosInt(n)))
                },
                None => Err(integer_range_error(self.flag, min, max)),
            },
        }
    }
}

fn integer_range_error(flag: &str, min: u64, max: u64) -> (r: String)
    ensures
        r@ == range_error_text(flag@, min, max),
{
    let mut m = String::from_str(flag);
    m.append(" must be an integer from ");
    m.append(u64_text(min).as_str());
    m.append(" to ");
    m.append(u64_text(max).as_str());
    m
}

/// A native option accepts exactly the decimal numbers within its range,
/// inclusive at both ends, and gives back the number read; every other
/// value is refused with the message naming the flag and the range. The
/// bounds themselves, written in decimal, are accepted.
pub proof fn law_native_value_range(spec: NativeOptionSpec, value: Seq<char>)
    ensures
        ({
            let NativeOptionValueSpec::IntegerRange { min, max } = spec.value;
            &&& native_value_spec(spec, value) is Ok <==> (parse_unsigned(value, u64::MAX as nat) matches Some(n) && min <= n <= max)
            &&& native_value_spec(spec, value) matches Ok(j) ==> parse_unsigned(value, u64::MAX as nat) matches Some(n) && j == JsonModel::Number(NumberModel::PosInt(n as u64))
            &&& native_value_spec(spec, value) matches Err(e) ==> e == range_error_text(spec.flag@, min, max)
            &&& min <= max ==> native_value_spec(spec, decimal_text(min as nat)) == Ok::<JsonModel, Seq<char>>(JsonModel::Number(NumberModel::PosInt(min)))
            &&& min <= max ==> native_value_spec(spec, decimal_text(max as nat)) == Ok::<JsonModel, Seq<char>>(JsonModel::Number(NumberModel::PosInt(max)))
        }),
{
    let NativeOptionValueSpec::IntegerRange { min, max } = spec.value;
    crate::number::law_decimal_text_reads_back(min as nat, u64::MAX as nat);
    crate::number::law_decimal_text_reads_back(max as nat, u64::MAX as nat);
}

} // verus!
