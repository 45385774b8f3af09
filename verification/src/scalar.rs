//! The scalar normalizer: one wire value in, one canonical scalar out.
//!
//! The service writes the same count as `7` or `"7"` and the same flag as
//! `true`, `1` or `"1"`. An empty string stands for "unset": zero for a
//! count, `false` for a flag. Anything else is a reported failure; no value
//! is silently coerced.

use vstd::prelude::*;
use crate::decimal::{decimal_i64, decimal_text, format_i64, parse_i64};
use crate::error::{DecodeError, DecodeErrorView};
use crate::model::outcome;
use crate::wire::{WireNumber, WireValue, WireView};

verus! {

/// A canonical integer: a signed 64-bit value, held exactly.
#[derive(Debug, Clone, Copy, PartialEq, Eq)]
pub struct SNum(i64);

/// A canonical flag.
#[derive(Debug, Clone, Copy, PartialEq, Eq)]
pub struct SNBool(bool);

impl View for SNum {
    type V = i64;

    closed spec fn view(&self) -> i64 {
        self.0
    }
}

impl View for SNBool {
    type V = bool;

    closed spec fn view(&self) -> bool {
        self.0
    }
}

impl std::ops::Deref for SNum {
    type Target = i64;

    fn deref(&self) -> (value: &i64)
        ensures
            *value == self@,
    {
        &self.0
    }
}

impl SNum {
    /// The canonical integer with the given value.
    pub fn new(value: i64) -> (number: Self)
        ensures
            number@ == value,
    {
        SNum(value)
    }

    /// The integer held.
    pub fn into_inner(self) -> (value: i64)
        ensures
            value == self@,
    {
        self.0
    }

    /// Decodes a wire value as a canonical integer: [`normalize_integer`]
    /// as a constructor.
    pub fn deserialize(value: &WireValue) -> (result: Result<SNum, DecodeError>)
        ensures
            outcome(result) == integer_of(value@),
    {
        normalize_integer(value)
    }

    /// The integer in base 10, as it is shown to a reader. Reading the text
    /// back gives the integer.
    pub fn to_text(&self) -> (text: String)
        ensures
            text@ == decimal_text(self@ as int),
            decimal_i64(text@) == Some(self@),
    {
        format_i64(self.0)
    }
}

impl SNBool {
    /// The canonical flag with the given value.
    pub fn new(value: bool) -> (flag: Self)
        ensures
            flag@ == value,
    {
        SNBool(value)
    }

    /// The flag held.
    pub fn into_inner(self) -> (value: bool)
        ensures
            value == self@,
    {
        self.0
    }

    /// Decodes a wire value as a canonical flag: [`normalize_boolean`] as a
    /// constructor.
    pub fn deserialize(value: &WireValue) -> (result: Result<SNBool, DecodeError>)
        ensures
            outcome(result) == boolean_of(value@),
    {
        normalize_boolean(value)
    }

    /// The flag as it is shown to a reader: `true` or `false`.
    pub fn to_text(&self) -> (text: String)
        ensures
            text@ == if self@ {
                "true"@
            } else {
                "false"@
            },
    {
        if self.0 {
            "true".to_owned()
        } else {
            "false".to_owned()
        }
    }
}

/// What [`normalize_integer`] returns for a document.
///
/// A number must be an integer within the signed 64-bit range: one without
/// a signed or unsigned 64-bit reading, or with an unsigned reading beyond
/// the signed range, is out of range. A string is zero when empty, else it
/// must be a base-10 signed 64-bit integer. Every other kind is unsupported.
pub open spec fn integer_of(value: WireView) -> Result<i64, DecodeErrorView> {
    match value {
        WireView::Number(number) => match number.integer() {
            Some(n) => if i64::MIN <= n <= i64::MAX {
                Ok(n as i64)
            } else {
                Err(DecodeErrorView::NumberOutOfRange)
            },
            None => Err(DecodeErrorView::NumberOutOfRange),
        },
        WireView::String(text) => if text.len() == 0 {
            Ok(0i64)
        } else {
            match decimal_i64(text) {
                Some(n) => Ok(n),
                None => Err(DecodeErrorView::NotAnInteger),
            }
        },
        _ => Err(DecodeErrorView::UnsupportedShape),
    }
}

/// The flag that an integer encodes: 0 is `false`, 1 is `true`, and no other
/// integer is a flag.
pub open spec fn flag_of(n: int) -> Result<bool, DecodeErrorView> {
    if n == 0 {
        Ok(false)
    } else if n == 1 {
        Ok(true)
    } else {
        Err(DecodeErrorView::BooleanOutOfRange)
    }
}

/// What [`normalize_boolean`] returns for a document.
///
/// A boolean stands for itself. A number must be the integer 0 or 1. A
/// string is `false` when empty, else it must be a base-10 signed 64-bit
/// integer, which must be 0 or 1. Every other kind is unsupported.
///
/// A number is an integer here where it has a signed or an unsigned 64-bit
/// reading. Every other number is unsupported, not out of range: one with a
/// fraction or an exponent, and also one beyond both 64-bit ranges, such as
/// `100000000000000000000`, which the reader of the text hands over as a
/// double like any other real.
pub open spec fn boolean_of(value: WireView) -> Result<bool, DecodeErrorView> {
    match value {
        WireView::Bool(flag) => Ok(flag),
        WireView::Number(number) => match number.integer() {
            Some(n) => flag_of(n),
            None => Err(DecodeErrorView::UnsupportedShape),
        },
        WireView::String(text) => if text.len() == 0 {
            Ok(false)
        } else {
            match decimal_i64(text) {
                Some(n) => flag_of(n as int),
                None => Err(DecodeErrorView::NotABoolean),
            }
        },
        _ => Err(DecodeErrorView::UnsupportedShape),
    }
}

/// Decodes a wire value as a canonical integer.
pub fn normalize_integer(value: &WireValue) -> (result: Result<SNum, DecodeError>)
    ensures
        outcome(result) == integer_of(value@),
        // An integer number in range decodes to itself.
        value@ matches WireView::Number(number) ==> (number.integer() matches Some(n) ==> (i64::MIN
            <= n <= i64::MAX ==> outcome(result) == Ok::<i64, DecodeErrorView>(n as i64))),
        // The empty string is the "unset" marker and decodes to zero.
        value@ == WireView::String(Seq::<char>::empty()) ==> outcome(result) == Ok::<
            i64,
            DecodeErrorView,
        >(0i64),
{
    match value {
        WireValue::Number(number) => match number.signed {
            Some(n) => Ok(SNum(n)),
            None => match number.unsigned {
                Some(n) => if n <= i64::MAX as u64 {
                    Ok(SNum(n as i64))
                } else {
                    Err(DecodeError::NumberOutOfRange)
                },
                None => Err(DecodeError::NumberOutOfRange),
            },
        },
        WireValue::String(text) => {
            if text.as_str().is_empty() {
                Ok(SNum(0))
            } else {
                match parse_i64(text.as_str()) {
                    Some(n) => Ok(SNum(n)),
                    None => Err(DecodeError::NotAnInteger),
                }
            }
        },
        _ => Err(DecodeError::UnsupportedShape),
    }
}

/// The flag that an integer encodes, or the range failure.
pub fn flag_of_integer(n: i64) -> (result: Result<SNBool, DecodeError>)
    ensures
        outcome(result) == flag_of(n as int),
{
    if n == 0 {
        Ok(SNBool(false))
    } else if n == 1 {
        Ok(SNBool(true))
    } else {
        Err(DecodeError::BooleanOutOfRange)
    }
}

/// Decodes a wire value as a canonical flag.
pub fn normalize_boolean(value: &WireValue) -> (result: Result<SNBool, DecodeError>)
    ensures
        outcome(result) == boolean_of(value@),
        // An integer other than 0 and 1 is never taken for a flag.
        value@ matches WireView::Number(number) ==> (number.integer() matches Some(n) ==> (n != 0
            && n != 1 ==> outcome(result) == Err::<bool, DecodeErrorView>(
            DecodeErrorView::BooleanOutOfRange,
        ))),
        // The empty string is the "unset" marker and decodes to `false`.
        value@ == WireView::String(Seq::<char>::empty()) ==> outcome(result) == Ok::<
            bool,
            DecodeErrorView,
        >(false),
{
    match value {
        WireValue::Bool(flag) => Ok(SNBool(*flag)),
        WireValue::Number(number) => match number.signed {
            Some(n) => flag_of_integer(n),
            None => match number.unsigned {
                Some(n) => if n == 0 {
                    Ok(SNBool(false))
                } else if n == 1 {
                    Ok(SNBool(true))
                } else {
                    Err(DecodeError::BooleanOutOfRange)
                },
                None => Err(DecodeError::UnsupportedShape),
            },
        },
        WireValue::String(text) => {
            if text.as_str().is_empty() {
                Ok(SNBool(false))
            } else {
                match parse_i64(text.as_str()) {
                    Some(n) => flag_of_integer(n),
                    None => Err(DecodeError::NotABoolean),
                }
            }
        },
        _ => Err(DecodeError::UnsupportedShape),
    }
}

/// A numeric string decodes to the integer that the number it spells decodes
/// to: `"7"` and `7` are the same count.
pub proof fn numeric_string_decodes_as_number(text: Seq<char>, n: i64)
    requires
        decimal_i64(text) == Some(n),
    ensures
        text.len() > 0,
        integer_of(WireView::String(text)) == integer_of(WireView::Number(WireNumber::of_i64(n))),
        integer_of(WireView::String(text)) == Ok::<i64, DecodeErrorView>(n),
{
}

/// A numeric string decodes to the flag that the number it spells decodes
/// to, or fails in the same way: `"1"` and `1` are the same flag, and `"2"`
/// is as much out of range as `2`.
pub proof fn numeric_string_decodes_as_flag_number(text: Seq<char>, n: i64)
    requires
        decimal_i64(text) == Some(n),
    ensures
        boolean_of(WireView::String(text)) == boolean_of(WireView::Number(WireNumber::of_i64(n))),
{
}

/// The number that stands for a flag: 1 for `true`, 0 for `false`.
pub open spec fn flag_number(flag: bool) -> WireView {
    WireView::Number(
        WireNumber::of_i64(
            if flag {
                1i64
            } else {
                0i64
            },
        ),
    )
}

/// A flag survives being written again: whatever a document decodes to as a
/// flag, the number 1 or 0 that stands for that flag decodes to it too, and
/// so does the boolean.
pub proof fn flag_survives_rewriting(value: WireView, flag: bool)
    requires
        boolean_of(value) == Ok::<bool, DecodeErrorView>(flag),
    ensures
        boolean_of(flag_number(flag)) == boolean_of(value),
        boolean_of(WireView::Bool(flag)) == boolean_of(value),
{
}

/// Only 0 and 1 are flags: no document decodes to a flag through an integer
/// other than these two.
pub proof fn only_zero_and_one_are_flags(number: WireNumber, n: int)
    requires
        number.integer() == Some(n),
        n != 0,
        n != 1,
    ensures
        boolean_of(WireView::Number(number)) == Err::<bool, DecodeErrorView>(
            DecodeErrorView::BooleanOutOfRange,
        ),
{
}

} // verus!
