//! Readable messages of the pod errors.
use vstd::prelude::*;
use vstd::string::StringExecFns;

use crate::spa::pod::PodError;

verus! {

/// The character of the decimal digit `d`.
pub open spec fn spec_digit(d: u64) -> char {
    if d == 0 {
        '0'
    } else if d == 1 {
        '1'
    } else if d == 2 {
        '2'
    } else if d == 3 {
        '3'
    } else if d == 4 {
        '4'
    } else if d == 5 {
        '5'
    } else if d == 6 {
        '6'
    } else if d == 7 {
        '7'
    } else if d == 8 {
        '8'
    } else {
        '9'
    }
}

/// The decimal writing of `n`, without leading zeros.
pub open spec fn spec_decimal(n: u64) -> Seq<char>
    decreases n,
{
    if n < 10 {
        seq![spec_digit(n)]
    } else {
        spec_decimal(n / 10) + seq![spec_digit(n % 10)]
    }
}

/// The text of the decimal digit `d`.
fn digit_text(d: u64) -> (text: &'static str)
    requires
        d < 10,
    ensures
        text@ == seq![spec_digit(d)],
{
    proof {
        reveal_strlit("0");
        reveal_strlit("1");
        reveal_strlit("2");
        reveal_strlit("3");
        reveal_strlit("4");
        reveal_strlit("5");
        reveal_strlit("6");
        reveal_strlit("7");
        reveal_strlit("8");
        reveal_strlit("9");
    }
    if d == 0 {
        "0"
    } else if d == 1 {
        "1"
    } else if d == 2 {
        "2"
    } else if d == 3 {
        "3"
    } else if d == 4 {
        "4"
    } else if d == 5 {
        "5"
    } else if d == 6 {
        "6"
    } else if d == 7 {
        "7"
    } else if d == 8 {
        "8"
    } else {
        "9"
    }
}

/// Append the decimal writing of `n` to `text`.
pub fn push_decimal(text: &mut String, n: u64)
    ensures
        final(text)@ == old(text)@ + spec_decimal(n),
    decreases n,
{
    if n >= 10 {
        push_decimal(text, n / 10);
    }
    text.append(digit_text(n % 10));
}

/// The message of the error `e`.
pub open spec fn spec_message(e: PodError) -> Seq<char> {
    match e {
        PodError::DataIsTooShort(expected, actual) => "POD data size is too small for that type, expected "@
            + spec_decimal(expected as u64) + " > actual "@ + spec_decimal(actual as u64),
        PodError::UnknownPodTypeToDowncast => "Cannot downcast Pod, child type is unknown"@,
        PodError::WrongPodTypeToCast(cast_type, actual_type) => "Cannot cast Pod with type "@
            + spec_decimal(actual_type as u64) + " to type "@ + spec_decimal(cast_type as u64),
        PodError::StringIsNotNullTerminated => "String is not null terminated"@,
        PodError::IndexIsOutOfRange => "Index is out of range"@,
        PodError::ChoiceElementMissing => "Cannot find required element for choice type"@,
        PodError::UnexpectedChoiceElement => "Unexpected element in the choice type"@,
        PodError::UnexpectedChoiceElementSize(expected, actual) => "Unexpected choice element size, expected "@
            + spec_decimal(expected as u64) + " != actual "@ + spec_decimal(actual as u64),
        PodError::UnsupportedChoiceElementType => "Unsupported choice element type"@,
        PodError::UnexpectedControlType(t) => "Unexpected control type "@ + spec_decimal(t as u64),
        PodError::UnexpectedObjectType(t) => "Unexpected object type "@ + spec_decimal(t as u64),
        PodError::UnexpectedChoiceType(expected, actual) => "Unexpected choice type, expected "@
            + spec_decimal(expected as u64) + " actual "@ + spec_decimal(actual as u64),
        PodError::PodIsNotAligned => "Pod is not aligned!"@,
    }
}

impl PodError {
    /// A readable message describing the error; sizes and types are written in decimal.
    pub fn message(&self) -> (text: String)
        ensures
            text@ == spec_message(*self),
    {
        match *self {
            PodError::DataIsTooShort(expected, actual) => {
                let mut text = String::from_str("POD data size is too small for that type, expected ");
                push_decimal(&mut text, expected as u64);
                text.append(" > actual ");
                push_decimal(&mut text, actual as u64);
                text
            },
            PodError::UnknownPodTypeToDowncast => String::from_str(
                "Cannot downcast Pod, child type is unknown",
            ),
            PodError::WrongPodTypeToCast(cast_type, actual_type) => {
                let mut text = String::from_str("Cannot cast Pod with type ");
                push_decimal(&mut text, actual_type as u64);
                text.append(" to type ");
                push_decimal(&mut text, cast_type as u64);
                text
            },
            PodError::StringIsNotNullTerminated => String::from_str("String is not null terminated"),
            PodError::IndexIsOutOfRange => String::from_str("Index is out of range"),
            PodError::ChoiceElementMissing => String::from_str(
                "Cannot find required element for choice type",
            ),
            PodError::UnexpectedChoiceElement => String::from_str(
                "Unexpected element in the choice type",
            ),
            PodError::UnexpectedChoiceElementSize(expected, actual) => {
                let mut text = String::from_str("Unexpected choice element size, expected ");
                push_decimal(&mut text, expected as u64);
                text.append(" != actual ");
                push_decimal(&mut text, actual as u64);
                text
            },
            PodError::UnsupportedChoiceElementType => String::from_str(
                "Unsupported choice element type",
            ),
            PodError::UnexpectedControlType(t) => {
                let mut text = String::from_str("Unexpected control type ");
                push_decimal(&mut text, t as u64);
                text
            },
            PodError::UnexpectedObjectType(t) => {
                let mut text = String::from_str("Unexpected object type ");
                push_decimal(&mut text, t as u64);
                text
            },
            PodError::UnexpectedChoiceType(expected, actual) => {
                let mut text = String::from_str("Unexpected choice type, expected ");
                push_decimal(&mut text, expected as u64);
                text.append(" actual ");
                push_decimal(&mut text, actual as u64);
                text
            },
            PodError::PodIsNotAligned => String::from_str("Pod is not aligned!"),
        }
    }
}

} // verus!
