//! One database cell, as it travels between storage, records and files.

use vstd::prelude::*;
use crate::encoding::{encode_standard, encoded_length, standard_encoding};

verus! {

/// The value of one cell. A `Real` holds the bits of an IEEE 754 binary64
/// number; which variant a cell becomes is decided by the declared type of its
/// column alone.
#[derive(Clone, Debug, PartialEq)]
pub enum Value {
    Null,
    Integer(i64),
    Real(u64),
    Text(String),
    Blob(Vec<u8>),
}

/// What a [`Value`] holds, as mathematics sees it.
pub enum ValueView {
    Null,
    Integer(i64),
    Real(u64),
    Text(Seq<char>),
    Blob(Seq<u8>),
}

impl View for Value {
    type V = ValueView;

    open spec fn view(&self) -> ValueView {
        match self {
            Value::Null => ValueView::Null,
            Value::Integer(number) => ValueView::Integer(*number),
            Value::Real(bits) => ValueView::Real(*bits),
            Value::Text(text) => ValueView::Text(text@),
            Value::Blob(bytes) => ValueView::Blob(bytes@),
        }
    }
}

/// A value as it crosses a boundary that carries text only: a blob has become
/// its base64 text, and a real is always finite.
#[derive(Clone, Debug, PartialEq)]
pub enum WireValue {
    Null,
    Integer(i64),
    Real(u64),
    Text(String),
}

/// What a [`WireValue`] holds.
pub enum WireView {
    Null,
    Integer(i64),
    Real(u64),
    Text(Seq<char>),
}

impl View for WireValue {
    type V = WireView;

    open spec fn view(&self) -> WireView {
        match self {
            WireValue::Null => WireView::Null,
            WireValue::Integer(number) => WireView::Integer(*number),
            WireValue::Real(bits) => WireView::Real(*bits),
            WireValue::Text(text) => WireView::Text(text@),
        }
    }
}

/// The exponent field of a binary64 bit pattern: the eleven bits below the
/// sign bit.
pub open spec fn exponent_field(bits: u64) -> int {
    (bits as int / 0x10_0000_0000_0000) % 0x800
}

/// Whether a binary64 bit pattern is a finite number: neither an infinity nor
/// a NaN, which are the patterns whose exponent field holds ones only.
pub open spec fn is_finite_real(bits: u64) -> bool {
    exponent_field(bits) != 0x7ff
}

/// The form in which `value` crosses a text-only boundary.
pub open spec fn wire_form(value: ValueView) -> WireView {
    match value {
        ValueView::Null => WireView::Null,
        ValueView::Integer(number) => WireView::Integer(number),
        ValueView::Real(bits) => if is_finite_real(bits) {
            WireView::Real(bits)
        } else {
            WireView::Null
        },
        ValueView::Text(text) => WireView::Text(text),
        ValueView::Blob(bytes) => WireView::Text(standard_encoding(bytes)),
    }
}

/// Whether `value` has a wire form that fits in memory: all values but blobs
/// whose encoding would be longer than a string can be.
pub open spec fn has_wire_form(value: ValueView) -> bool {
    value matches ValueView::Blob(bytes) ==> encoded_length(bytes.len()) <= isize::MAX
}

/// Tells whether the binary64 number with the given bits is finite.
pub fn real_is_finite(bits: u64) -> (finite: bool)
    ensures
        finite == is_finite_real(bits),
{
    let exponent: u64 = (bits >> 52) & 0x7ff;
    assert(exponent == (bits / 0x10_0000_0000_0000) % 0x800) by (bit_vector)
        requires
            exponent == (bits >> 52) & 0x7ff,
    ;
    exponent != 0x7ff
}

impl Value {
    /// Whether the value is `Null`.
    pub fn is_null(&self) -> (null: bool)
        ensures
            null == (self@ is Null),
    {
        match self {
            Value::Null => true,
            _ => false,
        }
    }

    /// The integer, if the value is one.
    pub fn as_integer(&self) -> (number: Option<i64>)
        ensures
            number == match self@ {
                ValueView::Integer(held) => Some(held),
                _ => None,
            },
    {
        match self {
            Value::Integer(held) => Some(*held),
            _ => None,
        }
    }

    /// The bits of the real number, if the value is one.
    pub fn as_real(&self) -> (bits: Option<u64>)
        ensures
            bits == match self@ {
                ValueView::Real(held) => Some(held),
                _ => None,
            },
    {
        match self {
            Value::Real(held) => Some(*held),
            _ => None,
        }
    }

    /// The text, if the value is one.
    pub fn as_text(&self) -> (text: Option<&str>)
        ensures
            match text {
                Some(held) => self@ == ValueView::Text(held@),
                None => !(self@ is Text),
            },
    {
        match self {
            Value::Text(held) => Some(held.as_str()),
            _ => None,
        }
    }

    /// The bytes, if the value is a blob.
    pub fn as_blob(&self) -> (bytes: Option<&[u8]>)
        ensures
            match bytes {
                Some(held) => self@ == ValueView::Blob(held@),
                None => !(self@ is Blob),
            },
    {
        match self {
            Value::Blob(held) => Some(held.as_slice()),
            _ => None,
        }
    }

    /// Whether the value has a wire form that fits in memory.
    pub fn fits_wire(&self) -> (fits: bool)
        ensures
            fits == has_wire_form(self@),
    {
        match self {
            Value::Blob(bytes) => {
                let length = bytes.len();
                let groups = if length % 3 == 0 {
                    length / 3
                } else {
                    length / 3 + 1
                };
                groups <= (isize::MAX as usize) / 4
            },
            _ => true,
        }
    }

    /// The value as it crosses a text-only boundary: a blob as standard
    /// base64 with padding, a real that is not finite as `Null`, every other
    /// value as it is.
    pub fn to_wire(&self) -> (wire: WireValue)
        requires
            has_wire_form(self@),
        ensures
            wire@ == wire_form(self@),
    {
        match self {
            Value::Null => WireValue::Null,
            Value::Integer(number) => WireValue::Integer(*number),
            Value::Real(bits) => if real_is_finite(*bits) {
                WireValue::Real(*bits)
            } else {
                WireValue::Null
            },
            Value::Text(text) => WireValue::Text(text.clone()),
            Value::Blob(bytes) => WireValue::Text(encode_standard(bytes.as_slice())),
        }
    }
}

} // verus!
