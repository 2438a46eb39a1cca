//! Structured values and the text of their numbers.

use vstd::prelude::*;
use crate::store::Mapping;

verus! {

/// A number, as one of the three shapes it can take.
#[derive(Clone, Debug, PartialEq)]
pub enum Number {
    /// A non-negative integer.
    PosInt(u64),
    /// An integer below zero.
    NegInt(i64),
    /// Any other number, held as its decimal text.
    Real(String),
}

/// A structured value. An array holds its elements in order; an object
/// holds its members by key, each key once.
#[derive(Debug, PartialEq)]
pub enum Value {
    Null,
    Bool(bool),
    Number(Number),
    Text(String),
    Array(Vec<Value>),
    Object(Mapping),
}

/// The decimal digit that stands for `d`, for `d` below ten.
pub open spec fn digit(d: nat) -> char {
    if d == 0 {
        '0'
    } else if d == 1 {
        '1'
    } else if d == 2 {
        '2'
    } else if d == 3 {
        '3'
    } else if d == 4 {
        '4'
    } else if d == 5 {
        '5'
    } else if d == 6 {
        '6'
    } else if d == 7 {
        '7'
    } else if d == 8 {
        '8'
    } else {
        '9'
    }
}

/// The decimal text of `n`: no sign, no leading zero but for zero itself.
pub open spec fn decimal(n: nat) -> Seq<char>
    decreases n,
{
    if n < 10 {
        seq![digit(n)]
    } else {
        decimal(n / 10).push(digit(n % 10))
    }
}

/// The decimal text of `i`, with a minus sign in front where it is negative.
pub open spec fn signed_decimal(i: int) -> Seq<char> {
    if i < 0 {
        seq!['-'] + decimal((-i) as nat)
    } else {
        decimal(i as nat)
    }
}

/// Formats an unsigned integer with std's `format`, which writes it in
/// decimal digits.
#[verifier::external_body]
pub(crate) fn decimal_text(n: u64) -> (text: String)
    ensures
        text@ == decimal(n as nat),
{
    format!("{}", n)
}

/// Calls `serde_json::Number::from` on an unsigned integer and
/// `to_string` on the number. The number's `Display` writes a
/// non-negative integer in decimal digits.
#[verifier::external_body]
fn unsigned_text(n: u64) -> (text: String)
    ensures
        text@ == decimal(n as nat),
{
    serde_json::Number::from(n).to_string()
}

/// Calls `serde_json::Number::from` on a signed integer and `to_string`
/// on the number. The number's `Display` writes an integer in decimal
/// digits, after a minus sign where it is negative.
#[verifier::external_body]
fn signed_text(n: i64) -> (text: String)
    ensures
        text@ == signed_decimal(n as int),
{
    serde_json::Number::from(n).to_string()
}

impl Number {
    /// The decimal text of this number.
    pub open spec fn text(self) -> Seq<char> {
        match self {
            Number::PosInt(n) => decimal(n as nat),
            Number::NegInt(i) => signed_decimal(i as int),
            Number::Real(text) => text@,
        }
    }

    /// Writes the number in decimal.
    pub fn to_text(&self) -> (text: String)
        ensures
            text@ == self.text(),
    {
        match self {
            Number::PosInt(n) => unsigned_text(*n),
            Number::NegInt(i) => signed_text(*i),
            Number::Real(text) => text.clone(),
        }
    }
}

/// The value behind a borrowed result.
pub open spec fn owned(found: Option<&Value>) -> Option<Value> {
    match found {
        Some(value) => Some(*value),
        None => None,
    }
}

impl Value {
    /// The element at `index`, where this value is an array that has one there.
    pub open spec fn element(self, index: nat) -> Option<Value> {
        match self {
            Value::Array(items) => if index < items@.len() {
                Some(items@[index as int])
            } else {
                None
            },
            _ => None,
        }
    }

    /// The member named `key`, where this value is an object that has one.
    pub open spec fn member(self, key: Seq<char>) -> Option<Value> {
        match self {
            Value::Object(members) => if members@.dom().contains(key) {
                Some(members@[key])
            } else {
                None
            },
            _ => None,
        }
    }

    /// Looks into an array by position.
    pub fn get_index(&self, index: usize) -> (found: Option<&Value>)
        ensures
            owned(found) == self.element(index as nat),
    {
        match self {
            Value::Array(items) => if index < items.len() {
                Some(&items[index])
            } else {
                None
            },
            _ => None,
        }
    }

    /// Looks into an object by key.
    pub fn get_key(&self, key: &str) -> (found: Option<&Value>)
        ensures
            owned(found) == self.member(key@),
    {
        match self {
            Value::Object(members) => members.get(key),
            _ => None,
        }
    }
}

} // verus!
