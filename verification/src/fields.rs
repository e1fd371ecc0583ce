//! Reading the fields of a decoded JSON object.
//!
//! A field of a response is permissive: where the object lacks it, or
//! holds `null` for it, the field reads as the zero value of its type (the
//! empty string, zero, `false`, the empty list). `None` stands for such a
//! field here.

use vstd::prelude::*;

verus! {

/// What a text field reads as.
pub open spec fn text_or_empty(field: Option<String>) -> Seq<char> {
    match field {
        Some(text) => text@,
        None => Seq::<char>::empty(),
    }
}

/// What a boolean field reads as.
pub open spec fn flag_or_false(field: Option<bool>) -> bool {
    match field {
        Some(flag) => flag,
        None => false,
    }
}

/// What a number field reads as.
pub open spec fn number_or_zero(field: Option<i32>) -> i32 {
    match field {
        Some(number) => number,
        None => 0,
    }
}

/// What a list field reads as.
pub open spec fn items_or_none<T>(field: Option<Vec<T>>) -> Seq<T> {
    match field {
        Some(items) => items@,
        None => Seq::<T>::empty(),
    }
}

/// Reads a text field.
pub fn string_or_empty(field: Option<String>) -> (value: String)
    ensures
        value@ == text_or_empty(field),
{
    match field {
        Some(text) => text,
        None => String::new(),
    }
}

/// Reads a boolean field.
pub fn bool_or_false(field: Option<bool>) -> (value: bool)
    ensures
        value == flag_or_false(field),
{
    match field {
        Some(flag) => flag,
        None => false,
    }
}

/// Reads a number field.
pub fn i32_or_zero(field: Option<i32>) -> (value: i32)
    ensures
        value == number_or_zero(field),
{
    match field {
        Some(number) => number,
        None => 0,
    }
}

/// Reads a list field.
pub fn list_or_empty<T>(field: Option<Vec<T>>) -> (value: Vec<T>)
    ensures
        value@ == items_or_none(field),
{
    match field {
        Some(items) => items,
        None => Vec::new(),
    }
}

} // verus!
