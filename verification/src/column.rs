//! The column capability: a uniform, read-only view of a schema field.
//!
//! Generic code renders, diffs and serializes entity fields without knowing
//! their concrete types; every schema field type therefore exposes its
//! runtime value as a plain [`ColumnValue`].  Reading the value is a pure
//! projection and cannot fail.

use vstd::prelude::*;
use vstd::string::*;

verus! {

/// The value of one schema field, reduced to a plain renderable form.
#[derive(PartialEq, Eq, Debug)]
pub enum ColumnValue {
    /// an absent value
    Null,
    /// a boolean field
    Bool(bool),
    /// an integer field
    Int(i64),
    /// a text field
    Text(String),
}

impl Clone for ColumnValue {
    fn clone(&self) -> (r: Self)
        ensures
            r == *self,
    {
        match self {
            ColumnValue::Null => ColumnValue::Null,
            ColumnValue::Bool(b) => ColumnValue::Bool(*b),
            ColumnValue::Int(i) => ColumnValue::Int(*i),
            ColumnValue::Text(s) => ColumnValue::Text(s.clone()),
        }
    }
}

/// The capability every schema field type implements: a read-only projection
/// of the field's runtime value.  No mutation is offered and the projection
/// cannot fail.
pub trait Column {
    /// The value this field holds, as generic code sees it.
    spec fn spec_value(&self) -> ColumnValue;

    /// Reads the field's value; a pure projection of the field.
    fn value(&self) -> (r: ColumnValue)
        ensures
            r == self.spec_value(),
    ;
}

impl Column for bool {
    open spec fn spec_value(&self) -> ColumnValue {
        ColumnValue::Bool(*self)
    }

    fn value(&self) -> (r: ColumnValue) {
        ColumnValue::Bool(*self)
    }
}

impl Column for i64 {
    open spec fn spec_value(&self) -> ColumnValue {
        ColumnValue::Int(*self)
    }

    fn value(&self) -> (r: ColumnValue) {
        ColumnValue::Int(*self)
    }
}

impl Column for String {
    open spec fn spec_value(&self) -> ColumnValue {
        ColumnValue::Text(*self)
    }

    fn value(&self) -> (r: ColumnValue) {
        ColumnValue::Text(self.clone())
    }
}

impl<T: Column> Column for Option<T> {
    open spec fn spec_value(&self) -> ColumnValue {
        match self {
            Option::Some(v) => v.spec_value(),
            Option::None => ColumnValue::Null,
        }
    }

    fn value(&self) -> (r: ColumnValue) {
        match self {
            Option::Some(v) => v.value(),
            Option::None => ColumnValue::Null,
        }
    }
}

} // verus!
