//! Constants of a statement, and the values that the engine stores.

use vstd::prelude::*;
use crate::error::Error;
use crate::error::Unsupported;
use crate::error::unsupported;

verus! {

/// A literal constant as it stands in a statement.
#[derive(Debug)]
pub enum Constant {
    /// `NULL`.
    Null,
    /// A signed integer.
    Integer(i64),
    /// A quoted string.
    Text(String),
    /// A literal of any other kind.
    Other,
}

/// A value in the engine's representation.
#[derive(Debug)]
pub enum Value {
    /// The null value.
    Null,
    /// An integer value.
    Integer(i64),
    /// A string value.
    Text(String),
}

/// A value as a mathematical value: a string by its characters.
pub enum ValueView {
    Null,
    Integer(i64),
    Text(Seq<char>),
}

impl View for Value {
    type V = ValueView;

    open spec fn view(&self) -> ValueView {
        match *self {
            Value::Null => ValueView::Null,
            Value::Integer(i) => ValueView::Integer(i),
            Value::Text(s) => ValueView::Text(s@),
        }
    }
}

/// Whether every constant of a row can be stored.
pub open spec fn storable_row(row: Seq<Constant>) -> bool {
    forall|i: int| 0 <= i < row.len() ==> (#[trigger] row[i]).storable()
}

/// Whether every constant of a list of arguments can be a lookup key.
pub open spec fn bindable_row(row: Seq<Constant>) -> bool {
    forall|i: int| 0 <= i < row.len() ==> (#[trigger] row[i]).bindable()
}

/// The engine values that stand for the constants of a row.
pub open spec fn row_values(row: Seq<Constant>) -> Seq<ValueView> {
    row.map_values(|constant: Constant| constant.value())
}

/// The values held by a sequence, each by its view.
pub open spec fn values(row: Seq<Value>) -> Seq<ValueView> {
    row.map_values(|value: Value| value@)
}

impl Constant {
    /// Whether the literal can be stored: it is null, an integer or a string.
    pub open spec fn storable(self) -> bool {
        !(self is Other)
    }

    /// Whether the literal can be a lookup key: it is an integer or a string.
    pub open spec fn bindable(self) -> bool {
        self is Integer || self is Text
    }

    /// The engine value that stands for a storable literal.
    pub open spec fn value(self) -> ValueView {
        match self {
            Constant::Integer(i) => ValueView::Integer(i),
            Constant::Text(s) => ValueView::Text(s@),
            _ => ValueView::Null,
        }
    }

    /// Converts a literal of an insert to the engine's representation.
    pub fn into_stored(self) -> (r: Result<Value, Error>)
        ensures
            self.storable() ==> r is Ok && r->Ok_0@ == self.value(),
            !self.storable() ==> r is Err && r->Err_0@ == unsupported(Unsupported::Literal),
    {
        match self {
            Constant::Null => Ok(Value::Null),
            Constant::Integer(i) => Ok(Value::Integer(i)),
            Constant::Text(s) => Ok(Value::Text(s)),
            Constant::Other => Err(Error::UnsupportedStatement { reason: Unsupported::Literal }),
        }
    }

    /// Converts an argument of a named execution to the engine's representation.
    pub fn into_key(self) -> (r: Result<Value, Error>)
        ensures
            self.bindable() ==> r is Ok && r->Ok_0@ == self.value(),
            !self.bindable() ==> r is Err && r->Err_0@ == unsupported(Unsupported::Literal),
    {
        match self {
            Constant::Integer(i) => Ok(Value::Integer(i)),
            Constant::Text(s) => Ok(Value::Text(s)),
            _ => Err(Error::UnsupportedStatement { reason: Unsupported::Literal }),
        }
    }
}

/// Converts the constants of an insert's row to the engine's representation.
/// A constant of another kind than null, integer or string refuses the row.
pub fn stored_row(row: Vec<Constant>) -> (r: Result<Vec<Value>, Error>)
    ensures
        storable_row(row@) ==> r is Ok && values(r->Ok_0@) == row_values(row@),
        !storable_row(row@) ==> r is Err && r->Err_0@ == unsupported(Unsupported::Literal),
{
    let mut converted: Vec<Value> = Vec::new();
    for constant in it: row
        invariant
            it.seq() == row@,
            converted@.len() == it.index(),
            storable_row(row@.take(it.index() as int)),
            values(converted@) == row_values(row@.take(it.index() as int)),
    {
        let ghost i = it.index() as int;
        match constant.into_stored() {
            Ok(value) => {
                converted.push(value);
                assert(row_values(row@.take(i + 1)) =~= row_values(row@.take(i)).push(
                    row@[i].value(),
                ));
            },
            Err(error) => {
                return Err(error);
            },
        }
    }
    assert(row@.take(row@.len() as int) =~= row@);
    Ok(converted)
}

/// Converts the arguments of a named execution to the engine's
/// representation. An argument of another kind than integer or string refuses
/// the list.
pub fn key_row(row: Vec<Constant>) -> (r: Result<Vec<Value>, Error>)
    ensures
        bindable_row(row@) ==> r is Ok && values(r->Ok_0@) == row_values(row@),
        !bindable_row(row@) ==> r is Err && r->Err_0@ == unsupported(Unsupported::Literal),
{
    let mut converted: Vec<Value> = Vec::new();
    for constant in it: row
        invariant
            it.seq() == row@,
            converted@.len() == it.index(),
            bindable_row(row@.take(it.index() as int)),
            values(converted@) == row_values(row@.take(it.index() as int)),
    {
        let ghost i = it.index() as int;
        match constant.into_key() {
            Ok(value) => {
                converted.push(value);
                assert(row_values(row@.take(i + 1)) =~= row_values(row@.take(i)).push(
                    row@[i].value(),
                ));
            },
            Err(error) => {
                return Err(error);
            },
        }
    }
    assert(row@.take(row@.len() as int) =~= row@);
    Ok(converted)
}

} // verus!
