//! Filter predicates, and the positional parameters that they bind.

use vstd::prelude::*;
use crate::error::Error;
use crate::error::Unsupported;
use crate::error::unsupported;

verus! {

/// The shape of a filter expression, as far as parameter binding reads it.
#[derive(Debug)]
pub enum Predicate {
    /// Two predicates joined by `AND` or `OR`.
    Logical(Box<Predicate>, Box<Predicate>),
    /// A comparison of a left with a right operand.
    Comparison(Box<Predicate>, Box<Predicate>),
    /// A reference to a field, by the field's name.
    Field(String),
    /// A positional parameter marker, `?`.
    Placeholder,
    /// Any other expression.
    Other,
}

/// The names held by a sequence of strings.
pub open spec fn names(v: Seq<String>) -> Seq<Seq<char>> {
    v.map_values(|s: String| s@)
}

impl Predicate {
    /// Whether parameters can be extracted: every expression reached through
    /// logical combinations is itself a logical combination or a comparison.
    pub open spec fn supported(self) -> bool
        decreases self,
    {
        match self {
            Predicate::Logical(left, right) => left.supported() && right.supported(),
            Predicate::Comparison(_, _) => true,
            _ => false,
        }
    }

    /// Whether this is a comparison of a field with a placeholder on its right.
    pub open spec fn binds(self) -> bool {
        self matches Predicate::Comparison(left, right) && *left is Field && *right is Placeholder
    }

    /// The fields bound to placeholders, in the order of a left-to-right walk.
    pub open spec fn parameters(self) -> Seq<Seq<char>>
        decreases self,
    {
        match self {
            Predicate::Logical(left, right) => left.parameters() + right.parameters(),
            Predicate::Comparison(left, right) => if self.binds() {
                seq![left->Field_0@]
            } else {
                Seq::empty()
            },
            _ => Seq::empty(),
        }
    }
}

/// Lists the fields that the predicate binds to placeholders, in the order in
/// which execute-time arguments are bound to them.
pub fn extract_query_parameters(wc: Predicate) -> (r: Result<Vec<String>, Error>)
    ensures
        wc.supported() ==> r is Ok && names(r->Ok_0@) == wc.parameters(),
        !wc.supported() ==> r is Err && r->Err_0@ == unsupported(Unsupported::Predicate),
    decreases wc,
{
    match wc {
        Predicate::Logical(left, right) => {
            let mut params = match extract_query_parameters(*left) {
                Ok(p) => p,
                Err(e) => { return Err(e); },
            };
            let mut rest = match extract_query_parameters(*right) {
                Ok(p) => p,
                Err(e) => { return Err(e); },
            };
            params.append(&mut rest);
            Ok(params)
        },
        Predicate::Comparison(left, right) => {
            let mut params: Vec<String> = Vec::new();
            match *right {
                Predicate::Placeholder => match *left {
                    Predicate::Field(name) => {
                        params.push(name);
                    },
                    _ => {},
                },
                _ => {},
            }
            Ok(params)
        },
        _ => Err(Error::UnsupportedStatement { reason: Unsupported::Predicate }),
    }
}

} // verus!
