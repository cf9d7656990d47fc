//! The registry of named queries.

use vstd::prelude::*;
use crate::table::NameTable;

verus! {

/// A registered query: the view that answers it, and the number of parameters
/// that an execution has to supply.
pub struct NamedQuery {
    target: String,
    arity: usize,
}

/// The queries that were registered, by name.
pub struct Registry {
    queries: NameTable<NamedQuery>,
}

impl View for Registry {
    type V = Map<Seq<char>, (Seq<char>, nat)>;

    closed spec fn view(&self) -> Map<Seq<char>, (Seq<char>, nat)> {
        self.queries@.map_values(|query: NamedQuery| (query.target@, query.arity as nat))
    }
}

impl Registry {
    /// A registry without queries.
    pub fn new() -> (registry: Self)
        ensures
            registry@ == Map::<Seq<char>, (Seq<char>, nat)>::empty(),
    {
        let registry = Registry { queries: NameTable::new() };
        registry
    }

    /// Binds the name to a target view and a parameter count. A binding that
    /// the name had before is replaced: a caller that wants names to stay
    /// unique asks `contains` first.
    pub fn register(&mut self, name: &str, target: &str, arity: usize)
        ensures
            final(self)@ == old(self)@.insert(name@, (target@, arity as nat)),
    {
        let query = NamedQuery { target: String::from_str(target), arity };
        self.queries.insert(String::from_str(name), query);
    }

    /// The target view and the parameter count that the name is bound to.
    pub fn lookup(&self, name: &str) -> (found: Option<(String, usize)>)
        ensures
            match found {
                Some((target, arity)) => self@.contains_key(name@) && self@[name@] == (
                    target@,
                    arity as nat,
                ),
                None => !self@.contains_key(name@),
            },
    {
        match self.queries.get(name) {
            Some(query) => Some((query.target.clone(), query.arity)),
            None => None,
        }
    }

    /// Whether the name is bound.
    pub fn contains(&self, name: &str) -> (found: bool)
        ensures
            found == self@.contains_key(name@),
    {
        self.queries.contains(name)
    }
}

} // verus!
