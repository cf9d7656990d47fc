//! The recipe: the statements that the engine has installed, in order.

use vstd::prelude::*;
use crate::error::Error;
use crate::error::ErrorView;
use crate::predicate::names;

verus! {

/// An identifier that the engine gives to a table or a view.
pub type EngineId = usize;

/// What a successful extension of the recipe created: the tables and views
/// that are new, each with its identifier.
#[derive(Debug)]
pub struct ActivationResult {
    pub new_nodes: Vec<Node>,
}

/// A table or a view of the engine: its canonical name and its identifier.
#[derive(Debug)]
pub struct Node {
    pub name: String,
    pub id: EngineId,
}

/// The recipe that the engine last activated, as the statements that built it.
pub struct Recipe {
    statements: Vec<String>,
}

impl View for Recipe {
    type V = Seq<Seq<char>>;

    closed spec fn view(&self) -> Seq<Seq<char>> {
        names(self.statements@)
    }
}

/// The recipe after the engine has answered a request to extend it by a
/// statement: one statement longer where the engine activated it, unchanged
/// where the engine refused.
pub open spec fn extended<T>(recipe: Seq<Seq<char>>, statement: Seq<char>, outcome: Result<T, String>)
    -> Seq<Seq<char>> {
    if outcome is Ok {
        recipe.push(statement)
    } else {
        recipe
    }
}

impl Recipe {
    /// The blank recipe.
    pub fn new() -> (recipe: Self)
        ensures
            recipe@ == Seq::<Seq<char>>::empty(),
    {
        let recipe = Recipe { statements: Vec::new() };
        recipe
    }

    /// The number of statements.
    pub fn len(&self) -> (n: usize)
        ensures
            n == self@.len(),
    {
        self.statements.len()
    }

    /// The statement at a position.
    pub fn statement(&self, i: usize) -> (statement: &String)
        requires
            i < self@.len(),
        ensures
            statement@ == self@[i as int],
    {
        &self.statements[i]
    }

    /// Takes the engine's answer to a request to extend the recipe by the
    /// statement. Where the engine activated the extension, the statement is
    /// appended and the activation result handed on. Where it refused, the
    /// recipe stays as it was and the refusal is reported with its description.
    pub fn extend(&mut self, statement: String, outcome: Result<ActivationResult, String>) -> (r:
        Result<ActivationResult, Error>)
        ensures
            outcome is Ok ==> final(self)@ == old(self)@.push(statement@),
            outcome is Err ==> final(self)@ == old(self)@,
            outcome is Ok ==> r == Ok::<ActivationResult, Error>(outcome->Ok_0),
            outcome is Err ==> r is Err && r->Err_0@ == (ErrorView::RecipeExtensionFailure {
                description: outcome->Err_0@,
            }),
    {
        match outcome {
            Ok(result) => {
                self.statements.push(statement);
                Ok(result)
            },
            Err(description) => Err(Error::RecipeExtensionFailure { description }),
        }
    }
}

} // verus!
