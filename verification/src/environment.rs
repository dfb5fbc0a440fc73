//! The environment variables that the settings are read from.

use vstd::prelude::*;

use crate::text::{characters, spells};

verus! {

/// One variable and the value it was given.
struct Variable {
    key: String,
    value: String,
}

/// Environment variables by name, at most one value for each.
pub struct Environment {
    /// In the order they were set: the last value of a key is the one that counts.
    variables: Vec<Variable>,
}

spec fn settled(variables: Seq<Variable>) -> Map<Seq<char>, Seq<char>>
    decreases variables.len(),
{
    if variables.len() == 0 {
        Map::empty()
    } else {
        settled(variables.drop_last()).insert(variables.last().key@, variables.last().value@)
    }
}

impl View for Environment {
    type V = Map<Seq<char>, Seq<char>>;

    closed spec fn view(&self) -> Map<Seq<char>, Seq<char>> {
        settled(self.variables@)
    }
}

impl Environment {
    /// The value of `key`, if it is set.
    pub open spec fn value(&self, key: Seq<char>) -> Option<Seq<char>> {
        if self@.dom().contains(key) {
            Some(self@[key])
        } else {
            None
        }
    }

    /// An environment in which nothing is set.
    pub fn new() -> (env: Environment)
        ensures
            env@ == Map::<Seq<char>, Seq<char>>::empty(),
    {
        Environment { variables: Vec::new() }
    }

    /// Gives `key` the value `value`, in place of the one it had.
    pub fn set(&mut self, key: String, value: String)
        ensures
            final(self)@ == old(self)@.insert(key@, value@),
    {
        let ghost before = self.variables@;
        self.variables.push(Variable { key, value });
        assert(self.variables@.drop_last() == before);
    }

    /// Looks `key` up.
    pub fn get(&self, key: &str) -> (found: Option<&str>)
        ensures
            match found {
                Some(text) => self.value(key@) == Some(text@),
                None => self.value(key@) is None,
            },
    {
        let mut i: usize = self.variables.len();
        assert(self.variables@.take(i as int) == self.variables@);
        while i > 0
            invariant
                i <= self.variables@.len(),
                settled(self.variables@.take(i as int)).dom().contains(key@)
                    == self@.dom().contains(key@),
                self@.dom().contains(key@) ==> settled(self.variables@.take(i as int))[key@]
                    == self@[key@],
            decreases i,
        {
            assert(self.variables@.take(i as int).drop_last() == self.variables@.take(i - 1));
            let candidate = characters(self.variables[i - 1].key.as_str());
            if spells(candidate.as_slice(), key) {
                return Some(self.variables[i - 1].value.as_str());
            }
            i = i - 1;
        }
        None
    }
}

/// A variable has a value exactly where it is set, and then the one it was set to;
/// setting one leaves the others as they are.
pub proof fn law_variables_keep_what_they_are_set_to(
    env: Environment,
    changed: Environment,
    key: Seq<char>,
    value: Seq<char>,
    other: Seq<char>,
)
    requires
        changed@ == env@.insert(key, value),
    ensures
        changed.value(key) == Some(value),
        other != key ==> changed.value(other) == env.value(other),
        env.value(other) is Some <==> env@.dom().contains(other),
{
}

} // verus!
