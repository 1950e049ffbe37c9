//! A snapshot of the environment variables a structure is loaded from.

use vstd::hash_map::StringHashMap;
use vstd::prelude::*;

verus! {

/// The variables that are set, each with its text.
pub struct Environment {
    vars: StringHashMap<String>,
}

impl View for Environment {
    type V = Map<Seq<char>, Seq<char>>;

    /// The text of each variable that is set, by name.
    closed spec fn view(&self) -> Map<Seq<char>, Seq<char>> {
        self.vars@.map_values(|text: String| text@)
    }
}

impl Environment {
    /// An environment in which no variable is set.
    pub fn new() -> (env: Environment)
        ensures
            env@ == Map::<Seq<char>, Seq<char>>::empty(),
    {
        Environment { vars: StringHashMap::new() }
    }

    /// Sets the variable `name` to `text`, replacing what it held.
    pub fn set(&mut self, name: &str, text: &str)
        ensures
            final(self)@ == old(self)@.insert(name@, text@),
    {
        self.vars.insert(name.to_owned(), text.to_owned());
    }

    /// Unsets the variable `name`; an unset variable stays unset.
    pub fn unset(&mut self, name: &str)
        ensures
            final(self)@ == old(self)@.remove(name@),
    {
        self.vars.remove(name);
    }

    /// The text of the variable `name`, if it is set.
    pub fn get(&self, name: &str) -> (text: Option<&str>)
        ensures
            match text {
                Some(t) => self@.contains_key(name@) && t@ == self@[name@],
                None => !self@.contains_key(name@),
            },
    {
        match self.vars.get(name) {
            Some(text) => Some(text.as_str()),
            None => None,
        }
    }
}

} // verus!
