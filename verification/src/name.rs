//! Names of components and resources.

use vstd::prelude::*;
use vstd::string::StringExecFns;

verus! {

/// A name. Two names are equal if they spell the same text.
#[derive(Debug, Hash)]
pub struct Name(String);

impl View for Name {
    type V = Seq<char>;

    /// The text of the name.
    closed spec fn view(&self) -> Seq<char> {
        self.0@
    }
}

impl Name {
    /// The name that spells `s`.
    pub fn new(s: &str) -> (name: Name)
        ensures
            name@ == s@,
    {
        Name(String::from_str(s))
    }

    /// The text of the name.
    pub fn as_str(&self) -> (text: &str)
        ensures
            text@ == self@,
    {
        self.0.as_str()
    }
}

impl Clone for Name {
    fn clone(&self) -> (name: Name)
        ensures
            name@ == self@,
    {
        Name(self.0.clone())
    }
}

impl PartialEq for Name {
    fn eq(&self, other: &Name) -> (equal: bool) {
        self.0 == other.0
    }
}

impl Eq for Name {

}

impl vstd::std_specs::cmp::PartialEqSpecImpl for Name {
    open spec fn obeys_eq_spec() -> bool {
        true
    }

    open spec fn eq_spec(&self, other: &Name) -> bool {
        self@ == other@
    }
}

impl PartialEq<&str> for Name {
    fn eq(&self, other: &&str) -> (equal: bool) {
        let text: String = String::from_str(*other);
        self.0 == text
    }
}

impl vstd::std_specs::cmp::PartialEqSpecImpl<&str> for Name {
    open spec fn obeys_eq_spec() -> bool {
        true
    }

    open spec fn eq_spec(&self, other: &&str) -> bool {
        self@ == other@
    }
}

} // verus!
