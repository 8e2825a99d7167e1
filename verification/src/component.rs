//! What can be attached to an entity.

use crate::name::Name;
use vstd::prelude::*;

verus! {

/// A component: anything that can say under which name it is attached.
pub trait Component {
    /// The text of the name under which the component is attached.
    spec fn spec_name(&self) -> Seq<char>;

    /// The name under which the component is attached.
    fn name(&self) -> (name: Name)
        ensures
            name@ == self.spec_name(),
    ;
}

impl Component for () {
    open spec fn spec_name(&self) -> Seq<char> {
        "()"@
    }

    fn name(&self) -> (name: Name) {
        Name::new("()")
    }
}

impl Component for Name {
    open spec fn spec_name(&self) -> Seq<char> {
        self@
    }

    fn name(&self) -> (name: Name) {
        self.clone()
    }
}

} // verus!
