//! What a loaded subsystem says about itself.

use crate::bytes::{
    checked_read_cstring, checked_read_pointer, has_terminator, is_cstring_at, le_value,
    read_cstring, read_pointer,
};
use vstd::prelude::*;

verus! {

/// The name of a subsystem and a short account of what it does.
#[derive(Debug, PartialEq, Eq)]
pub struct SubsystemDescription {
    name: String,
    brief: String,
}

/// The 32-bit word at offset `at` of `memory`.
pub open spec fn word_at(memory: Seq<u8>, at: int) -> int {
    le_value(memory.subrange(at, at + 4))
}

impl SubsystemDescription {
    /// The text of the subsystem's name.
    pub closed spec fn spec_name(&self) -> Seq<char> {
        self.name@
    }

    /// The text of the subsystem's short account.
    pub closed spec fn spec_brief(&self) -> Seq<char> {
        self.brief@
    }

    /// The subsystem's name.
    pub fn name(&self) -> (name: &str)
        ensures
            name@ == self.spec_name(),
    {
        self.name.as_str()
    }

    /// The subsystem's short account of itself.
    pub fn brief(&self) -> (brief: &str)
        ensures
            brief@ == self.spec_brief(),
    {
        self.brief.as_str()
    }
}

impl Clone for SubsystemDescription {
    fn clone(&self) -> (copy: SubsystemDescription)
        ensures
            copy.spec_name() == self.spec_name(),
            copy.spec_brief() == self.spec_brief(),
    {
        SubsystemDescription { name: self.name.clone(), brief: self.brief.clone() }
    }
}

/// Whether `memory` holds a description at offset `module_ptr`: the two
/// offsets lie within the memory, and a terminated string starts at each
/// offset that they give.
pub open spec fn holds_description(memory: Seq<u8>, module_ptr: u32) -> bool {
    &&& module_ptr + 4 <= u32::MAX
    &&& module_ptr + 8 <= memory.len()
    &&& has_terminator(memory, word_at(memory, module_ptr as int))
    &&& has_terminator(memory, word_at(memory, module_ptr + 4))
}

/// Reads the description that a subsystem left in its memory.
///
/// At offset `module_ptr` stand two little-endian 32-bit offsets, that of the
/// name and that of the short account, each of a NUL-terminated string in
/// the same memory.
pub fn read_subsystem_description(memory: &[u8], module_ptr: u32) -> (description:
    SubsystemDescription)
    requires
        holds_description(memory@, module_ptr),
    ensures
        is_cstring_at(memory@, word_at(memory@, module_ptr as int), description.spec_name()),
        is_cstring_at(memory@, word_at(memory@, module_ptr + 4), description.spec_brief()),
{
    let name_ptr = read_pointer(memory, module_ptr);
    let brief_ptr = read_pointer(memory, module_ptr + 4);
    SubsystemDescription {
        name: read_cstring(memory, name_ptr),
        brief: read_cstring(memory, brief_ptr),
    }
}

/// Reads the description that a subsystem left in its memory, and reports
/// `None` if the memory holds none at offset `module_ptr`.
pub fn checked_read_subsystem_description(memory: &[u8], module_ptr: u32) -> (description: Option<
    SubsystemDescription,
>)
    ensures
        description is Some <==> holds_description(memory@, module_ptr),
        description matches Some(found) ==> {
            &&& is_cstring_at(memory@, word_at(memory@, module_ptr as int), found.spec_name())
            &&& is_cstring_at(memory@, word_at(memory@, module_ptr + 4), found.spec_brief())
        },
{
    if module_ptr > u32::MAX - 4 {
        return None;
    }
    let name_ptr = match checked_read_pointer(memory, module_ptr) {
        Some(word) => word,
        None => {
            return None;
        },
    };
    let brief_ptr = match checked_read_pointer(memory, module_ptr + 4) {
        Some(word) => word,
        None => {
            return None;
        },
    };
    let name = match checked_read_cstring(memory, name_ptr) {
        Some(text) => text,
        None => {
            return None;
        },
    };
    let brief = match checked_read_cstring(memory, brief_ptr) {
        Some(text) => text,
        None => {
            return None;
        },
    };
    Some(SubsystemDescription { name, brief })
}

} // verus!
