//! Handles of generational entities.

use vstd::prelude::*;
use vstd::string::StringExecFns;

verus! {

/// The character of the decimal digit `d`.
pub open spec fn digit(d: nat) -> char {
    if d == 0 {
        '0'
    } else if d == 1 {
        '1'
    } else if d == 2 {
        '2'
    } else if d == 3 {
        '3'
    } else if d == 4 {
        '4'
    } else if d == 5 {
        '5'
    } else if d == 6 {
        '6'
    } else if d == 7 {
        '7'
    } else if d == 8 {
        '8'
    } else {
        '9'
    }
}

/// The decimal numeral of `n`, without leading zeros.
pub open spec fn decimal(n: nat) -> Seq<char>
    decreases n,
{
    if n < 10 {
        seq![digit(n)]
    } else {
        decimal(n / 10).push(digit(n % 10))
    }
}

fn digit_text(d: u32) -> (text: &'static str)
    requires
        d < 10,
    ensures
        text@ == seq![digit(d as nat)],
{
    proof {
        reveal_strlit("0");
        reveal_strlit("1");
        reveal_strlit("2");
        reveal_strlit("3");
        reveal_strlit("4");
        reveal_strlit("5");
        reveal_strlit("6");
        reveal_strlit("7");
        reveal_strlit("8");
        reveal_strlit("9");
    }
    let text = match d {
        0 => "0",
        1 => "1",
        2 => "2",
        3 => "3",
        4 => "4",
        5 => "5",
        6 => "6",
        7 => "7",
        8 => "8",
        _ => "9",
    };
    assert(text@ =~= seq![digit(d as nat)]);
    text
}

/// The decimal numeral of `n`.
pub fn decimal_text(n: u32) -> (text: String)
    ensures
        text@ == decimal(n as nat),
{
    let mut text = String::from_str(digit_text(n % 10));
    let mut rest: u32 = n / 10;
    while rest > 0
        invariant
            rest > 0 ==> decimal(n as nat) == decimal(rest as nat) + text@,
            rest == 0 ==> decimal(n as nat) == text@,
        decreases rest,
    {
        let ghost before = text@;
        let ghost more = rest;
        text = String::from_str(digit_text(rest % 10)).concat(text.as_str());
        rest = rest / 10;
        proof {
            assert(text@ == seq![digit((more % 10) as nat)] + before);
            if more < 10 {
                assert(decimal(more as nat) + before =~= text@);
            } else {
                assert(decimal(more as nat) + before =~= decimal(rest as nat) + text@);
            }
        }
    }
    text
}

/// The generation of an entity slot.
pub type EntityGen = u32;

/// The index of an entity slot.
pub type EntityIdx = u32;

/// A handle made of a slot index and the generation of the slot at the time
/// the handle was given out, packed into one 64-bit word with the generation
/// in the upper half.
#[derive(Clone, Copy, Debug, PartialEq, Eq, Structural, PartialOrd, Ord)]
pub struct Entity(u64);

impl Entity {
    /// The generation that the handle carries.
    pub closed spec fn spec_generation(self) -> EntityGen {
        (self.0 / 0x1_0000_0000) as u32
    }

    /// The slot index that the handle carries.
    pub closed spec fn spec_index(self) -> EntityIdx {
        (self.0 % 0x1_0000_0000) as u32
    }

    /// Two handles with the same generation and index are the same handle.
    pub proof fn lemma_parts_determine(self, other: Entity)
        requires
            self.spec_generation() == other.spec_generation(),
            self.spec_index() == other.spec_index(),
        ensures
            self == other,
    {
    }

    /// The handle for slot `index` in generation `generation`.
    pub fn new(generation: EntityGen, index: EntityIdx) -> (entity: Entity)
        ensures
            entity.spec_generation() == generation,
            entity.spec_index() == index,
    {
        let upper: u64 = generation as u64;
        let lower: u64 = index as u64;
        assert(((upper << 32) | lower) == upper * 0x1_0000_0000 + lower) by (bit_vector)
            requires
                upper <= 0xffff_ffff,
                lower <= 0xffff_ffff,
        ;
        Entity((upper << 32) | lower)
    }

    /// The generation that the handle carries.
    pub fn generation(&self) -> (generation: EntityGen)
        ensures
            generation == self.spec_generation(),
    {
        let word: u64 = self.0;
        assert(((word >> 32) & 0xFFFF_FFFF) == word / 0x1_0000_0000) by (bit_vector);
        ((word >> 32) & 0xFFFF_FFFF) as EntityGen
    }

    /// The slot index that the handle carries.
    pub fn index(&self) -> (index: EntityIdx)
        ensures
            index == self.spec_index(),
    {
        let word: u64 = self.0;
        assert((word & 0xFFFF_FFFF) == word % 0x1_0000_0000) by (bit_vector);
        (word & 0xFFFF_FFFF) as EntityIdx
    }

    /// The text by which the handle shows itself.
    pub open spec fn spec_to_string(self) -> Seq<char> {
        "<Entity gen="@ + decimal(self.spec_generation() as nat) + " idx="@ + decimal(
            self.spec_index() as nat,
        ) + ">"@
    }

    /// The handle as text: `<Entity gen=G idx=I>` with both numbers in decimal.
    pub fn to_string(&self) -> (text: String)
        ensures
            text@ == self.spec_to_string(),
    {
        let mut text = String::from_str("<Entity gen=");
        text.append(decimal_text(self.generation()).as_str());
        text.append(" idx=");
        text.append(decimal_text(self.index()).as_str());
        text.append(">");
        text
    }

    /// The generation and the slot index, in this order.
    pub fn decouple(&self) -> (parts: (EntityGen, EntityIdx))
        ensures
            parts.0 == self.spec_generation(),
            parts.1 == self.spec_index(),
    {
        (self.generation(), self.index())
    }
}

} // verus!
