//! Little-endian words and NUL-terminated strings in raw byte memory.

use vstd::prelude::*;
use vstd::utf8::{decode_utf8, valid_utf8};

verus! {

/// The four bytes of `x`, least significant first.
pub open spec fn le_bytes(x: u32) -> Seq<u8> {
    seq![
        (x % 256) as u8,
        (x / 0x100 % 256) as u8,
        (x / 0x1_0000 % 256) as u8,
        (x / 0x100_0000) as u8,
    ]
}

/// The number that four bytes spell, least significant first.
pub open spec fn le_value(bytes: Seq<u8>) -> int
    recommends
        bytes.len() == 4,
{
    bytes[0] + bytes[1] * 0x100 + bytes[2] * 0x1_0000 + bytes[3] * 0x100_0000
}

/// The 32-bit pattern of `x` in two's complement.
pub open spec fn twos_complement(x: i32) -> u32 {
    if x >= 0 {
        x as u32
    } else {
        (x + 0x1_0000_0000) as u32
    }
}

/// Decoding undoes encoding.
pub proof fn lemma_le_round_trip(x: u32)
    ensures
        le_bytes(x).len() == 4,
        le_value(le_bytes(x)) == x,
{
}

/// Different words have different bytes.
pub proof fn lemma_le_bytes_injective(x: u32, y: u32)
    requires
        le_bytes(x) == le_bytes(y),
    ensures
        x == y,
{
    lemma_le_round_trip(x);
    lemma_le_round_trip(y);
}

/// Different integers have different bit patterns.
pub proof fn lemma_twos_complement_injective(x: i32, y: i32)
    requires
        twos_complement(x) == twos_complement(y),
    ensures
        x == y,
{
}

/// Appends the little-endian bytes of `x` to `out`.
pub fn write_u32_le(out: &mut Vec<u8>, x: u32)
    ensures
        final(out)@ == old(out)@ + le_bytes(x),
{
    assert((x & 0xff) == x % 256 && ((x >> 8) & 0xff) == x / 0x100 % 256 && ((x >> 16) & 0xff) == x
        / 0x1_0000 % 256 && (x >> 24) == x / 0x100_0000 && (x >> 24) < 256) by (bit_vector);
    out.push((x & 0xff) as u8);
    out.push(((x >> 8) & 0xff) as u8);
    out.push(((x >> 16) & 0xff) as u8);
    out.push((x >> 24) as u8);
    assert(out@ =~= old(out)@ + le_bytes(x));
}

/// Appends the little-endian two's-complement bytes of `x` to `out`.
pub fn write_i32_le(out: &mut Vec<u8>, x: i32)
    ensures
        final(out)@ == old(out)@ + le_bytes(twos_complement(x)),
{
    assert(x as u32 == twos_complement(x)) by {
        assert(x >= 0 ==> x as u32 == x) by (bit_vector);
        assert(x < 0 ==> x as u32 == x + 0x1_0000_0000) by (bit_vector);
    }
    write_u32_le(out, x as u32);
}

/// Reads the little-endian 32-bit word stored at offset `ptr` of `memory`.
pub fn read_pointer(memory: &[u8], ptr: u32) -> (word: u32)
    requires
        ptr + 4 <= memory@.len(),
    ensures
        word == le_value(memory@.subrange(ptr as int, ptr + 4)),
{
    let at = ptr as usize;
    let b0: u32 = memory[at] as u32;
    let b1: u32 = memory[at + 1] as u32;
    let b2: u32 = memory[at + 2] as u32;
    let b3: u32 = memory[at + 3] as u32;
    assert((b0 | b1 << 8 | b2 << 16 | b3 << 24) == b0 + b1 * 0x100 + b2 * 0x1_0000 + b3
        * 0x100_0000) by (bit_vector)
        requires
            b0 < 256,
            b1 < 256,
            b2 < 256,
            b3 < 256,
    ;
    b0 | b1 << 8 | b2 << 16 | b3 << 24
}

/// Whether `end` is the offset of the first zero byte at or after `start`.
pub open spec fn is_terminator(memory: Seq<u8>, start: int, end: int) -> bool {
    &&& 0 <= start <= end < memory.len()
    &&& memory[end] == 0
    &&& forall|i: int| start <= i < end ==> memory[i] != 0
}

/// Whether a zero byte occurs at or after offset `start`.
pub open spec fn has_terminator(memory: Seq<u8>, start: int) -> bool {
    exists|end: int| start <= end < memory.len() && memory[end] == 0
}

/// Finds the first zero byte at or after offset `ptr`.
pub fn cstring_end(memory: &[u8], ptr: u32) -> (end: usize)
    requires
        has_terminator(memory@, ptr as int),
    ensures
        is_terminator(memory@, ptr as int, end as int),
{
    let mut end = ptr as usize;
    let ghost stop = choose|e: int| ptr <= e < memory@.len() && memory@[e] == 0;
    while memory[end] != 0
        invariant
            ptr <= end <= stop < memory@.len(),
            memory@[stop] == 0,
            forall|i: int| ptr <= i < end ==> memory@[i] != 0,
        decreases stop - end,
    {
        end += 1;
    }
    end
}

/// Looks for the first zero byte at or after offset `start`, and reports
/// `None` if there is none.
pub fn find_terminator(memory: &[u8], start: usize) -> (found: Option<usize>)
    ensures
        found is None <==> !has_terminator(memory@, start as int),
        found matches Some(end) ==> is_terminator(memory@, start as int, end as int),
{
    let mut end = start;
    while end < memory.len()
        invariant
            start <= end,
            forall|i: int| start <= i < end && i < memory@.len() ==> memory@[i] != 0,
        decreases memory@.len() - end,
    {
        if memory[end] == 0 {
            return Some(end);
        }
        end += 1;
    }
    None
}

/// Reads the little-endian 32-bit word stored at offset `at` of `memory`,
/// and reports `None` if the memory ends before the word does.
pub fn checked_read_pointer(memory: &[u8], at: u32) -> (word: Option<u32>)
    ensures
        word is Some <==> at + 4 <= memory@.len(),
        word matches Some(value) ==> value == le_value(memory@.subrange(at as int, at + 4)),
{
    if memory.len() >= 4 && (at as usize) <= memory.len() - 4 {
        Some(read_pointer(memory, at))
    } else {
        None
    }
}

/// Reads the NUL-terminated string that starts at offset `ptr` of `memory`,
/// and reports `None` if no zero byte follows.
pub fn checked_read_cstring(memory: &[u8], ptr: u32) -> (text: Option<String>)
    ensures
        text is Some <==> has_terminator(memory@, ptr as int),
        text matches Some(string) ==> is_cstring_at(memory@, ptr as int, string@),
{
    match find_terminator(memory, ptr as usize) {
        Some(_) => Some(read_cstring(memory, ptr)),
        None => None,
    }
}

/// The text that lossy UTF-8 decoding makes of `bytes`.
pub uninterp spec fn utf8_lossy(bytes: Seq<u8>) -> Seq<char>;

/// Calls `String::from_utf8_lossy` and takes ownership of what it returns.
///
/// The result depends on the bytes alone. Well-formed UTF-8 is decoded as it
/// stands; each ill-formed part is replaced by U+FFFD.
#[verifier::external_body]
fn decode_utf8_lossy(bytes: &[u8]) -> (text: String)
    ensures
        text@ == utf8_lossy(bytes@),
        valid_utf8(bytes@) ==> text@ == decode_utf8(bytes@),
{
    String::from_utf8_lossy(bytes).into_owned()
}

/// Whether `text` is the NUL-terminated string at offset `start` of
/// `memory`, decoded lossily: the bytes up to the first zero byte, which
/// decode as they stand where they are well-formed UTF-8.
pub open spec fn is_cstring_at(memory: Seq<u8>, start: int, text: Seq<char>) -> bool {
    exists|end: int|
        {
            &&& #[trigger] is_terminator(memory, start, end)
            &&& text == utf8_lossy(memory.subrange(start, end))
            &&& valid_utf8(memory.subrange(start, end)) ==> text == decode_utf8(
                memory.subrange(start, end),
            )
        }
}

/// Reads the NUL-terminated string that starts at offset `ptr` of `memory`.
///
/// The terminator is not part of the result. Bytes that are not UTF-8 are
/// decoded lossily.
pub fn read_cstring(memory: &[u8], ptr: u32) -> (text: String)
    requires
        has_terminator(memory@, ptr as int),
    ensures
        is_cstring_at(memory@, ptr as int, text@),
{
    let end = cstring_end(memory, ptr);
    let bytes = vstd::slice::slice_subrange(memory, ptr as usize, end);
    let text = decode_utf8_lossy(bytes);
    assert(is_terminator(memory@, ptr as int, end as int));
    text
}

} // verus!
