//! Which texts may be given to the engine as a page.
//!
//! The engine runs a template as a program: it can call functions, compute,
//! include other templates and call macros that call themselves. A page of the
//! board needs none of that. It is markup with the body put in, so the only
//! thing that a plain page asks of the engine is the body, written as
//! `{{ text }}` and in no other way. Every other opening of a tag, an
//! expression or a comment keeps a text from being a page.

use vstd::prelude::*;
use vstd::string::*;
use vstd::utf8::*;

verus! {

/// Whether the engine takes what starts at `i` for more than text: a brace
/// followed by a second brace, a percent sign or a hash.
pub open spec fn opens_tag(bytes: Seq<u8>, i: int) -> bool {
    &&& 0 <= i
    &&& i + 1 < bytes.len()
    &&& bytes[i] == 0x7b
    &&& (bytes[i + 1] == 0x7b || bytes[i + 1] == 0x25 || bytes[i + 1] == 0x23)
}

/// Whether the ten bytes of `{{ text }}` stand at `i`.
pub open spec fn placeholder_at(bytes: Seq<u8>, i: int) -> bool {
    &&& 0 <= i
    &&& i + 10 <= bytes.len()
    &&& bytes[i] == 0x7b
    &&& bytes[i + 1] == 0x7b
    &&& bytes[i + 2] == 0x20
    &&& bytes[i + 3] == 0x74
    &&& bytes[i + 4] == 0x65
    &&& bytes[i + 5] == 0x78
    &&& bytes[i + 6] == 0x74
    &&& bytes[i + 7] == 0x20
    &&& bytes[i + 8] == 0x7d
    &&& bytes[i + 9] == 0x7d
}

/// Whether nothing but placeholders for the body opens in `bytes`.
pub open spec fn plain_bytes(bytes: Seq<u8>) -> bool {
    forall|i: int| #[trigger] opens_tag(bytes, i) ==> placeholder_at(bytes, i)
}

/// Whether `text` is a plain page. The test is on the text as UTF-8, where a
/// brace, a percent sign and a hash are one byte each and no other character
/// holds such a byte.
pub open spec fn plain_page(text: Seq<char>) -> bool {
    plain_bytes(encode_utf8(text))
}

/// Whether the ten bytes of `{{ text }}` stand at `i`.
fn placeholder_starts(bytes: &[u8], i: usize) -> (found: bool)
    requires
        i < bytes@.len(),
    ensures
        found == placeholder_at(bytes@, i as int),
{
    bytes.len() - i >= 10 && bytes[i] == 0x7b && bytes[i + 1] == 0x7b && bytes[i + 2] == 0x20
        && bytes[i + 3] == 0x74 && bytes[i + 4] == 0x65 && bytes[i + 5] == 0x78 && bytes[i + 6]
        == 0x74 && bytes[i + 7] == 0x20 && bytes[i + 8] == 0x7d && bytes[i + 9] == 0x7d
}

/// Tests whether `source` is a plain page.
pub fn is_plain_page(source: &str) -> (plain: bool)
    ensures
        plain == plain_page(source@),
{
    let bytes = source.as_bytes();
    let mut i: usize = 0;
    while i < bytes.len()
        invariant
            i <= bytes@.len(),
            bytes@ == encode_utf8(source@),
            forall|j: int| 0 <= j < i && #[trigger] opens_tag(bytes@, j) ==> placeholder_at(bytes@, j),
        decreases bytes@.len() - i,
    {
        if bytes[i] == 0x7b && bytes.len() - i >= 2 && (bytes[i + 1] == 0x7b || bytes[i + 1] == 0x25
            || bytes[i + 1] == 0x23) {
            if !placeholder_starts(bytes, i) {
                assert(opens_tag(bytes@, i as int));
                return false;
            }
        }
        i += 1;
    }
    true
}

} // verus!
