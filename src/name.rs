//! The ten-byte voice name.

use vstd::prelude::*;
use vstd::utf8::{encode_utf8, is_ascii_chars, is_ascii_chars_encode_utf8, is_ascii_chars_nat_bound};

verus! {

/// The length of a voice name in bytes.
pub const NAME_SIZE: usize = 10;

/// All bytes are ASCII.
pub open spec fn all_ascii(b: Seq<u8>) -> bool {
    forall|i: int| 0 <= i < b.len() ==> #[trigger] b[i] < 128
}

/// The characters that ASCII bytes stand for.
pub open spec fn ascii_chars(b: Seq<u8>) -> Seq<char> {
    Seq::new(b.len(), |i: int| b[i] as char)
}

/// A name that its ten data bytes hold exactly: ten ASCII characters.
pub open spec fn name_ok(name: Seq<char>) -> bool {
    is_ascii_chars(name) && name.len() == NAME_SIZE
}

/// The data bytes of a name: its UTF-8 bytes, cut or padded with spaces to ten.
pub open spec fn name_bytes(name: Seq<char>) -> Seq<u8> {
    Seq::new(
        NAME_SIZE as nat,
        |i: int|
            if i < encode_utf8(name).len() {
                encode_utf8(name)[i]
            } else {
                0x20u8
            },
    )
}

/// A name of ten ASCII characters is read back from its data bytes.
pub proof fn lemma_name_round_trip(name: Seq<char>)
    requires
        name_ok(name),
    ensures
        all_ascii(name_bytes(name)),
        ascii_chars(name_bytes(name)) == name,
{
    is_ascii_chars_encode_utf8(name);
    is_ascii_chars_nat_bound(name);
    assert(ascii_chars(name_bytes(name)) =~= name);
}

/// Ten ASCII bytes give a name that its data bytes hold exactly.
pub proof fn lemma_ascii_name(b: Seq<u8>)
    requires
        all_ascii(b),
        b.len() == NAME_SIZE,
    ensures
        name_ok(ascii_chars(b)),
{
    assert forall|i: int| 0 <= i < b.len() implies '\0' <= #[trigger] ascii_chars(b)[i] <= '\u{7f}' by {
        assert(b[i] < 128);
    }
}

/// Relies on `String::from_utf8`: ASCII bytes are valid UTF-8, and each one
/// is the character of that code.
#[verifier::external_body]
fn string_from_utf8(bytes: Vec<u8>) -> (r: Option<String>)
    ensures
        all_ascii(bytes@) ==> r is Some && r->Some_0@ == ascii_chars(bytes@),
{
    String::from_utf8(bytes).ok()
}

/// Reads a name from its data bytes; `None` if one of them is not ASCII.
pub fn decode_name(data: &[u8]) -> (r: Option<String>)
    ensures
        all_ascii(data@) ==> r is Some && r->Some_0@ == ascii_chars(data@),
        !all_ascii(data@) ==> r is None,
{
    let mut bytes: Vec<u8> = Vec::new();
    let mut i: usize = 0;
    while i < data.len()
        invariant
            i <= data@.len(),
            bytes@ == data@.subrange(0, i as int),
            all_ascii(bytes@),
        decreases data@.len() - i,
    {
        if data[i] >= 128 {
            return None;
        }
        bytes.push(data[i]);
        i += 1;
        assert(bytes@ =~= data@.subrange(0, i as int));
    }
    assert(bytes@ =~= data@);
    string_from_utf8(bytes)
}

/// Appends the ten data bytes of a name to `data`.
pub fn append_name(name: &String, data: &mut Vec<u8>)
    ensures
        final(data)@ == old(data)@ + name_bytes(name@),
{
    let bytes = name.as_str().as_bytes();
    let ghost start = data@;
    let mut i: usize = 0;
    while i < NAME_SIZE
        invariant
            i <= NAME_SIZE,
            bytes@ == encode_utf8(name@),
            data@ == start + name_bytes(name@).subrange(0, i as int),
        decreases NAME_SIZE - i,
    {
        let b: u8 = if i < bytes.len() {
            bytes[i]
        } else {
            0x20
        };
        data.push(b);
        i += 1;
        assert(data@ =~= start + name_bytes(name@).subrange(0, i as int));
    }
    assert(name_bytes(name@).subrange(0, NAME_SIZE as int) =~= name_bytes(name@));
}

} // verus!
