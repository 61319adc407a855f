use vstd::prelude::*;
use vstd::string::{StrSliceExecFns, StringSliceAdditionalSpecFns};
use vstd::utf8::{char_is_scalar, encode_scalar, encode_utf8};

verus! {

/// The number of bytes that UTF-8 takes for `c`.
pub open spec fn utf8_width(c: char) -> int {
    if (c as u32) < 0x80 {
        1
    } else if (c as u32) < 0x800 {
        2
    } else if (c as u32) < 0x10000 {
        3
    } else {
        4
    }
}

/// The number of code units that UTF-16 takes for `c`.
pub open spec fn utf16_width(c: char) -> int {
    if (c as u32) < 0x10000 {
        1
    } else {
        2
    }
}

/// The byte offset of the first character of `s` that starts at or after the
/// UTF-16 code-unit offset `u`; the byte length of `s` where none does.
pub open spec fn byte_offset_at_utf16(s: Seq<char>, u: int) -> int
    decreases s.len(),
{
    if s.len() == 0 || u <= 0 {
        0
    } else {
        utf8_width(s[0]) + byte_offset_at_utf16(s.drop_first(), u - utf16_width(s[0]))
    }
}

/// The number of UTF-16 code units taken by the characters of `s` that start
/// before the byte offset `b`.
pub open spec fn utf16_offset_at_byte(s: Seq<char>, b: int) -> int
    decreases s.len(),
{
    if s.len() == 0 || b <= 0 {
        0
    } else {
        utf16_width(s[0]) + utf16_offset_at_byte(s.drop_first(), b - utf8_width(s[0]))
    }
}

/// Whether every character of `s` is ASCII.
pub open spec fn all_ascii(s: Seq<char>) -> bool {
    forall|i: int| 0 <= i < s.len() ==> (#[trigger] s[i] as u32) < 0x80
}

fn utf8_width_of(c: char) -> (r: usize)
    ensures
        r as int == utf8_width(c),
{
    let v = c as u32;
    if v < 0x80 {
        1
    } else if v < 0x800 {
        2
    } else if v < 0x10000 {
        3
    } else {
        4
    }
}

fn utf16_width_of(c: char) -> (r: usize)
    ensures
        r as int == utf16_width(c),
{
    if (c as u32) < 0x10000 {
        1
    } else {
        2
    }
}

proof fn lemma_utf8_width_is_encoded_length(c: char)
    ensures
        encode_scalar(c as u32).len() == utf8_width(c),
        utf16_width(c) <= utf8_width(c),
{
    char_is_scalar(c);
}

/// The encoding of the characters from `i` on is that of the character at
/// `i` followed by that of the rest.
proof fn lemma_encoded_suffix(s: Seq<char>, i: int)
    requires
        0 <= i < s.len(),
    ensures
        encode_utf8(s.skip(i)).len() == utf8_width(s[i]) + encode_utf8(s.skip(i + 1)).len(),
        utf16_width(s[i]) <= utf8_width(s[i]),
{
    let rest = s.skip(i);
    assert(rest.drop_first() =~= s.skip(i + 1));
    assert(rest[0] == s[i]);
    lemma_utf8_width_is_encoded_length(s[i]);
}

/// Maps a UTF-16 code-unit offset, as a text layout engine reports it, to the
/// byte offset in `text` of the first character that starts at or after it
/// (the byte length of `text` where none does).
pub fn byte_offset_for_utf16_offset(text: &str, utf16_offset: i32) -> (r: usize)
    ensures
        r as int == byte_offset_at_utf16(text@, utf16_offset as int),
{
    let s = Ghost(text@);
    if utf16_offset <= 0 {
        return 0;
    }
    let target = utf16_offset as usize;
    let n = text.unicode_len();
    let total = text.as_bytes().len();
    let mut i: usize = 0;
    let mut units: usize = 0;
    let mut bytes: usize = 0;
    assert(s@.skip(0) =~= s@);
    while i < n && units < target
        invariant
            s@ == text@,
            n == s@.len(),
            0 <= i <= n,
            units <= bytes,
            bytes + encode_utf8(s@.skip(i as int)).len() == total,
            total == text.spec_bytes().len(),
            byte_offset_at_utf16(s@, target as int) == bytes + byte_offset_at_utf16(
                s@.skip(i as int),
                target - units,
            ),
        decreases n - i,
    {
        let c = text.get_char(i);
        let rest = Ghost(s@.skip(i as int));
        assert(rest@.drop_first() =~= s@.skip(i + 1));
        proof {
            lemma_encoded_suffix(s@, i as int);
        }
        bytes = bytes + utf8_width_of(c);
        units = units + utf16_width_of(c);
        i = i + 1;
    }
    assert(s@.skip(i as int).len() == 0 || units >= target);
    bytes
}

/// Maps a byte offset in `text` to the UTF-16 code-unit offset of the
/// characters that start before it, as a text layout engine counts them.
pub fn utf16_offset_for_byte_offset(text: &str, byte_offset: usize) -> (r: usize)
    ensures
        r as int == utf16_offset_at_byte(text@, byte_offset as int),
{
    let s = Ghost(text@);
    let n = text.unicode_len();
    let total = text.as_bytes().len();
    let mut i: usize = 0;
    let mut units: usize = 0;
    let mut bytes: usize = 0;
    assert(s@.skip(0) =~= s@);
    while i < n && bytes < byte_offset
        invariant
            s@ == text@,
            n == s@.len(),
            0 <= i <= n,
            units <= bytes,
            bytes + encode_utf8(s@.skip(i as int)).len() == total,
            total == text.spec_bytes().len(),
            utf16_offset_at_byte(s@, byte_offset as int) == units + utf16_offset_at_byte(
                s@.skip(i as int),
                byte_offset - bytes,
            ),
        decreases n - i,
    {
        let c = text.get_char(i);
        let rest = Ghost(s@.skip(i as int));
        assert(rest@.drop_first() =~= s@.skip(i + 1));
        proof {
            lemma_encoded_suffix(s@, i as int);
        }
        bytes = bytes + utf8_width_of(c);
        units = units + utf16_width_of(c);
        i = i + 1;
    }
    units
}

/// The byte offset in a text input's text for a point, given what the layout
/// engine's hit test returned: `None` where the input box has no area, so no
/// layout was made and the offset is 0; otherwise the UTF-16 offset of the
/// hit, mapped to the byte offset of the character at or after it.
pub fn text_input_byte_offset_for_position(text: &str, hit_utf16_offset: Option<i32>) -> (r:
    usize)
    ensures
        r as int == match hit_utf16_offset {
            Some(u) => byte_offset_at_utf16(text@, u as int),
            None => 0,
        },
{
    match hit_utf16_offset {
        Some(u) => byte_offset_for_utf16_offset(text, u),
        None => 0,
    }
}

proof fn lemma_ascii_offsets_agree(s: Seq<char>, k: int)
    requires
        all_ascii(s),
        0 <= k <= s.len(),
    ensures
        utf16_offset_at_byte(s, k) == k,
        byte_offset_at_utf16(s, k) == k,
    decreases s.len(),
{
    if s.len() > 0 && k > 0 {
        assert((s[0] as u32) < 0x80);
        assert forall|i: int| 0 <= i < s.drop_first().len() implies (
        #[trigger] s.drop_first()[i] as u32) < 0x80 by {
            assert(s.drop_first()[i] == s[i + 1]);
        }
        lemma_ascii_offsets_agree(s.drop_first(), k - 1);
    }
}

/// For ASCII text, mapping a byte offset to its UTF-16 offset (where the
/// caret is placed) and mapping that back (as a hit test at the caret does)
/// gives the byte offset again.
pub proof fn lemma_ascii_offset_round_trip(s: Seq<char>, byte_offset: int)
    requires
        all_ascii(s),
        0 <= byte_offset <= s.len(),
    ensures
        byte_offset_at_utf16(s, utf16_offset_at_byte(s, byte_offset)) == byte_offset,
{
    lemma_ascii_offsets_agree(s, byte_offset);
}

} // verus!
