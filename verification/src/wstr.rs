//! UTF-16 wide strings for the native call boundary.
//!
//! The native extraction call takes a null-terminated UTF-16 path. The
//! encoding is small enough to state outright: a scalar below `0x10000` is
//! one code unit, any other scalar is a surrogate pair.

use vstd::prelude::*;

verus! {

/// The UTF-16 code units that encode one character.
pub open spec fn utf16_units(c: char) -> Seq<u16> {
    let v = c as u32;
    if v < 0x10000 {
        seq![v as u16]
    } else {
        seq![
            (0xD800 + (v - 0x10000) / 0x400) as u16,
            (0xDC00 + (v - 0x10000) % 0x400) as u16,
        ]
    }
}

/// The UTF-16 encoding of a character sequence, without a terminator.
pub open spec fn utf16_of(s: Seq<char>) -> Seq<u16>
    decreases s.len(),
{
    if s.len() == 0 {
        Seq::empty()
    } else {
        utf16_of(s.drop_last()) + utf16_units(s.last())
    }
}

/// The wide-string form of a path: its UTF-16 encoding followed by a null
/// terminator.
pub open spec fn wstr_of(s: Seq<char>) -> Seq<u16> {
    utf16_of(s) + seq![0u16]
}

/// Appends the UTF-16 code units of one character.
fn push_utf16_units(c: char, out: &mut Vec<u16>)
    ensures
        final(out)@ == old(out)@ + utf16_units(c),
{
    proof {
        vstd::utf8::char_is_scalar(c);
    }
    let v = c as u32;
    if v < 0x10000 {
        out.push(v as u16);
        assert(out@ =~= old(out)@ + utf16_units(c));
    } else {
        let off = v - 0x10000;
        assert(off / 0x400 <= 0x3FF) by {
            assert(off <= 0xFFFFF);
        }
        let hi = 0xD800 + off / 0x400;
        let lo = 0xDC00 + off % 0x400;
        out.push(hi as u16);
        out.push(lo as u16);
        assert(out@ =~= old(out)@ + utf16_units(c));
    }
}

/// Converts a path to the null-terminated UTF-16 wide string the native
/// call requires.
pub fn path_to_wstr(path: &str) -> (r: Vec<u16>)
    ensures
        r@ == wstr_of(path@),
{
    let n = path.unicode_len();
    let mut out: Vec<u16> = Vec::new();
    for i in 0..n
        invariant
            n == path@.len(),
            out@ == utf16_of(path@.take(i as int)),
    {
        let c = path.get_char(i);
        push_utf16_units(c, &mut out);
        proof {
            assert(path@.take(i + 1).drop_last() =~= path@.take(i as int));
            assert(path@.take(i + 1).last() == c);
        }
    }
    proof {
        assert(path@.take(n as int) =~= path@);
    }
    out.push(0);
    proof {
        assert(out@ =~= wstr_of(path@));
    }
    out
}

} // verus!
