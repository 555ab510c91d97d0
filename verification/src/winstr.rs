//! Wide strings for the host's API: UTF-16 code units with a trailing
//! NUL.
//!
//! The platform's wide-character calls take such buffers; building one
//! from a string is pure logic and is proved here, code point by code
//! point, against a specification of UTF-16.

use vstd::prelude::*;
use vstd::string::StrSliceExecFns;
use vstd::utf8::char_is_scalar;

verus! {

/// The UTF-16 code units encoding one character: one unit below
/// `0x10000`, else a surrogate pair.
pub open spec fn spec_utf16_units(c: char) -> Seq<u16> {
    let u = c as u32;
    if u < 0x10000 {
        seq![u as u16]
    } else {
        seq![
            (0xD800 + ((u - 0x10000) / 0x400)) as u16,
            (0xDC00 + ((u - 0x10000) % 0x400)) as u16,
        ]
    }
}

/// The UTF-16 code units encoding a character sequence, in order.
pub open spec fn spec_utf16(s: Seq<char>) -> Seq<u16>
    decreases s.len(),
{
    if s.len() == 0 {
        Seq::empty()
    } else {
        spec_utf16(s.drop_last()) + spec_utf16_units(s.last())
    }
}

/// The UTF-16 code units of a string followed by a NUL terminator.
pub fn get_nullterminated_utf16_from_utf8(input: &str) -> (r: Vec<u16>)
    ensures
        r@ == spec_utf16(input@).push(0u16),
{
    let n = input.unicode_len();
    let mut out: Vec<u16> = Vec::new();
    let mut i: usize = 0;
    proof {
        assert(input@.take(0) =~= Seq::<char>::empty());
    }
    while i < n
        invariant
            0 <= i <= n,
            n == input@.len(),
            out@ == spec_utf16(input@.take(i as int)),
        decreases n - i,
    {
        let c = input.get_char(i);
        proof {
            char_is_scalar(c);
            assert(input@.take(i + 1).drop_last() =~= input@.take(i as int));
            assert(input@.take(i + 1).last() == input@[i as int]);
        }
        let u = c as u32;
        if u < 0x10000 {
            out.push(u as u16);
            proof {
                assert(out@ =~= spec_utf16(input@.take(i as int)) + spec_utf16_units(c));
            }
        } else {
            let v = u - 0x10000;
            out.push((0xD800 + (v / 0x400)) as u16);
            out.push((0xDC00 + (v % 0x400)) as u16);
            proof {
                assert(out@ =~= spec_utf16(input@.take(i as int)) + spec_utf16_units(c));
            }
        }
        i = i + 1;
    }
    proof {
        assert(input@.take(n as int) =~= input@);
    }
    out.push(0);
    out
}

/// A buffer of wide characters for the host's API.
pub struct Win32String<T> {
    pub data: Vec<T>,
}

impl Win32String<u16> {
    /// The NUL-terminated UTF-16 encoding of a string.
    pub fn from_str(input: &str) -> (r: Win32String<u16>)
        ensures
            r.data@ == spec_utf16(input@).push(0u16),
    {
        let data = get_nullterminated_utf16_from_utf8(input);
        Win32String::from_buffer(data)
    }

    /// Appends another buffer's units to this one.
    pub fn push(&mut self, input: Win32String<u16>)
        ensures
            final(self).data@ == old(self).data@ + input.data@,
    {
        let mut other = input;
        self.data.append(&mut other.data);
    }

    /// Wraps an already-built buffer.
    pub fn from_buffer(data: Vec<u16>) -> (r: Win32String<u16>)
        ensures
            r.data@ == data@,
    {
        Win32String { data }
    }
}

} // verus!
