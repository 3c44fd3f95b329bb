use vstd::prelude::*;

verus! {

/// Length in bytes of the UTF-8 encoding of `s` (a string held in memory never
/// exceeds `usize::MAX` bytes, so the conversion is exact).
pub open spec fn byte_len(s: &String) -> nat {
    (vstd::utf8::encode_utf8(s@).len() as usize) as nat
}

/// Whether `s` fits in a field whose encoded size is capped at `max` bytes.
pub fn fits(s: &String, max: usize) -> (r: bool)
    ensures
        r == (byte_len(s) <= max),
{
    s.as_str().len() <= max
}

} // verus!
