//! Strings as the engine reads them: bytes ended by a single NUL.
use vstd::prelude::*;

verus! {

/// The bytes of `text` as the engine reads them, or `None` if `text` holds
/// a NUL byte, which would cut it short.
pub fn nul_terminated(text: &[u8]) -> (r: Option<Vec<u8>>)
    ensures
        r is Some <==> !text@.contains(0u8),
        r matches Some(v) ==> v@ == text@.push(0u8),
{
    let mut out: Vec<u8> = Vec::new();
    let mut i: usize = 0;
    while i < text.len()
        invariant
            i <= text@.len(),
            out@ == text@.subrange(0, i as int),
            !text@.subrange(0, i as int).contains(0u8),
        decreases text@.len() - i,
    {
        let b = text[i];
        if b == 0 {
            assert(text@[i as int] == 0u8);
            return None;
        }
        out.push(b);
        assert(text@.subrange(0, i as int + 1) =~= text@.subrange(0, i as int).push(b));
        i = i + 1;
    }
    assert(text@.subrange(0, i as int) =~= text@);
    out.push(0u8);
    Some(out)
}

} // verus!
