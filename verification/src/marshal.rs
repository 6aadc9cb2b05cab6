//! Conversion of host text into the nul-terminated byte strings the native
//! boundary requires.

use vstd::prelude::*;

verus! {

use crate::errors::Error;

/// True when `s` holds a zero byte, which a nul-terminated string cannot
/// carry.
pub open spec fn contains_nul(s: Seq<u8>) -> bool {
    exists|i: int| 0 <= i < s.len() && s[i] == 0
}

/// The native representation of the text `s`: its bytes followed by one
/// terminating zero.
pub open spec fn marshaled(s: Seq<u8>) -> Seq<u8> {
    s.push(0)
}

/// Converts host text into the nul-terminated bytes the engine expects.
///
/// Succeeds exactly when the text has no embedded zero byte; otherwise no
/// representation exists and the caller gets `MarshalError` before any
/// native call could be planned.
pub fn marshal(text: &Vec<u8>) -> (r: Result<Vec<u8>, Error>)
    ensures
        r is Ok <==> !contains_nul(text@),
        r matches Ok(c) ==> c@ == marshaled(text@),
        r matches Err(e) ==> e == Error::MarshalError,
{
    let mut out: Vec<u8> = Vec::new();
    let mut i: usize = 0;
    while i < text.len()
        invariant
            i <= text.len(),
            out@ == text@.subrange(0, i as int),
            forall|j: int| 0 <= j < i ==> text@[j] != 0,
        decreases text.len() - i,
    {
        let b = text[i];
        if b == 0 {
            assert(contains_nul(text@)) by {
                assert(text@[i as int] == 0);
            }
            return Err(Error::MarshalError);
        }
        out.push(b);
        i = i + 1;
    }
    assert(out@ =~= text@);
    out.push(0);
    Ok(out)
}

/// A marshaled string is well formed for the boundary: the terminator stands
/// exactly at the end, and every byte of the text itself is non-zero, so the
/// engine's scan for the terminator stops at the text's true length.
pub proof fn lemma_marshaled_wf(s: Seq<u8>)
    requires
        !contains_nul(s),
    ensures
        marshaled(s).len() == s.len() + 1,
        marshaled(s)[s.len() as int] == 0,
        forall|j: int| 0 <= j < s.len() ==> marshaled(s)[j] == s[j] && s[j] != 0,
{
}

/// Marshaling keeps the text intact: dropping the terminator recovers the
/// original bytes unchanged.
pub proof fn lemma_marshal_keeps_text(s: Seq<u8>)
    ensures
        marshaled(s).take(s.len() as int) == s,
{
    assert(marshaled(s).take(s.len() as int) =~= s);
}

} // verus!
