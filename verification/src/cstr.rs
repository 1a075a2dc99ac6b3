//! NUL-terminated byte strings stored in fixed-size buffers.
use vstd::prelude::*;

verus! {

/// The number of bytes of `s` before its first NUL (all of `s` if it has
/// none).
pub open spec fn c_str_len(s: Seq<u8>) -> nat
    decreases s.len(),
{
    if s.len() == 0 || s[0] == 0 {
        0
    } else {
        1 + c_str_len(s.drop_first())
    }
}

/// The C string stored in buffer `s`: its bytes before the first NUL.
pub open spec fn c_str(s: Seq<u8>) -> Seq<u8> {
    s.take(c_str_len(s) as int)
}

/// A buffer holding `t` followed by a NUL stores the C string `t`, provided
/// `t` holds no NUL itself.
pub proof fn lemma_c_str_of_prefix(s: Seq<u8>, t: Seq<u8>)
    requires
        t.len() < s.len(),
        forall|i: int| 0 <= i < t.len() ==> s[i] == t[i] && t[i] != 0,
        s[t.len() as int] == 0,
    ensures
        c_str_len(s) == t.len(),
        c_str(s) == t,
    decreases t.len(),
{
    if t.len() > 0 {
        lemma_c_str_of_prefix(s.drop_first(), t.drop_first());
    }
    assert(s.take(t.len() as int) =~= t);
}

} // verus!
