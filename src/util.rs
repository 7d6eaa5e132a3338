use vstd::prelude::*;

verus! {

/// The bytes of `s` before its first zero byte; all of `s` when it holds
/// none.
pub open spec fn before_nul(s: Seq<u8>) -> Seq<u8> {
    if exists|i: int| 0 <= i < s.len() && s[i] == 0 {
        s.take(choose|i: int| 0 <= i < s.len() && s[i] == 0 && forall|j: int| 0 <= j < i ==> s[j] != 0)
    } else {
        s
    }
}

/// The bytes of a UTF-8 string that a C string can carry: those before the
/// first zero byte.
pub fn cstring_to_gstring(utf8: &[u8]) -> (r: Vec<u8>)
    ensures
        forall|j: int| 0 <= j < r@.len() ==> #[trigger] r@[j] != 0,
        r@.len() <= utf8@.len(),
        r@ == utf8@.take(r@.len() as int),
        r@.len() < utf8@.len() ==> utf8@[r@.len() as int] == 0,
        r@ == before_nul(utf8@),
{
    let mut out: Vec<u8> = Vec::new();
    let mut i: usize = 0;
    let mut stop = false;
    while i < utf8.len() && !stop
        invariant
            i <= utf8@.len(),
            out@ == utf8@.take(i as int),
            forall|j: int| 0 <= j < i ==> utf8@[j] != 0,
            stop ==> i < utf8@.len() && utf8@[i as int] == 0,
        decreases utf8@.len() - i + (if stop { 0int } else { 1int }),
    {
        if utf8[i] == 0 {
            stop = true;
        } else {
            out.push(utf8[i]);
            i = i + 1;
            assert(out@ =~= utf8@.take(i as int));
        }
    }
    proof {
        if stop {
            let k = choose|k: int|
                0 <= k < utf8@.len() && utf8@[k] == 0 && forall|j: int| 0 <= j < k ==> utf8@[j] != 0;
            assert(utf8@[i as int] == 0 && forall|j: int| 0 <= j < i ==> utf8@[j] != 0);
            if k < i {
                assert(utf8@[k] != 0);
            }
            if i < k {
                assert(utf8@[i as int] != 0);
            }
            assert(k == i);
        } else {
            assert(out@ =~= utf8@);
        }
    }
    out
}

} // verus!
