//! Small verified operations on strings.
use vstd::prelude::*;
use vstd::string::*;

verus! {

/// `i` is the position of the first `'@'` of `d`.
pub open spec fn is_first_at(d: Seq<char>, i: int) -> bool {
    &&& 0 <= i < d.len()
    &&& d[i] == '@'
    &&& forall|j: int| 0 <= j < i ==> d[j] != '@'
}

/// The manager name of a declaration such as `"pnpm@9.9.0"`: the text before
/// the first `'@'`, or the whole text where there is none.
pub open spec fn name_part(d: Seq<char>) -> Seq<char> {
    if exists|i: int| is_first_at(d, i) {
        d.take(choose|i: int| is_first_at(d, i))
    } else {
        d
    }
}

/// Whether two strings hold the same characters.
pub fn str_eq(a: &str, b: &str) -> (r: bool)
    ensures
        r == (a@ == b@),
{
    let n = a.unicode_len();
    let m = b.unicode_len();
    if n != m {
        return false;
    }
    let mut i: usize = 0;
    while i < n
        invariant
            n == a@.len(),
            m == b@.len(),
            n == m,
            i <= n,
            forall|j: int| 0 <= j < i ==> a@[j] == b@[j],
        decreases n - i,
    {
        if a.get_char(i) != b.get_char(i) {
            return false;
        }
        i = i + 1;
    }
    assert(a@ =~= b@);
    true
}

/// The text of `decl` before its first `'@'`, or all of it where it has none.
pub fn split_name(decl: &str) -> (r: &str)
    ensures
        r@ == name_part(decl@),
{
    let n = decl.unicode_len();
    let mut i: usize = 0;
    while i < n
        invariant
            n == decl@.len(),
            i <= n,
            forall|j: int| 0 <= j < i ==> decl@[j] != '@',
        decreases n - i,
    {
        if decl.get_char(i) == '@' {
            assert(is_first_at(decl@, i as int));
            proof {
                let k = choose|k: int| is_first_at(decl@, k);
                assert(k == i) by {
                    if k < i {
                        assert(decl@[k] != '@');
                    } else if k > i {
                        assert(decl@[i as int] != '@');
                    }
                }
            }
            return decl.substring_char(0, i);
        }
        i = i + 1;
    }
    assert(!exists|k: int| is_first_at(decl@, k));
    let r = decl.substring_char(0, n);
    assert(r@ =~= decl@);
    r
}

} // verus!
