//! Paths as text whose components are separated by `/`.

use crate::text::to_chars;
use vstd::prelude::*;

verus! {

/// Whether the characters of `path` from `start` up to `end` form one whole
/// component of it: the stretch holds no `/` and is bounded on each side by
/// a `/` or by the end of the path.
pub open spec fn is_component(path: Seq<char>, start: int, end: int) -> bool {
    &&& 0 <= start <= end <= path.len()
    &&& start == 0 || path[start - 1] == '/'
    &&& end == path.len() || path[end] == '/'
    &&& forall|k: int| start <= k < end ==> path[k] != '/'
}

/// Whether some component of `path` is exactly `name`.
pub open spec fn has_component(path: Seq<char>, name: Seq<char>) -> bool {
    exists|start: int, end: int| #[trigger]
        is_component(path, start, end) && path.subrange(start, end) == name
}

fn stretch_equals(path: &Vec<char>, start: usize, end: usize, name: &Vec<char>) -> (same: bool)
    requires
        start <= end <= path.len(),
    ensures
        same == (path@.subrange(start as int, end as int) == name@),
{
    if end - start != name.len() {
        return false;
    }
    let mut k: usize = 0;
    while k < name.len()
        invariant
            start <= end <= path.len(),
            end - start == name.len(),
            k <= name.len(),
            forall|j: int| 0 <= j < k ==> path@[start + j] == name@[j],
        decreases name.len() - k,
    {
        if path[start + k] != name[k] {
            assert(path@.subrange(start as int, end as int)[k as int] != name@[k as int]);
            return false;
        }
        k += 1;
    }
    assert(path@.subrange(start as int, end as int) =~= name@);
    true
}

/// Whether some component of `path` is exactly `name`.
pub fn path_has_component(path: &str, name: &str) -> (found: bool)
    ensures
        found == has_component(path@, name@),
{
    let p = to_chars(path);
    let n = to_chars(name);
    let mut start: usize = 0;
    let mut i: usize = 0;
    while i < p.len()
        invariant
            p@ == path@,
            n@ == name@,
            start <= i <= p.len(),
            start == 0 || p@[start - 1] == '/',
            forall|k: int| start <= k < i ==> p@[k] != '/',
            forall|s: int, e: int|
                e < start && #[trigger] is_component(p@, s, e) ==> p@.subrange(s, e) != n@,
        decreases p.len() - i,
    {
        if p[i] == '/' {
            if stretch_equals(&p, start, i, &n) {
                assert(is_component(p@, start as int, i as int));
                return true;
            }
            assert forall|s: int, e: int|
                e < i + 1 && #[trigger] is_component(p@, s, e) implies p@.subrange(s, e) != n@ by {
                if e >= start {
                    if e == i {
                        if s < start {
                            assert(p@[start - 1] == '/');
                        } else if s > start {
                            assert(p@[s - 1] == '/');
                        }
                    }
                }
            }
            start = i + 1;
        }
        i += 1;
    }
    let found = stretch_equals(&p, start, i, &n);
    if found {
        assert(is_component(p@, start as int, i as int));
    } else {
        assert forall|s: int, e: int| #[trigger]
            is_component(p@, s, e) implies p@.subrange(s, e) != n@ by {
            if e >= start {
                if e == i {
                    if s < start {
                        assert(p@[start - 1] == '/');
                    } else if s > start {
                        assert(p@[s - 1] == '/');
                    }
                }
            }
        }
    }
    found
}

} // verus!
