//! First-match searches used by the transformer and the path substitution,
//! with the lemmas that pin each one to its least witness.

use crate::decl::AttrView;
use vstd::prelude::*;

verus! {

/// Index of the first closing brace in `t`, or `-1` when there is none.
pub open spec fn find_close(t: Seq<char>) -> int
    decreases t.len(),
{
    if t.len() == 0 {
        -1
    } else if t[0] == '}' {
        0
    } else {
        let r = find_close(t.skip(1));
        if r == -1 {
            -1
        } else {
            r + 1
        }
    }
}

/// A found index is in range and lands on a closing brace.
pub proof fn lemma_find_close_bounds(t: Seq<char>)
    ensures
        find_close(t) != -1 ==> 0 <= find_close(t) < t.len() && t[find_close(t)] == '}',
    decreases t.len(),
{
    if t.len() > 0 && t[0] != '}' {
        lemma_find_close_bounds(t.skip(1));
        if find_close(t.skip(1)) != -1 {
            assert(t.skip(1)[find_close(t.skip(1))] == t[find_close(t.skip(1)) + 1]);
        }
    }
}

/// A least witness determines `find_close`.
pub proof fn lemma_find_close_is(t: Seq<char>, m: int)
    requires
        0 <= m < t.len(),
        t[m] == '}',
        forall|i: int| 0 <= i < m ==> t[i] != '}',
    ensures
        find_close(t) == m,
    decreases m,
{
    if m > 0 {
        assert forall|i: int| 0 <= i < m - 1 implies t.skip(1)[i] != '}' by {
            assert(t.skip(1)[i] == t[i + 1]);
        }
        assert(t.skip(1)[m - 1] == t[m]);
        lemma_find_close_is(t.skip(1), m - 1);
    }
}

/// No closing brace anywhere means `-1`.
pub proof fn lemma_find_close_none(t: Seq<char>)
    requires
        forall|i: int| 0 <= i < t.len() ==> t[i] != '}',
    ensures
        find_close(t) == -1,
    decreases t.len(),
{
    if t.len() > 0 {
        assert forall|i: int| 0 <= i < t.len() - 1 implies t.skip(1)[i] != '}' by {
            assert(t.skip(1)[i] == t[i + 1]);
        }
        lemma_find_close_none(t.skip(1));
    }
}

/// Index of the first occurrence of `target` in `names`, or `-1`.
pub open spec fn find_name(names: Seq<Seq<char>>, target: Seq<char>) -> int
    decreases names.len(),
{
    if names.len() == 0 {
        -1
    } else if names[0] == target {
        0
    } else {
        let r = find_name(names.skip(1), target);
        if r == -1 {
            -1
        } else {
            r + 1
        }
    }
}

/// A least witness determines `find_name`.
pub proof fn lemma_find_name_is(names: Seq<Seq<char>>, target: Seq<char>, m: int)
    requires
        0 <= m < names.len(),
        names[m] == target,
        forall|i: int| 0 <= i < m ==> names[i] != target,
    ensures
        find_name(names, target) == m,
    decreases m,
{
    if m > 0 {
        assert forall|i: int| 0 <= i < m - 1 implies names.skip(1)[i] != target by {
            assert(names.skip(1)[i] == names[i + 1]);
        }
        assert(names.skip(1)[m - 1] == names[m]);
        lemma_find_name_is(names.skip(1), target, m - 1);
    }
}

/// `target` occurring nowhere in `names` means `-1`.
pub proof fn lemma_find_name_none(names: Seq<Seq<char>>, target: Seq<char>)
    requires
        forall|i: int| 0 <= i < names.len() ==> names[i] != target,
    ensures
        find_name(names, target) == -1,
    decreases names.len(),
{
    if names.len() > 0 {
        assert forall|i: int| 0 <= i < names.len() - 1 implies names.skip(1)[i] != target by {
            assert(names.skip(1)[i] == names[i + 1]);
        }
        lemma_find_name_none(names.skip(1), target);
    }
}

/// Whether an attribute's path starts with the given segment name; this is
/// the only way the transformer recognises an attribute.
pub open spec fn attr_matches(a: AttrView, name: Seq<char>) -> bool {
    a.segments.len() > 0 && a.segments[0] == name
}

/// Index of the first attribute whose leading path segment is `name`, or `-1`.
pub open spec fn find_attr(attrs: Seq<AttrView>, name: Seq<char>) -> int
    decreases attrs.len(),
{
    if attrs.len() == 0 {
        -1
    } else if attr_matches(attrs[0], name) {
        0
    } else {
        let r = find_attr(attrs.skip(1), name);
        if r == -1 {
            -1
        } else {
            r + 1
        }
    }
}

/// A least witness determines `find_attr`.
pub proof fn lemma_find_attr_is(attrs: Seq<AttrView>, name: Seq<char>, m: int)
    requires
        0 <= m < attrs.len(),
        attr_matches(attrs[m], name),
        forall|i: int| 0 <= i < m ==> !attr_matches(#[trigger] attrs[i], name),
    ensures
        find_attr(attrs, name) == m,
    decreases m,
{
    if m > 0 {
        assert forall|i: int| 0 <= i < m - 1 implies !attr_matches(#[trigger] attrs.skip(1)[i], name) by {
            assert(attrs.skip(1)[i] == attrs[i + 1]);
        }
        assert(attrs.skip(1)[m - 1] == attrs[m]);
        lemma_find_attr_is(attrs.skip(1), name, m - 1);
    }
}

/// No attribute matching anywhere means `-1`.
pub proof fn lemma_find_attr_none(attrs: Seq<AttrView>, name: Seq<char>)
    requires
        forall|i: int| 0 <= i < attrs.len() ==> !attr_matches(#[trigger] attrs[i], name),
    ensures
        find_attr(attrs, name) == -1,
    decreases attrs.len(),
{
    if attrs.len() > 0 {
        assert forall|i: int| 0 <= i < attrs.len() - 1 implies !attr_matches(
            #[trigger] attrs.skip(1)[i],
            name,
        ) by {
            assert(attrs.skip(1)[i] == attrs[i + 1]);
        }
        lemma_find_attr_none(attrs.skip(1), name);
    }
}

/// Character-for-character string equality, decided executably.
pub fn str_eq(a: &str, b: &str) -> (r: bool)
    ensures
        r == (a@ == b@),
{
    let la = a.unicode_len();
    let lb = b.unicode_len();
    if la != lb {
        return false;
    }
    let mut i: usize = 0;
    while i < la
        invariant
            i <= la,
            la == a@.len(),
            la == b@.len(),
            forall|k: int| 0 <= k < i ==> a@[k] == b@[k],
        decreases la - i,
    {
        if a.get_char(i) != b.get_char(i) {
            return false;
        }
        i += 1;
    }
    proof {
        assert(a@ =~= b@);
    }
    true
}

} // verus!
