//! Path templates and endpoint normalisation.
//!
//! A path template is a string with zero or more `{name}` placeholders. At
//! call time each placeholder whose name is bound is replaced by the bound
//! value; a placeholder without a binding, or a brace without a closing one,
//! is copied through verbatim, so a mismatch shows up in the resulting URL
//! rather than being rejected. The stored endpoint is the base URL with every
//! trailing `/` removed.

use crate::search::{
    find_close, find_name, lemma_find_close_bounds, lemma_find_close_is, lemma_find_close_none,
    lemma_find_name_is, lemma_find_name_none, str_eq,
};
use vstd::prelude::*;
use vstd::string::*;

verus! {

/// The meaning of substitution: scan `t` from the front; on `{` look for the
/// matching `}`; a bound name yields its value, an unbound or unterminated
/// placeholder is copied through; every other character is copied through.
pub open spec fn subst(t: Seq<char>, names: Seq<Seq<char>>, vals: Seq<Seq<char>>) -> Seq<char>
    decreases t.len(),
{
    if t.len() == 0 {
        Seq::<char>::empty()
    } else if t[0] == '{' {
        let c = find_close(t.skip(1));
        if c >= 0 && c + 2 <= t.len() {
            let name = t.subrange(1, c + 1);
            let k = find_name(names, name);
            if k >= 0 {
                vals[k] + subst(t.skip(c + 2), names, vals)
            } else {
                t.subrange(0, c + 2) + subst(t.skip(c + 2), names, vals)
            }
        } else {
            seq![t[0]] + subst(t.skip(1), names, vals)
        }
    } else {
        seq![t[0]] + subst(t.skip(1), names, vals)
    }
}

/// With no bindings at all, substitution changes nothing: unbound
/// placeholders are copied through verbatim.
pub proof fn lemma_subst_no_bindings(t: Seq<char>)
    ensures
        subst(t, Seq::<Seq<char>>::empty(), Seq::<Seq<char>>::empty()) == t,
    decreases t.len(),
{
    let names = Seq::<Seq<char>>::empty();
    let vals = Seq::<Seq<char>>::empty();
    if t.len() == 0 {
        assert(subst(t, names, vals) =~= t);
    } else if t[0] == '{' {
        let c = find_close(t.skip(1));
        lemma_find_close_bounds(t.skip(1));
        if c >= 0 {
            lemma_subst_no_bindings(t.skip(c + 2));
            assert(subst(t, names, vals) =~= t.subrange(0, c + 2) + t.skip(c + 2));
            assert(t.subrange(0, c + 2) + t.skip(c + 2) =~= t);
        } else {
            lemma_subst_no_bindings(t.skip(1));
            assert(subst(t, names, vals) =~= seq![t[0]] + t.skip(1));
            assert(seq![t[0]] + t.skip(1) =~= t);
        }
    } else {
        lemma_subst_no_bindings(t.skip(1));
        assert(subst(t, names, vals) =~= seq![t[0]] + t.skip(1));
        assert(seq![t[0]] + t.skip(1) =~= t);
    }
}

/// Replace every bound `{name}` placeholder in `template` by its value.
pub fn substitute(template: &str, names: &Vec<String>, values: &Vec<String>) -> (r: String)
    requires
        names@.len() == values@.len(),
    ensures
        r@ == subst(template@, names.deep_view(), values.deep_view()),
{
    let ghost t = template@;
    let ghost nv = names.deep_view();
    let ghost vv = values.deep_view();
    let n = template.unicode_len();
    let mut out = String::new();
    let mut i: usize = 0;
    proof {
        assert(t.skip(0) =~= t);
        assert(Seq::<char>::empty() + subst(t, nv, vv) =~= subst(t, nv, vv));
    }
    while i < n
        invariant
            i <= n,
            n == t.len(),
            t == template@,
            nv == names.deep_view(),
            vv == values.deep_view(),
            nv.len() == vv.len(),
            names@.len() == nv.len(),
            values@.len() == vv.len(),
            out@ + subst(t.skip(i as int), nv, vv) == subst(t, nv, vv),
        decreases n - i,
    {
        let ghost rest = t.skip(i as int);
        let c = template.get_char(i);
        proof {
            assert(rest[0] == t[i as int]);
        }
        if c == '{' {
            // scan for the closing brace
            let mut j: usize = i + 1;
            loop
                invariant
                    i + 1 <= j <= n,
                    n == t.len(),
                    t == template@,
                    forall|k: int| i + 1 <= k < j ==> t[k] != '}',
                ensures
                    i + 1 <= j <= n,
                    j < n ==> t[j as int] == '}',
                    forall|k: int| i + 1 <= k < j ==> t[k] != '}',
                decreases n - j,
            {
                if j >= n {
                    break ;
                }
                if template.get_char(j) == '}' {
                    break ;
                }
                j += 1;
            }
            if j < n {
                proof {
                    let s1 = t.skip(i + 1);
                    assert forall|k: int| 0 <= k < j - i - 1 implies s1[k] != '}' by {
                        assert(s1[k] == t[k + i + 1]);
                    }
                    assert(s1[j - i - 1] == t[j as int]);
                    lemma_find_close_is(s1, j - i - 1);
                    assert(rest.skip(1) =~= s1);
                    assert(find_close(rest.skip(1)) == j - i - 1);
                }
                let ghost cc: int = j - i - 1;
                let name = template.substring_char(i + 1, j);
                proof {
                    assert(rest.subrange(1, cc + 1) =~= t.subrange(i + 1, j as int));
                    assert(name@ == rest.subrange(1, cc + 1));
                }
                // look the name up among the bindings
                let mut k: usize = 0;
                loop
                    invariant
                        k <= names@.len(),
                        nv == names.deep_view(),
                        names@.len() == nv.len(),
                        forall|m: int| 0 <= m < k ==> nv[m] != name@,
                        name@ == rest.subrange(1, cc + 1),
                    ensures
                        k <= nv.len(),
                        k < nv.len() ==> nv[k as int] == name@,
                        forall|m: int| 0 <= m < k ==> nv[m] != name@,
                    decreases names@.len() - k,
                {
                    if k >= names.len() {
                        break ;
                    }
                    if str_eq(names[k].as_str(), name) {
                        proof {
                            assert(nv[k as int] == names@[k as int]@);
                        }
                        break ;
                    }
                    proof {
                        assert(nv[k as int] == names@[k as int]@);
                    }
                    k += 1;
                }
                if k < values.len() {
                    proof {
                        lemma_find_name_is(nv, name@, k as int);
                    }
                    out.append(values[k].as_str());
                    proof {
                        assert(vv[k as int] == values@[k as int]@);
                    }
                } else {
                    proof {
                        lemma_find_name_none(nv, name@);
                    }
                    let piece = template.substring_char(i, j + 1);
                    proof {
                        assert(piece@ =~= rest.subrange(0, cc + 2));
                    }
                    out.append(piece);
                }
                proof {
                    assert(rest.skip(cc + 2) =~= t.skip(j + 1));
                }
                i = j + 1;
            } else {
                // no closing brace: the brace itself is copied through
                proof {
                    let s1 = t.skip(i + 1);
                    assert forall|k: int| 0 <= k < s1.len() implies s1[k] != '}' by {
                        assert(s1[k] == t[k + i + 1]);
                    }
                    lemma_find_close_none(s1);
                    assert(rest.skip(1) =~= s1);
                    assert(find_close(rest.skip(1)) == -1);
                }
                let piece = template.substring_char(i, i + 1);
                proof {
                    assert(piece@ =~= seq![rest[0]]);
                    assert(rest.skip(1) =~= t.skip(i + 1));
                }
                out.append(piece);
                i += 1;
            }
        } else {
            let piece = template.substring_char(i, i + 1);
            proof {
                assert(piece@ =~= seq![rest[0]]);
                assert(rest.skip(1) =~= t.skip(i + 1));
            }
            out.append(piece);
            i += 1;
        }
        proof {
            assert(out@ + subst(t.skip(i as int), nv, vv) =~= subst(t, nv, vv));
        }
    }
    proof {
        assert(t.skip(n as int) =~= Seq::<char>::empty());
        assert(out@ =~= subst(t, nv, vv));
    }
    out
}

/// The stored form of a base URL: the URL with every trailing `/` removed.
pub open spec fn trimmed(s: Seq<char>) -> Seq<char>
    decreases s.len(),
{
    if s.len() > 0 && s[s.len() - 1] == '/' {
        trimmed(s.take(s.len() - 1))
    } else {
        s
    }
}

/// Trimming is idempotent: a trimmed endpoint is stored as it is.
pub proof fn lemma_trimmed_idempotent(s: Seq<char>)
    ensures
        trimmed(trimmed(s)) == trimmed(s),
    decreases s.len(),
{
    if s.len() > 0 && s[s.len() - 1] == '/' {
        lemma_trimmed_idempotent(s.take(s.len() - 1));
    }
}

/// Appending one `/` never changes the trimmed form.
pub proof fn lemma_trimmed_push_slash(s: Seq<char>)
    ensures
        trimmed(s.push('/')) == trimmed(s),
{
    let p = s.push('/');
    assert(p[p.len() - 1] == '/');
    assert(p.take(p.len() - 1) =~= s);
}

/// Base URLs differing only in how many `/` they end with trim to the same
/// endpoint: appending any number of slashes leaves the trimmed form alone.
pub proof fn lemma_trimmed_append_slashes(s: Seq<char>, n: nat)
    ensures
        trimmed(s + Seq::<char>::new(n, |i: int| '/')) == trimmed(s),
    decreases n,
{
    let slashes = Seq::<char>::new(n, |i: int| '/');
    if n == 0 {
        assert(s + slashes =~= s);
    } else {
        let fewer = Seq::<char>::new((n - 1) as nat, |i: int| '/');
        assert(s + slashes =~= (s + fewer).push('/'));
        lemma_trimmed_push_slash(s + fewer);
        lemma_trimmed_append_slashes(s, (n - 1) as nat);
    }
}

/// Remove every trailing `/` from `s`.
pub fn trim_trailing_slashes(s: &str) -> (r: String)
    ensures
        r@ == trimmed(s@),
{
    let n = s.unicode_len();
    let mut e: usize = n;
    proof {
        assert(s@.take(n as int) =~= s@);
    }
    loop
        invariant
            e <= n,
            n == s@.len(),
            trimmed(s@.take(e as int)) == trimmed(s@),
        ensures
            e <= n,
            n == s@.len(),
            trimmed(s@.take(e as int)) == trimmed(s@),
            e > 0 ==> s@[e - 1] != '/',
        decreases e,
    {
        if e == 0 {
            break ;
        }
        if s.get_char(e - 1) != '/' {
            break ;
        }
        proof {
            let cur = s@.take(e as int);
            assert(cur[cur.len() - 1] == s@[e - 1]);
            assert(cur.take(cur.len() - 1) =~= s@.take(e - 1));
        }
        e -= 1;
    }
    let kept = s.substring_char(0, e);
    proof {
        let cur = s@.take(e as int);
        if e > 0 {
            assert(cur[cur.len() - 1] == s@[e - 1]);
        }
        assert(trimmed(cur) == cur);
        assert(kept@ =~= cur);
    }
    kept.to_owned()
}

} // verus!
