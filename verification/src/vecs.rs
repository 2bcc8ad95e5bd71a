//! Small verified vector operations: membership, copying, filtering and
//! slicing, each specified against the sequence views.

use vstd::prelude::*;
use crate::alist::AKey;

verus! {

/// `a` is contained in `b` elementwise.
pub open spec fn seq_subset(a: Seq<Seq<char>>, b: Seq<Seq<char>>) -> bool {
    forall|i: int| 0 <= i < a.len() ==> b.contains(a[i])
}

/// Whether some element of `v` has the view of `s`.
pub fn contains_string(v: &Vec<String>, s: &String) -> (r: bool)
    ensures
        r == v.deep_view().contains(s@),
{
    let mut i: usize = 0;
    while i < v.len()
        invariant
            i <= v.len(),
            forall|j: int| 0 <= j < i ==> v.deep_view()[j] != s@,
        decreases v.len() - i,
    {
        if v[i].key_eq(s) {
            proof {
                assert(v.deep_view()[i as int] == s@);
            }
            return true;
        }
        i = i + 1;
    }
    false
}

/// An elementwise copy of a vector of strings.
pub fn clone_string_vec(v: &Vec<String>) -> (r: Vec<String>)
    ensures
        r@ == v@,
        r.deep_view() == v.deep_view(),
{
    let mut r: Vec<String> = Vec::new();
    let mut i: usize = 0;
    while i < v.len()
        invariant
            i <= v.len(),
            r@ == v@.subrange(0, i as int),
        decreases v.len() - i,
    {
        r.push(v[i].clone());
        proof {
            assert(r@ =~= v@.subrange(0, i as int + 1));
        }
        i = i + 1;
    }
    proof {
        assert(v@.subrange(0, v@.len() as int) =~= v@);
        assert(r.deep_view() =~= v.deep_view());
    }
    r
}

/// An elementwise copy of a vector of token ids.
pub fn clone_u64_vec(v: &Vec<u64>) -> (r: Vec<u64>)
    ensures
        r@ == v@,
{
    let mut r: Vec<u64> = Vec::new();
    let mut i: usize = 0;
    while i < v.len()
        invariant
            i <= v.len(),
            r@ == v@.subrange(0, i as int),
        decreases v.len() - i,
    {
        r.push(v[i]);
        proof {
            assert(r@ =~= v@.subrange(0, i as int + 1));
        }
        i = i + 1;
    }
    proof {
        assert(v@.subrange(0, v@.len() as int) =~= v@);
    }
    r
}

/// Every string of `v` except those with the view of `s`, in order.
pub fn filter_string_ne(v: Vec<String>, s: &String) -> (r: Vec<String>)
    ensures
        r.deep_view() == v.deep_view().filter(|m: Seq<char>| m != s@),
{
    let ghost dv = v.deep_view();
    let ghost pred = |m: Seq<char>| m != s@;
    let mut r: Vec<String> = Vec::new();
    let mut i: usize = 0;
    while i < v.len()
        invariant
            i <= v.len(),
            dv == v.deep_view(),
            pred == (|m: Seq<char>| m != s@),
            r.deep_view() == dv.subrange(0, i as int).filter(pred),
        decreases v.len() - i,
    {
        let ghost prefix = dv.subrange(0, i as int);
        let ghost prefix1 = dv.subrange(0, i as int + 1);
        proof {
            reveal_with_fuel(Seq::<Seq<char>>::filter, 2);
            assert(prefix1.drop_last() =~= prefix);
            assert(prefix1.last() == dv[i as int]);
        }
        if !v[i].key_eq(s) {
            r.push(v[i].clone());
            proof {
                reveal_with_fuel(Seq::<Seq<char>>::filter, 2);
                assert(pred(dv[i as int]));
                assert(r.deep_view() =~= prefix.filter(pred).push(dv[i as int]));
                assert(prefix1.filter(pred) == prefix.filter(pred).push(prefix1.last()));
            }
        } else {
            proof {
                reveal_with_fuel(Seq::<Seq<char>>::filter, 2);
                assert(!pred(dv[i as int]));
                assert(prefix1.filter(pred) == prefix.filter(pred));
            }
        }
        i = i + 1;
    }
    proof {
        assert(dv.subrange(0, dv.len() as int) =~= dv);
    }
    r
}

/// The ids of `s` other than `v`, in order.
pub open spec fn without_id(s: Seq<u64>, v: u64) -> Seq<u64>
    decreases s.len(),
{
    if s.len() == 0 {
        s
    } else {
        let rest = without_id(s.drop_last(), v);
        if s.last() == v {
            rest
        } else {
            rest.push(s.last())
        }
    }
}

/// An id other than `v` stays in the sequence when `v` leaves it.
pub proof fn lemma_without_id_contains(s: Seq<u64>, v: u64, x: u64)
    requires
        s.contains(x),
        x != v,
    ensures
        without_id(s, v).contains(x),
    decreases s.len(),
{
    assert(s.len() > 0);
    let i = choose|i: int| 0 <= i < s.len() && s[i] == x;
    let rest = without_id(s.drop_last(), v);
    if i == s.len() - 1 {
        assert(s.last() == x);
        assert(without_id(s, v) == rest.push(x));
        assert(rest.push(x)[rest.len() as int] == x);
    } else {
        assert(s.drop_last()[i] == x);
        assert(s.drop_last().contains(x));
        lemma_without_id_contains(s.drop_last(), v, x);
        let j = choose|j: int| 0 <= j < rest.len() && rest[j] == x;
        if s.last() == v {
            assert(without_id(s, v) == rest);
        } else {
            assert(without_id(s, v) == rest.push(s.last()));
            assert(rest.push(s.last())[j] == x);
        }
    }
}

/// Every id of `v` except `x`, in order.
pub fn filter_u64_ne(v: Vec<u64>, x: u64) -> (r: Vec<u64>)
    ensures
        r@ == without_id(v@, x),
{
    let mut r: Vec<u64> = Vec::new();
    let mut i: usize = 0;
    while i < v.len()
        invariant
            i <= v.len(),
            r@ == without_id(v@.subrange(0, i as int), x),
        decreases v.len() - i,
    {
        let ghost prefix = v@.subrange(0, i as int);
        let ghost prefix1 = v@.subrange(0, i as int + 1);
        proof {
            assert(prefix1.drop_last() =~= prefix);
            assert(prefix1.last() == v@[i as int]);
        }
        if v[i] != x {
            r.push(v[i]);
            proof {
                assert(without_id(prefix1, x) == without_id(prefix, x).push(prefix1.last()));
            }
        } else {
            proof {
                assert(without_id(prefix1, x) == without_id(prefix, x));
            }
        }
        i = i + 1;
    }
    proof {
        assert(v@.subrange(0, v@.len() as int) =~= v@);
    }
    r
}

/// The `count` ids of `v` that start at `start`, in order.
pub fn subrange_u64(v: &Vec<u64>, start: usize, count: usize) -> (r: Vec<u64>)
    requires
        start + count <= v.len(),
    ensures
        r@ == v@.subrange(start as int, start as int + count as int),
{
    let mut r: Vec<u64> = Vec::new();
    let mut i: usize = 0;
    while i < count
        invariant
            i <= count,
            start + count <= v.len(),
            r@ == v@.subrange(start as int, start as int + i as int),
        decreases count - i,
    {
        r.push(v[start + i]);
        proof {
            assert(r@ =~= v@.subrange(start as int, start as int + i as int + 1));
        }
        i = i + 1;
    }
    r
}

/// Whether every string of `req` occurs in `have`.
pub fn all_contained(req: &Vec<String>, have: &Vec<String>) -> (r: bool)
    ensures
        r == seq_subset(req.deep_view(), have.deep_view()),
{
    let mut i: usize = 0;
    while i < req.len()
        invariant
            i <= req.len(),
            forall|j: int| 0 <= j < i ==> have.deep_view().contains(req.deep_view()[j]),
        decreases req.len() - i,
    {
        if !contains_string(have, &req[i]) {
            proof {
                assert(!have.deep_view().contains(req.deep_view()[i as int]));
            }
            return false;
        }
        i = i + 1;
    }
    true
}

} // verus!
