//! Sorted, duplicate-free identifier lists: the summary a form package
//! keeps of the string identifiers its opcode stream references.

use vstd::prelude::*;

verus! {

/// Strictly ascending order; implies that no element repeats.
pub open spec fn strictly_increasing(s: Seq<u16>) -> bool {
    forall|i: int, j: int| 0 <= i < j < s.len() ==> s[i] < s[j]
}

proof fn lemma_to_set_push(s: Seq<u16>, x: u16)
    ensures
        (s.push(x)).to_set() == s.to_set().insert(x),
{
    assert forall|y: u16| (s.push(x)).to_set().contains(y) implies s.to_set().insert(x).contains(
        y,
    ) by {
        let i = choose|i: int| 0 <= i < s.push(x).len() && s.push(x)[i] == y;
        if i < s.len() {
            assert(s[i] == y);
        }
    };
    assert forall|y: u16| s.to_set().insert(x).contains(y) implies (s.push(x)).to_set().contains(
        y,
    ) by {
        if s.to_set().contains(y) {
            let i = choose|i: int| 0 <= i < s.len() && s[i] == y;
            assert(s.push(x)[i] == y);
        } else {
            assert(s.push(x)[s.len() as int] == x);
        }
    };
    assert((s.push(x)).to_set() =~= s.to_set().insert(x));
}

proof fn lemma_insert_index(s: Seq<u16>, j: int, x: u16)
    requires
        0 <= j <= s.len(),
    ensures
        s.insert(j, x).len() == s.len() + 1,
        forall|k: int|
            0 <= k < s.len() + 1 ==> s.insert(j, x)[k] == (if k < j {
                s[k]
            } else if k == j {
                x
            } else {
                s[k - 1]
            }),
{
}

proof fn lemma_to_set_insert(s: Seq<u16>, j: int, x: u16)
    requires
        0 <= j <= s.len(),
    ensures
        (s.insert(j, x)).to_set() == s.to_set().insert(x),
{
    lemma_insert_index(s, j, x);
    let t = s.insert(j, x);
    assert forall|y: u16| t.to_set().contains(y) implies s.to_set().insert(x).contains(y) by {
        let i = choose|i: int| 0 <= i < t.len() && t[i] == y;
        if i < j {
            assert(s[i] == y);
        } else if i > j {
            assert(s[i - 1] == y);
        }
    };
    assert forall|y: u16| s.to_set().insert(x).contains(y) implies t.to_set().contains(y) by {
        if s.to_set().contains(y) {
            let i = choose|i: int| 0 <= i < s.len() && s[i] == y;
            if i < j {
                assert(t[i] == y);
            } else {
                assert(t[i + 1] == y);
            }
        } else {
            assert(t[j] == x);
        }
    };
    assert(t.to_set() =~= s.to_set().insert(x));
}

/// In a strictly ascending list, the first element is a lower bound and the
/// last an upper bound for everything the list holds.
pub proof fn lemma_sorted_bounds(s: Seq<u16>)
    requires
        strictly_increasing(s),
        s.len() > 0,
    ensures
        forall|y: u16| s.to_set().contains(y) ==> s[0] <= y && y <= s.last(),
        s.to_set().contains(s[0]),
        s.to_set().contains(s.last()),
        s.to_set().len() == s.len(),
{
    assert forall|y: u16| s.to_set().contains(y) implies s[0] <= y && y <= s.last() by {
        let i = choose|i: int| 0 <= i < s.len() && s[i] == y;
        if i > 0 {
            assert(s[0] < s[i]);
        }
        if i < s.len() - 1 {
            assert(s[i] < s[s.len() - 1]);
        }
    };
    assert(s.to_set().contains(s[0]));
    assert(s.to_set().contains(s.last()));
    assert(s.no_duplicates());
    s.unique_seq_to_set();
}

/// Sorts the identifiers ascending and drops duplicates: the result is the
/// strictly ascending enumeration of exactly the values in `v`.
pub fn sorted_unique(v: &Vec<u16>) -> (r: Vec<u16>)
    ensures
        strictly_increasing(r@),
        r@.to_set() == v@.to_set(),
{
    let mut r: Vec<u16> = Vec::new();
    let mut i: usize = 0;
    proof {
        assert(r@.to_set() =~= v@.subrange(0, 0).to_set());
    }
    while i < v.len()
        invariant
            i <= v.len(),
            strictly_increasing(r@),
            r@.to_set() == v@.subrange(0, i as int).to_set(),
        decreases v.len() - i,
    {
        let x = v[i];
        let ghost prev = r@;
        let mut j: usize = 0;
        while j < r.len() && r[j] < x
            invariant
                j <= r.len(),
                forall|t: int| 0 <= t < j ==> r@[t] < x,
            decreases r.len() - j,
        {
            j = j + 1;
        }
        if j == r.len() {
            r.push(x);
            proof {
                lemma_to_set_push(prev, x);
            }
        } else if r[j] > x {
            r.insert(j, x);
            proof {
                lemma_insert_index(prev, j as int, x);
                lemma_to_set_insert(prev, j as int, x);
                assert(strictly_increasing(r@));
            }
        } else {
            proof {
                assert(prev[j as int] == x);
                assert(r@.to_set().contains(x));
                assert(r@.to_set() =~= r@.to_set().insert(x));
            }
        }
        i = i + 1;
        proof {
            assert(v@.subrange(0, i as int) =~= v@.subrange(0, i - 1).push(v@[i - 1]));
            lemma_to_set_push(v@.subrange(0, i - 1), v@[i - 1]);
        }
    }
    proof {
        assert(v@.subrange(0, i as int) =~= v@);
    }
    r
}

} // verus!
