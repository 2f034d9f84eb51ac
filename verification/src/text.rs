//! Text as sequences of characters.
//!
//! Every rule of this library that looks inside a name (a prefix test, the
//! replacement of a separator, the ordering of two names) is stated over
//! `Seq<char>`, the view of `str` and `String`. The functions here move
//! between strings and vectors of characters and define the ordering.

use vstd::multiset::Multiset;
use vstd::prelude::*;

verus! {

/// `String::push` appends one character to the end of the string.
pub assume_specification[ String::push ](s: &mut String, c: char)
    ensures
        final(s)@ == old(s)@.push(c),
;

/// The characters of `s`, in order.
pub fn chars_of(s: &str) -> (out: Vec<char>)
    ensures
        out@ == s@,
{
    let mut out: Vec<char> = Vec::new();
    for c in it: s.chars()
        invariant
            it.seq() == s@,
            out@ == it.seq().take(it.index() as int),
    {
        out.push(c);
    }
    out
}

/// Appends the characters `v[from..]` to `out`.
pub(crate) fn push_chars(out: &mut String, v: &Vec<char>, from: usize)
    requires
        from <= v.len(),
    ensures
        final(out)@ == old(out)@ + v@.skip(from as int),
{
    let mut i: usize = from;
    while i < v.len()
        invariant
            from <= i <= v.len(),
            out@ == old(out)@ + v@.subrange(from as int, i as int),
        decreases v.len() - i,
    {
        out.push(v[i]);
        i += 1;
    }
}

/// The string whose characters are `v`.
pub fn string_of(v: &Vec<char>) -> (out: String)
    ensures
        out@ == v@,
{
    let mut out = String::new();
    push_chars(&mut out, v, 0);
    out
}

/// Whether `a` and `b` hold the same characters.
pub fn same_text(a: &str, b: &str) -> (r: bool)
    ensures
        r == (a@ == b@),
{
    let x = chars_of(a);
    let y = chars_of(b);
    if x.len() != y.len() {
        return false;
    }
    let mut i: usize = 0;
    while i < x.len()
        invariant
            x.len() == y.len(),
            x@ == a@,
            y@ == b@,
            i <= x.len(),
            x@.take(i as int) == y@.take(i as int),
        decreases x.len() - i,
    {
        if x[i] != y[i] {
            assert(a@[i as int] != b@[i as int]);
            return false;
        }
        assert(x@.take(i + 1) == x@.take(i as int).push(x@[i as int]));
        assert(y@.take(i + 1) == y@.take(i as int).push(y@[i as int]));
        i += 1;
    }
    assert(x@ == x@.take(x.len() as int));
    assert(y@ == y@.take(y.len() as int));
    true
}

/// Whether `v` begins with `prefix`.
pub fn starts_with_chars(v: &Vec<char>, prefix: &Vec<char>) -> (r: bool)
    ensures
        r == prefix@.is_prefix_of(v@),
{
    if prefix.len() > v.len() {
        return false;
    }
    let mut i: usize = 0;
    while i < prefix.len()
        invariant
            prefix.len() <= v.len(),
            i <= prefix.len(),
            forall|k: int| 0 <= k < i ==> v@[k] == prefix@[k],
        decreases prefix.len() - i,
    {
        if v[i] != prefix[i] {
            assert(v@.subrange(0, prefix@.len() as int)[i as int] != prefix@[i as int]);
            return false;
        }
        i += 1;
    }
    assert(v@.subrange(0, prefix@.len() as int) == prefix@);
    true
}

/// The dictionary order on texts, characters compared by code point: the
/// first position at which two texts differ decides, and a text comes before
/// every proper extension of itself.
pub open spec fn lex_le(a: Seq<char>, b: Seq<char>) -> bool
    decreases a.len(),
{
    if a.len() == 0 {
        true
    } else if b.len() == 0 {
        false
    } else if a[0] != b[0] {
        a[0] < b[0]
    } else {
        lex_le(a.skip(1), b.skip(1))
    }
}

/// Any two texts are comparable.
pub proof fn lex_le_total(a: Seq<char>, b: Seq<char>)
    ensures
        lex_le(a, b) || lex_le(b, a),
    decreases a.len(),
{
    if a.len() > 0 && b.len() > 0 {
        if a[0] == b[0] {
            lex_le_total(a.skip(1), b.skip(1));
        }
    }
}

/// The order is transitive.
pub proof fn lex_le_transitive(a: Seq<char>, b: Seq<char>, c: Seq<char>)
    requires
        lex_le(a, b),
        lex_le(b, c),
    ensures
        lex_le(a, c),
    decreases a.len(),
{
    if a.len() > 0 && b.len() > 0 && c.len() > 0 && a[0] == b[0] && b[0] == c[0] {
        lex_le_transitive(a.skip(1), b.skip(1), c.skip(1));
    }
}

/// Two texts that come before each other are the same text.
pub proof fn lex_le_antisymmetric(a: Seq<char>, b: Seq<char>)
    requires
        lex_le(a, b),
        lex_le(b, a),
    ensures
        a == b,
    decreases a.len(),
{
    if a.len() == 0 || b.len() == 0 {
        assert(a =~= b);
    } else {
        lex_le_antisymmetric(a.skip(1), b.skip(1));
        assert(a =~= seq![a[0]] + a.skip(1));
        assert(b =~= seq![b[0]] + b.skip(1));
    }
}

/// Decides the dictionary order.
pub fn le_chars(a: &Vec<char>, b: &Vec<char>) -> (r: bool)
    ensures
        r == lex_le(a@, b@),
{
    let mut i: usize = 0;
    assert(a@.skip(0) == a@ && b@.skip(0) == b@);
    while i < a.len() && i < b.len()
        invariant
            i <= a.len(),
            i <= b.len(),
            lex_le(a@, b@) == lex_le(a@.skip(i as int), b@.skip(i as int)),
        decreases a.len() - i,
    {
        if a[i] != b[i] {
            return a[i] < b[i];
        }
        assert(a@.skip(i as int).skip(1) == a@.skip(i + 1));
        assert(b@.skip(i as int).skip(1) == b@.skip(i + 1));
        i += 1;
    }
    i == a.len()
}

/// The texts held by a vector of character vectors.
pub open spec fn rows(v: Seq<Vec<char>>) -> Seq<Seq<char>> {
    Seq::new(v.len(), |i: int| v[i]@)
}

/// The texts held by a vector of strings.
pub open spec fn texts(v: Seq<String>) -> Seq<Seq<char>> {
    Seq::new(v.len(), |i: int| v[i]@)
}

/// Each text comes before every text after it.
pub open spec fn ascending(s: Seq<Seq<char>>) -> bool {
    forall|i: int, j: int| 0 <= i < j < s.len() ==> lex_le(s[i], s[j])
}

/// Every text comes before itself.
pub proof fn lex_le_reflexive(a: Seq<char>)
    ensures
        lex_le(a, a),
    decreases a.len(),
{
    if a.len() > 0 {
        lex_le_reflexive(a.skip(1));
    }
}

/// There is only one way to put given texts into dictionary order: two
/// ascending sequences that hold the same texts, each as often as the other,
/// are the same sequence.
pub proof fn ascending_is_unique(x: Seq<Seq<char>>, y: Seq<Seq<char>>)
    requires
        ascending(x),
        ascending(y),
        x.to_multiset() == y.to_multiset(),
    ensures
        x == y,
{
    let leq = |a: Seq<char>, b: Seq<char>| lex_le(a, b);
    assert(vstd::relations::total_ordering(leq)) by {
        assert forall|a: Seq<char>| #[trigger] leq(a, a) by {
            lex_le_reflexive(a);
        }
        assert forall|a: Seq<char>, b: Seq<char>| #[trigger] leq(a, b) && #[trigger] leq(
            b,
            a,
        ) implies a == b by {
            lex_le_antisymmetric(a, b);
        }
        assert forall|a: Seq<char>, b: Seq<char>, c: Seq<char>| #[trigger] leq(a, b)
            && #[trigger] leq(b, c) implies leq(a, c) by {
            lex_le_transitive(a, b, c);
        }
        assert forall|a: Seq<char>, b: Seq<char>| #[trigger] leq(a, b) || #[trigger] leq(b, a) by {
            lex_le_total(a, b);
        }
    }
    assert(vstd::relations::sorted_by(x, leq));
    assert(vstd::relations::sorted_by(y, leq));
    vstd::seq_lib::lemma_sorted_unique(x, y, leq);
}

/// Puts `x` into the ascending vector `v`, after every text that does not come
/// after it.
pub(crate) fn insert_ascending(v: &mut Vec<Vec<char>>, x: Vec<char>)
    requires
        ascending(rows(old(v)@)),
    ensures
        ascending(rows(final(v)@)),
        rows(final(v)@).to_multiset() == rows(old(v)@).to_multiset().insert(x@),
        final(v)@.len() == old(v)@.len() + 1,
{
    let ghost before = rows(v@);
    let mut i: usize = 0;
    while i < v.len() && le_chars(&v[i], &x)
        invariant
            i <= v.len(),
            v@ == old(v)@,
            forall|k: int| 0 <= k < i ==> lex_le(#[trigger] v@[k]@, x@),
        decreases v.len() - i,
    {
        i += 1;
    }
    proof {
        assert forall|k: int| i <= k < v.len() implies lex_le(x@, #[trigger] v@[k]@) by {
            lex_le_total(v@[i as int]@, x@);
            if k > i {
                assert(lex_le(before[i as int], before[k]));
                lex_le_transitive(x@, v@[i as int]@, v@[k]@);
            }
        }
        vstd::seq_lib::to_multiset_insert(before, i as int, x@);
    }
    let ghost x_text = x@;
    v.insert(i, x);
    proof {
        let after = rows(v@);
        assert(after =~= before.insert(i as int, x_text));
        assert forall|p: int, q: int| 0 <= p < q < after.len() implies lex_le(
            after[p],
            after[q],
        ) by {
            if q < i {
                assert(lex_le(before[p], before[q]));
            } else if q == i {
            } else if p < i {
                assert(lex_le(before[p], before[q - 1]));
            } else if p == i {
            } else {
                assert(lex_le(before[p - 1], before[q - 1]));
            }
        }
    }
}

/// Sorts texts into dictionary order.
pub fn sort_rows(v: Vec<Vec<char>>) -> (out: Vec<Vec<char>>)
    ensures
        ascending(rows(out@)),
        rows(out@).to_multiset() == rows(v@).to_multiset(),
        out@.len() == v@.len(),
{
    let mut out: Vec<Vec<char>> = Vec::new();
    let mut rest = v;
    let ghost all = rows(v@);
    proof {
        assert(rows(out@) =~= Seq::<Seq<char>>::empty());
        assert(rows(out@).to_multiset() =~= Multiset::<Seq<char>>::empty()) by {
            broadcast use vstd::seq_lib::group_to_multiset_ensures;
        }
    }
    while rest.len() > 0
        invariant
            ascending(rows(out@)),
            rows(out@).to_multiset().add(rows(rest@).to_multiset()) == all.to_multiset(),
            out@.len() + rest@.len() == all.len(),
        decreases rest.len(),
    {
        let ghost rest_before = rows(rest@);
        let x = rest.pop().unwrap();
        proof {
            assert(rows(rest@) =~= rest_before.drop_last());
            assert(rest_before =~= rows(rest@).push(x@));
            vstd::seq_lib::to_multiset_build(rows(rest@), x@);
        }
        insert_ascending(&mut out, x);
        assert(rows(out@).to_multiset().add(rows(rest@).to_multiset()) =~= all.to_multiset());
    }
    proof {
        assert(rows(rest@) =~= Seq::<Seq<char>>::empty());
        assert(rows(rest@).to_multiset() =~= Multiset::<Seq<char>>::empty()) by {
            broadcast use vstd::seq_lib::group_to_multiset_ensures;
        }
        assert(rows(out@).to_multiset() =~= all.to_multiset());
    }
    out
}

} // verus!
