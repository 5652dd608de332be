//! The non-blank lines of a text, and comparison of line lists.

use vstd::prelude::*;

use crate::text::{chars_of, trim, trimmed};

verus! {

/// The pieces of `s` between newline characters, in order; a text with no
/// newline is one piece.
pub open spec fn split_on_newlines(s: Seq<char>) -> Seq<Seq<char>>
    decreases s.len(),
{
    if s.len() == 0 {
        seq![Seq::<char>::empty()]
    } else {
        let prev = split_on_newlines(s.drop_last());
        if s.last() == '\n' {
            prev.push(Seq::<char>::empty())
        } else {
            prev.update(prev.len() - 1, prev.last().push(s.last()))
        }
    }
}

/// The trimmed pieces that are not empty, in order.
pub open spec fn nonblank(pieces: Seq<Seq<char>>) -> Seq<Seq<char>>
    decreases pieces.len(),
{
    if pieces.len() == 0 {
        Seq::empty()
    } else {
        let rest = nonblank(pieces.drop_last());
        let t = trimmed(pieces.last());
        if t.len() > 0 {
            rest.push(t)
        } else {
            rest
        }
    }
}

/// What `text.lines().map(str::trim).filter(|l| !l.is_empty())` yields.
pub open spec fn nonblank_lines(s: Seq<char>) -> Seq<Seq<char>> {
    nonblank(split_on_newlines(s))
}

proof fn lemma_split_nonempty(s: Seq<char>)
    ensures
        split_on_newlines(s).len() >= 1,
    decreases s.len(),
{
    if s.len() > 0 {
        lemma_split_nonempty(s.drop_last());
    }
}

proof fn lemma_nonblank_push(pieces: Seq<Seq<char>>, p: Seq<char>)
    ensures
        nonblank(pieces.push(p)) == if trimmed(p).len() > 0 {
            nonblank(pieces).push(trimmed(p))
        } else {
            nonblank(pieces)
        },
{
    assert(pieces.push(p).drop_last() =~= pieces);
}

/// The views of a list of strings.
pub open spec fn views(v: Seq<String>) -> Seq<Seq<char>> {
    v.map_values(|s: String| s@)
}

/// The items joined with `sep` between each two.
pub open spec fn joined(items: Seq<Seq<char>>, sep: Seq<char>) -> Seq<char>
    decreases items.len(),
{
    if items.len() == 0 {
        Seq::empty()
    } else if items.len() == 1 {
        items[0]
    } else {
        joined(items.drop_last(), sep) + sep + items.last()
    }
}

/// The items joined with `sep` between each two.
pub fn join_with(items: &Vec<String>, sep: &str) -> (s: String)
    ensures
        s@ == joined(views(items@), sep@),
{
    let mut s = String::new();
    let mut i: usize = 0;
    while i < items.len()
        invariant
            i <= items@.len(),
            s@ == joined(views(items@).take(i as int), sep@),
        decreases items@.len() - i,
    {
        assert(views(items@).take(i + 1).drop_last() =~= views(items@).take(i as int));
        if i > 0 {
            s.append(sep);
        }
        s.append(items[i].as_str());
        proof {
            if i == 0 {
                assert(s@ =~= joined(views(items@).take(1), sep@));
            }
        }
        i = i + 1;
    }
    assert(views(items@).take(items@.len() as int) =~= views(items@));
    s
}

/// The trimmed, non-blank lines of `text`, in order.
pub fn nonblank_lines_of(text: &str) -> (lines: Vec<String>)
    ensures
        views(lines@) == nonblank_lines(text@),
{
    let v = chars_of(text);
    let n = v.len();
    let mut lines: Vec<String> = Vec::new();
    let mut start: usize = 0;
    let mut i: usize = 0;
    let ghost mut done: Seq<Seq<char>> = Seq::empty();
    assert(text@.take(0) =~= Seq::<char>::empty());
    while i < n
        invariant
            v@ == text@,
            n == v@.len(),
            start <= i <= n,
            split_on_newlines(text@.take(i as int)) == done.push(text@.subrange(start as int, i as int)),
            views(lines@) == nonblank(done),
        decreases n - i,
    {
        let ghost prefix = text@.take(i as int);
        let ghost next = text@.take(i + 1);
        assert(next.drop_last() =~= prefix);
        assert(next.last() == v@[i as int]);
        proof {
            lemma_split_nonempty(prefix);
        }
        if v[i] == '\n' {
            let piece = text.substring_char(start, i);
            let t = trim(piece);
            proof {
                lemma_nonblank_push(done, piece@);
            }
            if t.unicode_len() > 0 {
                lines.push(t.to_owned());
                assert(views(lines@) =~= nonblank(done).push(t@));
            }
            proof {
                done = done.push(piece@);
                assert(text@.subrange((i + 1) as int, (i + 1) as int) =~= Seq::<char>::empty());
            }
            start = i + 1;
        } else {
            proof {
                assert(text@.subrange(start as int, i as int).push(v@[i as int]) =~= text@.subrange(
                    start as int,
                    i + 1,
                ));
                assert(done.push(text@.subrange(start as int, i as int)).update(
                    done.len() as int,
                    text@.subrange(start as int, i + 1),
                ) =~= done.push(text@.subrange(start as int, i + 1)));
            }
        }
        i = i + 1;
    }
    let piece = text.substring_char(start, n);
    let t = trim(piece);
    proof {
        lemma_nonblank_push(done, piece@);
        assert(text@.take(n as int) =~= text@);
    }
    if t.unicode_len() > 0 {
        lines.push(t.to_owned());
        assert(views(lines@) =~= nonblank(done).push(t@));
    }
    lines
}

/// True when the two lists hold the same strings in the same order.
pub fn same_lines(a: &Vec<String>, b: &Vec<String>) -> (r: bool)
    ensures
        r == (views(a@) == views(b@)),
{
    if a.len() != b.len() {
        assert(views(a@).len() != views(b@).len());
        return false;
    }
    let mut i: usize = 0;
    while i < a.len()
        invariant
            a.len() == b.len(),
            i <= a.len(),
            forall|k: int| 0 <= k < i ==> a@[k]@ == b@[k]@,
        decreases a.len() - i,
    {
        if a[i] != b[i] {
            assert(views(a@)[i as int] != views(b@)[i as int]);
            return false;
        }
        i = i + 1;
    }
    assert(views(a@) =~= views(b@));
    true
}

/// How often `x` occurs in `s`.
pub open spec fn occurrences(s: Seq<Seq<char>>, x: Seq<char>) -> nat
    decreases s.len(),
{
    if s.len() == 0 {
        0
    } else {
        occurrences(s.drop_last(), x) + if s.last() == x {
            1nat
        } else {
            0nat
        }
    }
}

proof fn lemma_occurrences_multiset(s: Seq<Seq<char>>, x: Seq<char>)
    ensures
        occurrences(s, x) == s.to_multiset().count(x),
    decreases s.len(),
{
    broadcast use vstd::seq_lib::group_to_multiset_ensures;

    if s.len() > 0 {
        lemma_occurrences_multiset(s.drop_last(), x);
        assert(s.drop_last().push(s.last()) =~= s);
    }
}

proof fn lemma_occurrences_contains(s: Seq<Seq<char>>, x: Seq<char>)
    ensures
        occurrences(s, x) > 0 <==> s.contains(x),
    decreases s.len(),
{
    if s.len() > 0 {
        lemma_occurrences_contains(s.drop_last(), x);
        if s.last() == x {
            assert(s[s.len() - 1] == x);
        }
        if s.drop_last().contains(x) {
            let i = choose|i: int| 0 <= i < s.drop_last().len() && s.drop_last()[i] == x;
            assert(s[i] == x);
        }
        if s.contains(x) && s.last() != x {
            let i = choose|i: int| 0 <= i < s.len() && s[i] == x;
            assert(s.drop_last()[i] == x);
        }
    }
}

/// How often a string with the characters of `x` occurs in the list.
fn count_in(list: &Vec<String>, x: &String) -> (n: usize)
    ensures
        n == occurrences(views(list@), x@),
{
    let mut n: usize = 0;
    let mut i: usize = 0;
    while i < list.len()
        invariant
            i <= list@.len(),
            n <= i,
            n == occurrences(views(list@).take(i as int), x@),
        decreases list@.len() - i,
    {
        assert(views(list@).take(i + 1).drop_last() =~= views(list@).take(i as int));
        if list[i] == *x {
            n = n + 1;
        }
        i = i + 1;
    }
    assert(views(list@).take(list@.len() as int) =~= views(list@));
    n
}

/// True when the two lists hold the same strings, each as often, in any
/// order.
pub fn same_lines_in_any_order(a: &Vec<String>, b: &Vec<String>) -> (r: bool)
    ensures
        r == (views(a@).to_multiset() == views(b@).to_multiset()),
{
    let ghost va = views(a@);
    let ghost vb = views(b@);
    let mut i: usize = 0;
    while i < a.len()
        invariant
            va == views(a@),
            vb == views(b@),
            i <= a@.len(),
            forall|k: int| 0 <= k < i ==> occurrences(va, #[trigger] va[k]) == occurrences(vb, va[k]),
        decreases a@.len() - i,
    {
        if count_in(a, &a[i]) != count_in(b, &a[i]) {
            proof {
                lemma_occurrences_multiset(va, va[i as int]);
                lemma_occurrences_multiset(vb, va[i as int]);
            }
            return false;
        }
        i = i + 1;
    }
    let mut j: usize = 0;
    while j < b.len()
        invariant
            va == views(a@),
            vb == views(b@),
            j <= b@.len(),
            forall|k: int| 0 <= k < a@.len() ==> occurrences(va, #[trigger] va[k]) == occurrences(vb, va[k]),
            forall|k: int| 0 <= k < j ==> occurrences(va, #[trigger] vb[k]) == occurrences(vb, vb[k]),
        decreases b@.len() - j,
    {
        if count_in(a, &b[j]) != count_in(b, &b[j]) {
            proof {
                lemma_occurrences_multiset(va, vb[j as int]);
                lemma_occurrences_multiset(vb, vb[j as int]);
            }
            return false;
        }
        j = j + 1;
    }
    proof {
        assert forall|x: Seq<char>| va.to_multiset().count(x) == vb.to_multiset().count(x) by {
            lemma_occurrences_multiset(va, x);
            lemma_occurrences_multiset(vb, x);
            lemma_occurrences_contains(va, x);
            lemma_occurrences_contains(vb, x);
            if va.contains(x) {
                let k = choose|k: int| 0 <= k < va.len() && va[k] == x;
                assert(occurrences(va, va[k]) == occurrences(vb, va[k]));
            } else if vb.contains(x) {
                let k = choose|k: int| 0 <= k < vb.len() && vb[k] == x;
                assert(occurrences(va, vb[k]) == occurrences(vb, vb[k]));
            }
        }
        assert(va.to_multiset() =~= vb.to_multiset());
    }
    true
}

} // verus!
