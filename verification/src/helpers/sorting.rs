//! The order of texts, character by character, and sorting by it.
use vstd::prelude::*;
use vstd::relations::{sorted_by, total_ordering};
use vstd::seq_lib::{lemma_sorted_unique, to_multiset_build, to_multiset_insert};
use super::text::{slice_chars, views};

verus! {

/// `a` stands before `b` or is `b`, in the order of dictionaries: the
/// first character in which they differ decides, by its code, and a text
/// stands before those that it begins.
pub open spec fn lex_le(a: Seq<char>, b: Seq<char>) -> bool
    decreases a.len(),
{
    if a.len() == 0 {
        true
    } else if b.len() == 0 {
        false
    } else if a[0] != b[0] {
        a[0] < b[0]
    } else {
        lex_le(a.drop_first(), b.drop_first())
    }
}

/// The order of texts as a relation.
pub open spec fn by_text() -> spec_fn(Seq<char>, Seq<char>) -> bool {
    |a: Seq<char>, b: Seq<char>| lex_le(a, b)
}

/// The list without the elements that repeat the one before them.
pub open spec fn deduped(s: Seq<Seq<char>>) -> Seq<Seq<char>>
    decreases s.len(),
{
    if s.len() <= 1 {
        s
    } else if s[s.len() - 1] == s[s.len() - 2] {
        deduped(s.drop_last())
    } else {
        deduped(s.drop_last()).push(s.last())
    }
}

proof fn lemma_lex_refl(a: Seq<char>)
    ensures
        lex_le(a, a),
    decreases a.len(),
{
    if a.len() > 0 {
        lemma_lex_refl(a.drop_first());
    }
}

proof fn lemma_lex_total(a: Seq<char>, b: Seq<char>)
    ensures
        lex_le(a, b) || lex_le(b, a),
    decreases a.len(),
{
    if a.len() > 0 && b.len() > 0 {
        if a[0] == b[0] {
            lemma_lex_total(a.drop_first(), b.drop_first());
        }
    }
}

proof fn lemma_lex_antisym(a: Seq<char>, b: Seq<char>)
    requires
        lex_le(a, b),
        lex_le(b, a),
    ensures
        a == b,
    decreases a.len(),
{
    if a.len() == 0 {
        assert(b.len() == 0);
        assert(a =~= b);
    } else {
        assert(b.len() > 0);
        assert(a[0] == b[0]);
        lemma_lex_antisym(a.drop_first(), b.drop_first());
        assert(a =~= seq![a[0]] + a.drop_first());
        assert(b =~= seq![b[0]] + b.drop_first());
    }
}

proof fn lemma_lex_trans(a: Seq<char>, b: Seq<char>, c: Seq<char>)
    requires
        lex_le(a, b),
        lex_le(b, c),
    ensures
        lex_le(a, c),
    decreases a.len(),
{
    if a.len() > 0 {
        assert(b.len() > 0);
        assert(c.len() > 0);
        if a[0] == b[0] && b[0] == c[0] {
            lemma_lex_trans(a.drop_first(), b.drop_first(), c.drop_first());
        }
    }
}

/// The order of texts is a total order: two lists sorted by it with the
/// same elements are the same list.
pub proof fn lemma_by_text_total_ordering()
    ensures
        total_ordering(by_text()),
{
    assert forall|x: Seq<char>| #[trigger] by_text()(x, x) by {
        lemma_lex_refl(x);
    }
    assert forall|x: Seq<char>, y: Seq<char>| #[trigger]
        by_text()(x, y) && #[trigger] by_text()(y, x) implies x == y by {
        lemma_lex_antisym(x, y);
    }
    assert forall|x: Seq<char>, y: Seq<char>, z: Seq<char>| #[trigger]
        by_text()(x, y) && #[trigger] by_text()(y, z) implies by_text()(x, z) by {
        lemma_lex_trans(x, y, z);
    }
    assert forall|x: Seq<char>, y: Seq<char>| #[trigger]
        by_text()(x, y) || #[trigger] by_text()(y, x) by {
        lemma_lex_total(x, y);
    }
}

/// Whether `a` stands before `b` or is `b`.
pub fn text_le(a: &Vec<char>, b: &Vec<char>) -> (r: bool)
    ensures
        r == lex_le(a@, b@),
{
    let mut k: usize = 0;
    assert(a@.skip(0) =~= a@ && b@.skip(0) =~= b@);
    loop
        invariant
            k <= a.len(),
            k <= b.len(),
            lex_le(a@, b@) == lex_le(a@.skip(k as int), b@.skip(k as int)),
        decreases a.len() - k,
    {
        if k == a.len() {
            return true;
        }
        if k == b.len() {
            return false;
        }
        assert(a@.skip(k as int)[0] == a@[k as int]);
        assert(b@.skip(k as int)[0] == b@[k as int]);
        if a[k] != b[k] {
            return a[k] < b[k];
        }
        assert(a@.skip(k as int).drop_first() =~= a@.skip(k + 1));
        assert(b@.skip(k as int).drop_first() =~= b@.skip(k + 1));
        k = k + 1;
    }
}

/// The texts of `list` in order.
pub fn sort_texts(list: &Vec<Vec<char>>) -> (r: Vec<Vec<char>>)
    ensures
        views(r@) == views(list@).sort_by(by_text()),
{
    let mut r: Vec<Vec<char>> = Vec::new();
    let mut i: usize = 0;
    assert(views(list@).take(0) =~= Seq::<Seq<char>>::empty());
    assert(views(r@) =~= Seq::<Seq<char>>::empty());
    while i < list.len()
        invariant
            i <= list.len(),
            sorted_by(views(r@), by_text()),
            views(r@).to_multiset() == views(list@).take(i as int).to_multiset(),
        decreases list.len() - i,
    {
        let x = slice_chars(&list[i], 0, list[i].len());
        assert(x@ =~= list@[i as int]@);
        let mut k: usize = 0;
        while k < r.len() && text_le(&r[k], &x)
            invariant
                k <= r.len(),
                forall|j: int| 0 <= j < k ==> lex_le(#[trigger] views(r@)[j], x@),
            decreases r.len() - k,
        {
            k = k + 1;
        }
        let ghost before = views(r@);
        proof {
            assert forall|j: int| k <= j < before.len() implies lex_le(
                x@,
                #[trigger] before[j],
            ) by {
                lemma_lex_total(before[k as int], x@);
                if j > k {
                    assert(by_text()(before[k as int], before[j]));
                    lemma_lex_trans(x@, before[k as int], before[j]);
                }
            }
        }
        r.insert(k, x);
        proof {
            let after = views(r@);
            assert(after =~= before.insert(k as int, x@));
            assert forall|p: int, q: int| 0 <= p < q < after.len() implies #[trigger] by_text()(
                after[p],
                after[q],
            ) by {
                if q < k {
                    assert(by_text()(before[p], before[q]));
                } else if q == k {
                    assert(lex_le(before[p], x@));
                } else if p < k {
                    assert(by_text()(before[p], before[q - 1]));
                } else if p == k {
                    assert(lex_le(x@, before[q - 1]));
                } else {
                    assert(by_text()(before[p - 1], before[q - 1]));
                }
            }
            to_multiset_insert(before, k as int, x@);
            to_multiset_build(views(list@).take(i as int), x@);
            assert(views(list@).take(i + 1) =~= views(list@).take(i as int).push(x@));
        }
        i = i + 1;
    }
    proof {
        assert(views(list@).take(list.len() as int) =~= views(list@));
        lemma_by_text_total_ordering();
        views(list@).lemma_sort_by_ensures(by_text());
        lemma_sorted_unique(views(r@), views(list@).sort_by(by_text()), by_text());
    }
    r
}

/// The list without the texts that repeat the one before them.
pub fn dedup_texts(list: &Vec<Vec<char>>) -> (r: Vec<Vec<char>>)
    ensures
        views(r@) == deduped(views(list@)),
{
    let mut r: Vec<Vec<char>> = Vec::new();
    let mut i: usize = 0;
    assert(views(list@).take(0) =~= Seq::<Seq<char>>::empty());
    assert(views(r@) =~= Seq::<Seq<char>>::empty());
    while i < list.len()
        invariant
            i <= list.len(),
            views(r@) == deduped(views(list@).take(i as int)),
        decreases list.len() - i,
    {
        let ghost head = views(list@).take(i + 1);
        assert(head.drop_last() =~= views(list@).take(i as int));
        assert(head.last() == list@[i as int]@);
        let repeats = i > 0 && super::text::same_chars(&list[i], &list[i - 1]);
        if i > 0 {
            assert(head[head.len() - 2] == list@[i - 1]@);
        }
        if !repeats {
            let ghost before = views(r@);
            let ghost text = list@[i as int]@;
            r.push(slice_chars(&list[i], 0, list[i].len()));
            assert(text.subrange(0, text.len() as int) =~= text);
            assert(views(r@) =~= before.push(list@[i as int]@));
        }
        i = i + 1;
    }
    assert(views(list@).take(list.len() as int) =~= views(list@));
    r
}

} // verus!
