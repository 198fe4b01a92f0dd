//! Facts about `Seq::filter_map`: reading each entry of a sequence and
//! leaving out those that read as nothing.

use vstd::prelude::*;

verus! {

/// The entries that `f` reads as something.
pub open spec fn reads<A, B>(f: spec_fn(A) -> Option<B>) -> spec_fn(A) -> bool {
    |a: A| f(a) is Some
}

/// What `f` reads an entry as; meaningful where it reads it as something.
pub open spec fn read_as<A, B>(f: spec_fn(A) -> Option<B>) -> spec_fn(A) -> B {
    |a: A| f(a)->0
}

/// Reading one sequence after another is reading both and joining the
/// results.
pub proof fn lemma_filter_map_add<A, B>(a: Seq<A>, b: Seq<A>, f: spec_fn(A) -> Option<B>)
    ensures
        (a + b).filter_map(f) == a.filter_map(f) + b.filter_map(f),
    decreases b.len(),
{
    if b.len() == 0 {
        assert(a + b =~= a);
        assert(a.filter_map(f) + b.filter_map(f) =~= a.filter_map(f));
    } else {
        assert((a + b).drop_last() =~= a + b.drop_last());
        assert((a + b).last() == b.last());
        lemma_filter_map_add(a, b.drop_last(), f);
        let head = a.filter_map(f);
        let tail = b.drop_last().filter_map(f);
        match f(b.last()) {
            Some(x) => {
                assert((head + tail) + seq![x] =~= head + (tail + seq![x]));
            },
            None => {},
        }
    }
}

/// A sequence none of whose entries reads as anything reads as the empty
/// sequence.
pub proof fn lemma_filter_map_none<A, B>(s: Seq<A>, f: spec_fn(A) -> Option<B>)
    requires
        forall|i: int| 0 <= i < s.len() ==> f(#[trigger] s[i]) is None,
    ensures
        s.filter_map(f) == Seq::<B>::empty(),
    decreases s.len(),
{
    if s.len() != 0 {
        assert(f(s[s.len() - 1]) is None);
        assert forall|i: int| 0 <= i < s.drop_last().len() implies f(
            #[trigger] s.drop_last()[i],
        ) is None by {
            assert(s.drop_last()[i] == s[i]);
        }
        lemma_filter_map_none(s.drop_last(), f);
    }
}

/// Reading a sequence keeps exactly the entries that read as something, in
/// their order, each as what it reads as.
pub proof fn lemma_filter_map_keeps_order<A, B>(s: Seq<A>, f: spec_fn(A) -> Option<B>)
    ensures
        s.filter_map(f) == s.filter(reads(f)).map_values(read_as(f)),
    decreases s.len(),
{
    reveal(Seq::filter);
    if s.len() == 0 {
        assert(s.filter(reads(f)).map_values(read_as(f)) =~= Seq::<B>::empty());
    } else {
        lemma_filter_map_keeps_order(s.drop_last(), f);
        let kept = s.drop_last().filter(reads(f));
        match f(s.last()) {
            Some(x) => {
                assert(reads(f)(s.last()));
                assert(read_as(f)(s.last()) == x);
                assert(kept.push(s.last()).map_values(read_as(f)) =~= kept.map_values(read_as(f))
                    + seq![x]);
            },
            None => {
                assert(!reads(f)(s.last()));
            },
        }
    }
}

/// What an entry reads as is among what the sequence reads as.
pub proof fn lemma_filter_map_has<A, B>(s: Seq<A>, f: spec_fn(A) -> Option<B>, i: int)
    requires
        0 <= i < s.len(),
        f(s[i]) is Some,
    ensures
        s.filter_map(f).contains(f(s[i])->0),
    decreases s.len(),
{
    let rest = s.drop_last().filter_map(f);
    if i == s.len() - 1 {
        let all = rest + seq![f(s[i])->0];
        assert(all[all.len() - 1] == f(s[i])->0);
    } else {
        lemma_filter_map_has(s.drop_last(), f, i);
        assert(s.drop_last()[i] == s[i]);
        let j = choose|j: int| 0 <= j < rest.len() && rest[j] == f(s[i])->0;
        match f(s.last()) {
            Some(x) => {
                assert((rest + seq![x])[j] == f(s[i])->0);
            },
            None => {},
        }
    }
}

} // verus!
