//! Facts about keeping the elements of a sequence that meet a condition,
//! and about keeping each element once.

use vstd::prelude::*;

verus! {

/// Keeping elements of the empty sequence leaves it empty.
pub proof fn lemma_filter_empty<A>(pred: spec_fn(A) -> bool)
    ensures
        Seq::<A>::empty().filter(pred) == Seq::<A>::empty(),
{
    reveal(Seq::filter);
}

/// A sequence with at least one element is what is left without its last
/// element, with that element added again.
proof fn lemma_split_last<A>(s: Seq<A>)
    requires
        s.len() > 0,
    ensures
        s == s.drop_last().push(s.last()),
{
    assert(s =~= s.drop_last().push(s.last()));
}

/// An element is kept exactly where it is in the sequence and meets the
/// condition.
pub proof fn lemma_filter_member<A>(s: Seq<A>, pred: spec_fn(A) -> bool, x: A)
    ensures
        s.filter(pred).contains(x) <==> s.contains(x) && pred(x),
    decreases s.len(),
{
    if s.len() == 0 {
        lemma_filter_empty(pred);
        assert(s =~= Seq::<A>::empty());
    } else {
        let rest = s.drop_last();
        let last = s.last();
        lemma_split_last(s);
        rest.lemma_filter_push(last, pred);
        lemma_filter_member(rest, pred, x);
        let kept = rest.filter(pred);
        if s.contains(x) && pred(x) {
            let i = choose|i: int| 0 <= i < s.len() && s[i] == x;
            if i == s.len() - 1 {
                assert(kept.push(last)[kept.len() as int] == x);
            } else {
                assert(rest[i] == x);
                assert(kept.contains(x));
                let j = choose|j: int| 0 <= j < kept.len() && kept[j] == x;
                if pred(last) {
                    assert(kept.push(last)[j] == x);
                }
            }
        }
        if s.filter(pred).contains(x) {
            let j = choose|j: int| 0 <= j < s.filter(pred).len() && s.filter(pred)[j] == x;
            if pred(last) && j == kept.len() {
                assert(x == last);
                assert(s[s.len() - 1] == x);
            } else {
                assert(kept[j] == x);
                assert(kept.contains(x));
                let i = choose|i: int| 0 <= i < rest.len() && rest[i] == x;
                assert(s[i] == x);
            }
        }
    }
}

/// Where every element meets the condition, all are kept.
pub proof fn lemma_filter_all<A>(s: Seq<A>, pred: spec_fn(A) -> bool)
    requires
        forall|i: int| 0 <= i < s.len() ==> pred(#[trigger] s[i]),
    ensures
        s.filter(pred) == s,
    decreases s.len(),
{
    if s.len() == 0 {
        lemma_filter_empty(pred);
        assert(s =~= Seq::<A>::empty());
    } else {
        let rest = s.drop_last();
        lemma_split_last(s);
        rest.lemma_filter_push(s.last(), pred);
        assert forall|i: int| 0 <= i < rest.len() implies pred(#[trigger] rest[i]) by {
            assert(rest[i] == s[i]);
        }
        lemma_filter_all(rest, pred);
        assert(pred(s[s.len() - 1]));
    }
}

/// Where no element meets the condition, none is kept.
pub proof fn lemma_filter_none<A>(s: Seq<A>, pred: spec_fn(A) -> bool)
    requires
        forall|i: int| 0 <= i < s.len() ==> !pred(#[trigger] s[i]),
    ensures
        s.filter(pred) == Seq::<A>::empty(),
    decreases s.len(),
{
    if s.len() == 0 {
        lemma_filter_empty(pred);
        assert(s =~= Seq::<A>::empty());
    } else {
        let rest = s.drop_last();
        lemma_split_last(s);
        rest.lemma_filter_push(s.last(), pred);
        assert forall|i: int| 0 <= i < rest.len() implies !pred(#[trigger] rest[i]) by {
            assert(rest[i] == s[i]);
        }
        lemma_filter_none(rest, pred);
        assert(!pred(s[s.len() - 1]));
    }
}

/// Where the element at place `k` meets the condition and no element at
/// another place does, it alone is kept.
pub proof fn lemma_filter_one<A>(s: Seq<A>, pred: spec_fn(A) -> bool, k: int)
    requires
        0 <= k < s.len(),
        pred(s[k]),
        forall|i: int| 0 <= i < s.len() && i != k ==> !pred(#[trigger] s[i]),
    ensures
        s.filter(pred) == seq![s[k]],
    decreases s.len(),
{
    let rest = s.drop_last();
    lemma_split_last(s);
    rest.lemma_filter_push(s.last(), pred);
    if k == s.len() - 1 {
        assert forall|i: int| 0 <= i < rest.len() implies !pred(#[trigger] rest[i]) by {
            assert(rest[i] == s[i]);
        }
        lemma_filter_none(rest, pred);
        assert(Seq::<A>::empty().push(s[k]) =~= seq![s[k]]);
    } else {
        assert forall|i: int| 0 <= i < rest.len() && i != k implies !pred(#[trigger] rest[i]) by {
            assert(rest[i] == s[i]);
        }
        assert(rest[k] == s[k]);
        lemma_filter_one(rest, pred, k);
        assert(!pred(s[s.len() - 1]));
    }
}

/// Where no element occurs twice, none occurs twice among those kept.
pub proof fn lemma_filter_no_duplicates<A>(s: Seq<A>, pred: spec_fn(A) -> bool)
    requires
        s.no_duplicates(),
    ensures
        s.filter(pred).no_duplicates(),
    decreases s.len(),
{
    if s.len() == 0 {
        lemma_filter_empty(pred);
        assert(s =~= Seq::<A>::empty());
    } else {
        let rest = s.drop_last();
        let last = s.last();
        lemma_split_last(s);
        rest.lemma_filter_push(last, pred);
        assert forall|i: int, j: int| 0 <= i < rest.len() && 0 <= j < rest.len() && i != j implies rest[i]
            != rest[j] by {
            assert(rest[i] == s[i] && rest[j] == s[j]);
        }
        lemma_filter_no_duplicates(rest, pred);
        lemma_filter_member(rest, pred, last);
        let kept = rest.filter(pred);
        if kept.contains(last) {
            let i = choose|i: int| 0 <= i < rest.len() && rest[i] == last;
            assert(s[i] == s[s.len() - 1]);
        }
        if pred(last) {
            assert forall|i: int, j: int|
                0 <= i < kept.push(last).len() && 0 <= j < kept.push(last).len() && i
                    != j implies kept.push(last)[i] != kept.push(last)[j] by {
                if i < kept.len() {
                    assert(kept.contains(kept[i]));
                }
                if j < kept.len() {
                    assert(kept.contains(kept[j]));
                }
            }
        }
    }
}

/// The elements of `s`, each once, in the order in which `s` first holds
/// them.
pub open spec fn distinct<A>(s: Seq<A>) -> Seq<A>
    decreases s.len(),
{
    if s.len() == 0 {
        Seq::empty()
    } else {
        let rest = distinct(s.drop_last());
        if rest.contains(s.last()) {
            rest
        } else {
            rest.push(s.last())
        }
    }
}

/// Keeping each element once keeps every element and no other, none of
/// them twice; it changes nothing where no element occurs twice, and leaves
/// something wherever there was something.
pub proof fn lemma_distinct<A>(s: Seq<A>)
    ensures
        distinct(s).no_duplicates(),
        forall|x: A| #[trigger] distinct(s).contains(x) <==> s.contains(x),
        distinct(s).len() <= s.len(),
        s.len() > 0 ==> distinct(s).len() > 0,
        s.no_duplicates() ==> distinct(s) == s,
    decreases s.len(),
{
    let out = distinct(s);
    if s.len() > 0 {
        let rest_in = s.drop_last();
        let rest = distinct(rest_in);
        let last = s.last();
        lemma_distinct(rest_in);
        assert forall|x: A| #[trigger] out.contains(x) implies s.contains(x) by {
            let j = choose|j: int| 0 <= j < out.len() && out[j] == x;
            if j < rest.len() {
                assert(rest[j] == x);
                assert(rest.contains(x));
                assert(rest_in.contains(x));
                let i = choose|i: int| 0 <= i < rest_in.len() && rest_in[i] == x;
                assert(s[i] == x);
            } else {
                assert(s[s.len() - 1] == x);
            }
        }
        assert forall|x: A| s.contains(x) implies #[trigger] out.contains(x) by {
            let i = choose|i: int| 0 <= i < s.len() && s[i] == x;
            if i < s.len() - 1 {
                assert(rest_in[i] == x);
                assert(rest_in.contains(x));
                assert(rest.contains(x));
                let j = choose|j: int| 0 <= j < rest.len() && rest[j] == x;
                assert(out[j] == x);
            } else if rest.contains(last) {
                let j = choose|j: int| 0 <= j < rest.len() && rest[j] == last;
                assert(out[j] == x);
            } else {
                assert(out[rest.len() as int] == x);
            }
        }
        if !rest.contains(last) {
            assert forall|i: int, j: int|
                0 <= i < out.len() && 0 <= j < out.len() && i != j implies out[i] != out[j] by {
                if i < rest.len() {
                    assert(rest.contains(rest[i]));
                }
                if j < rest.len() {
                    assert(rest.contains(rest[j]));
                }
            }
        }
        if rest.len() == 0 && rest.contains(last) {
            let j = choose|j: int| 0 <= j < rest.len() && rest[j] == last;
        }
        if s.no_duplicates() {
            assert forall|i: int, j: int|
                0 <= i < rest_in.len() && 0 <= j < rest_in.len() && i != j implies rest_in[i]
                != rest_in[j] by {
                assert(rest_in[i] == s[i] && rest_in[j] == s[j]);
            }
            assert(rest == rest_in);
            if rest.contains(last) {
                let i = choose|i: int| 0 <= i < rest_in.len() && rest_in[i] == last;
                assert(s[i] == s[s.len() - 1]);
            }
            lemma_split_last(s);
        }
    } else {
        assert(s =~= Seq::<A>::empty());
    }
}

} // verus!
