//! Laws of the equality of trees: it is reflexive and transitive, and it is
//! symmetric on trees whose mappings hold each key once.

use crate::laws::number::{law_number_equality_is_symmetric, law_number_equality_is_transitive};
use crate::value::{entry_in, same, unique_keys, ValueView};
use vstd::prelude::*;
use vstd::relations::injective_on;
use vstd::set_lib::{lemma_int_range, lemma_map_size, lemma_subset_equality, set_int_range};

verus! {

/// Every tree equals itself, whatever spans it carries.
pub proof fn law_same_is_reflexive(v: ValueView)
    ensures
        same(v, v),
    decreases v,
{
    match v {
        ValueView::Sequence(items, _) => {
            assert forall|i: int| 0 <= i < items.len() implies same(
                #[trigger] items[i],
                items[i],
            ) by {
                law_same_is_reflexive(items[i]);
            }
        },
        ValueView::Mapping(entries, _) => {
            assert forall|i: int| 0 <= i < entries.len() implies entry_in(
                #[trigger] entries[i],
                entries,
            ) by {
                law_same_is_reflexive(entries[i].0);
                law_same_is_reflexive(entries[i].1);
            }
        },
        ValueView::Tagged(_, inner, _) => {
            law_same_is_reflexive(*inner);
        },
        _ => {},
    }
}

/// If a tree equals a second one and that equals a third, the first equals
/// the third.
pub proof fn law_same_is_transitive(a: ValueView, b: ValueView, c: ValueView)
    requires
        same(a, b),
        same(b, c),
    ensures
        same(a, c),
    decreases a,
{
    match (a, b, c) {
        (ValueView::Number(x, _), ValueView::Number(y, _), ValueView::Number(z, _)) => {
            law_number_equality_is_transitive(x, y, z);
        },
        (ValueView::Sequence(x, _), ValueView::Sequence(y, _), ValueView::Sequence(z, _)) => {
            assert forall|i: int| 0 <= i < x.len() implies same(#[trigger] x[i], z[i]) by {
                law_same_is_transitive(x[i], y[i], z[i]);
            }
        },
        (ValueView::Mapping(x, _), ValueView::Mapping(y, _), ValueView::Mapping(z, _)) => {
            assert forall|i: int| 0 <= i < x.len() implies entry_in(#[trigger] x[i], z) by {
                assert(entry_in(x[i], y));
                let j = choose|j: int|
                    0 <= j < y.len() && same(x[i].0, (#[trigger] y[j]).0) && same(x[i].1, y[j].1);
                assert(entry_in(y[j], z));
                let k = choose|k: int|
                    0 <= k < z.len() && same(y[j].0, (#[trigger] z[k]).0) && same(y[j].1, z[k].1);
                law_same_is_transitive(x[i].0, y[j].0, z[k].0);
                law_same_is_transitive(x[i].1, y[j].1, z[k].1);
            }
        },
        (ValueView::Tagged(_, x, _), ValueView::Tagged(_, y, _), ValueView::Tagged(_, z, _)) => {
            law_same_is_transitive(*x, *y, *z);
        },
        _ => {},
    }
}

/// Every mapping in the tree holds each key once.
pub open spec fn well_keyed(v: ValueView) -> bool
    decreases v,
{
    match v {
        ValueView::Sequence(items, _) => forall|i: int|
            0 <= i < items.len() ==> well_keyed(#[trigger] items[i]),
        ValueView::Mapping(entries, _) => {
            &&& unique_keys(entries)
            &&& forall|i: int|
                0 <= i < entries.len() ==> well_keyed((#[trigger] entries[i]).0) && well_keyed(
                    entries[i].1,
                )
        },
        ValueView::Tagged(_, inner, _) => well_keyed(*inner),
        _ => true,
    }
}

/// The position of an entry of `entries` that equals `entry`.
pub open spec fn partner(entry: (ValueView, ValueView), entries: Seq<(ValueView, ValueView)>) -> int {
    choose|j: int|
        0 <= j < entries.len() && same(entry.0, (#[trigger] entries[j]).0) && same(
            entry.1,
            entries[j].1,
        )
}

/// Among trees whose mappings hold each key once, equality does not depend
/// on the order of its operands.
pub proof fn law_same_is_symmetric(a: ValueView, b: ValueView)
    requires
        same(a, b),
        well_keyed(a),
        well_keyed(b),
    ensures
        same(b, a),
    decreases a,
{
    match (a, b) {
        (ValueView::Number(x, _), ValueView::Number(y, _)) => {
            law_number_equality_is_symmetric(x, y);
        },
        (ValueView::Sequence(x, _), ValueView::Sequence(y, _)) => {
            assert forall|i: int| 0 <= i < y.len() implies same(#[trigger] y[i], x[i]) by {
                law_same_is_symmetric(x[i], y[i]);
            }
        },
        (ValueView::Mapping(x, _), ValueView::Mapping(y, _)) => {
            let n = x.len() as int;
            let f = |i: int| partner(x[i], y);
            let dom = set_int_range(0, n);
            lemma_int_range(0, n);
            assert forall|i: int| dom.contains(i) implies 0 <= f(i) < n && same(
                x[i].0,
                y[f(i)].0,
            ) && same(x[i].1, y[f(i)].1) by {
                assert(entry_in(x[i], y));
            }
            assert forall|i1: int, i2: int|
                dom.contains(i1) && dom.contains(i2) && #[trigger] f(i1) == #[trigger] f(
                    i2,
                ) implies i1 == i2 by {
                if i1 != i2 {
                    let j = f(i1);
                    law_same_is_symmetric(x[i1].0, y[j].0);
                    law_same_is_symmetric(x[i2].0, y[j].0);
                    law_same_is_transitive(x[i1].0, y[j].0, x[i2].0);
                    law_same_is_transitive(x[i2].0, y[j].0, x[i1].0);
                    if i1 < i2 {
                        assert(!same(x[i1].0, x[i2].0));
                    } else {
                        assert(!same(x[i2].0, x[i1].0));
                    }
                }
            }
            assert(injective_on(f, dom));
            let image = dom.map(f);
            lemma_map_size(dom, image, f);
            assert forall|j: int| image.contains(j) implies dom.contains(j) by {
                let i = choose|i: int| dom.contains(i) && f(i) == j;
                assert(dom.contains(i));
            }
            lemma_subset_equality(image, dom);
            assert forall|j: int| 0 <= j < y.len() implies entry_in(#[trigger] y[j], x) by {
                assert(dom.contains(j));
                assert(image.contains(j));
                let i = choose|i: int| dom.contains(i) && f(i) == j;
                law_same_is_symmetric(x[i].0, y[j].0);
                law_same_is_symmetric(x[i].1, y[j].1);
            }
        },
        (ValueView::Tagged(_, x, _), ValueView::Tagged(_, y, _)) => {
            law_same_is_symmetric(*x, *y);
        },
        _ => {},
    }
}

} // verus!
