//! Laws of the expansion of merge keys: explicit keys win, and what a mapping
//! holds is kept.

use crate::merge::{add_absent, add_sources, expand, merge_key};
use crate::value::{lemma_position_is, lemma_position_of, position_of, same, ValueView};
use vstd::prelude::*;

verus! {

/// Adding the entries of a source to a mapping keeps what the mapping held.
pub proof fn law_add_absent_keeps_entries(
    acc: Seq<(ValueView, ValueView)>,
    source: Seq<(ValueView, ValueView)>,
    i: int,
)
    ensures
        add_absent(acc, source, i).len() >= acc.len(),
        add_absent(acc, source, i).take(acc.len() as int) == acc,
    decreases source.len() - i,
{
    if i < 0 || i >= source.len() {
        assert(acc.take(acc.len() as int) =~= acc);
    } else if position_of(acc, source[i].0) < acc.len() {
        law_add_absent_keeps_entries(acc, source, i + 1);
    } else {
        let more = acc.push(source[i]);
        law_add_absent_keeps_entries(more, source, i + 1);
        assert(add_absent(acc, source, i).take(acc.len() as int) =~= add_absent(
            more,
            source,
            i + 1,
        ).take(more.len() as int).take(acc.len() as int));
        assert(more.take(acc.len() as int) =~= acc);
    }
}

/// Adding the entries of several sources to a mapping keeps what the
/// mapping held.
pub proof fn law_add_sources_keeps_entries(
    acc: Seq<(ValueView, ValueView)>,
    sources: Seq<ValueView>,
    i: int,
)
    ensures
        add_sources(acc, sources, i) matches Ok(merged) ==> merged.len() >= acc.len()
            && merged.take(acc.len() as int) == acc,
    decreases sources.len() - i,
{
    if i < 0 || i >= sources.len() {
        assert(acc.take(acc.len() as int) =~= acc);
    } else {
        match sources[i] {
            ValueView::Mapping(source, _) => {
                let more = add_absent(acc, source, 0);
                law_add_absent_keeps_entries(acc, source, 0);
                law_add_sources_keeps_entries(more, sources, i + 1);
                if add_sources(acc, sources, i) is Ok {
                    let merged = add_sources(acc, sources, i)->Ok_0;
                    assert(merged.take(acc.len() as int) =~= merged.take(more.len() as int).take(
                        acc.len() as int,
                    ));
                }
            },
            _ => {},
        }
    }
}

/// Explicit keys win over merged ones: the expansion of a merge key keeps
/// every other entry of the mapping as it is and in its place, and puts what
/// the sources contribute behind them.
pub proof fn law_explicit_keys_win(entries: Seq<(ValueView, ValueView)>)
    ensures
        expand(entries) matches Ok(expanded) ==> {
            let p = position_of(entries, merge_key());
            let explicit = if p < entries.len() {
                entries.remove(p)
            } else {
                entries
            };
            expanded.len() >= explicit.len() && expanded.take(explicit.len() as int) == explicit
        },
{
    let p = position_of(entries, merge_key());
    lemma_position_of(entries, merge_key());
    if p >= entries.len() {
        assert(entries.take(entries.len() as int) =~= entries);
    } else {
        let base = entries.remove(p);
        match entries[p].1 {
            ValueView::Mapping(source, _) => {
                law_add_absent_keeps_entries(base, source, 0);
            },
            ValueView::Sequence(sources, _) => {
                law_add_sources_keeps_entries(base, sources, 0);
            },
            _ => {},
        }
    }
}

/// A key that a mapping holds is never taken from a source: adding the
/// entries of a source leaves the value under the key as it was.
pub proof fn law_merged_key_does_not_override(
    acc: Seq<(ValueView, ValueView)>,
    source: Seq<(ValueView, ValueView)>,
    key: ValueView,
)
    requires
        position_of(acc, key) < acc.len(),
    ensures
        position_of(add_absent(acc, source, 0), key) == position_of(acc, key),
        add_absent(acc, source, 0)[position_of(acc, key)] == acc[position_of(acc, key)],
{
    let merged = add_absent(acc, source, 0);
    law_add_absent_keeps_entries(acc, source, 0);
    lemma_position_of(acc, key);
    let p = position_of(acc, key);
    assert(merged.take(acc.len() as int)[p] == merged[p]);
    assert forall|i: int| 0 <= i < p implies !same((#[trigger] merged[i]).0, key) by {
        assert(merged.take(acc.len() as int)[i] == merged[i]);
    }
    lemma_position_is(merged, key, p);
}

} // verus!
