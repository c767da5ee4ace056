//! Which rows of a list are shown, and where the n-th shown row stands.

use crate::compare::{
    check_diff, check_row_filter, row_models, row_shown, RowModel,
};
use crate::entry::{entry_models, matches_filter, EntryModel, TagEntry};
use vstd::prelude::*;

verus! {

/// The positions at which `flags` holds `true`, in rising order.
pub open spec fn positions(flags: Seq<bool>) -> Seq<int>
    decreases flags.len(),
{
    if flags.len() == 0 {
        Seq::empty()
    } else {
        let rest = positions(flags.drop_last());
        if flags.last() {
            rest.push(flags.len() - 1)
        } else {
            rest
        }
    }
}

/// Every member of `positions(flags)` is a position of `flags` that holds
/// `true`, the members rise strictly, and there are at most as many as
/// there are flags.
pub proof fn lemma_positions_sound(flags: Seq<bool>)
    ensures
        positions(flags).len() <= flags.len(),
        forall|k: int|
            0 <= k < positions(flags).len() ==> 0 <= #[trigger] positions(flags)[k] < flags.len()
                && flags[positions(flags)[k]],
        forall|j: int, k: int|
            0 <= j < k < positions(flags).len() ==> positions(flags)[j] < positions(flags)[k],
    decreases flags.len(),
{
    if flags.len() > 0 {
        lemma_positions_sound(flags.drop_last());
    }
}

/// Every position of `flags` that holds `true` is a member of
/// `positions(flags)`.
pub proof fn lemma_positions_complete(flags: Seq<bool>, i: int)
    requires
        0 <= i < flags.len(),
        flags[i],
    ensures
        positions(flags).contains(i),
    decreases flags.len(),
{
    if i == flags.len() - 1 {
        assert(positions(flags).last() == i);
    } else {
        lemma_positions_complete(flags.drop_last(), i);
        let rest = positions(flags.drop_last());
        let k = choose|k: int| 0 <= k < rest.len() && rest[k] == i;
        assert(positions(flags)[k] == i);
    }
}

/// One more flag adds its position when it holds `true`, and nothing
/// otherwise.
pub proof fn lemma_positions_step(flags: Seq<bool>, i: int)
    requires
        0 <= i < flags.len(),
    ensures
        positions(flags.take(i + 1)) == if flags[i] {
            positions(flags.take(i)).push(i)
        } else {
            positions(flags.take(i))
        },
{
    assert(flags.take(i + 1).drop_last() =~= flags.take(i));
}


/// For each entry, whether the filter lets it through; an empty filter lets
/// every entry through.
pub open spec fn entry_flags(entries: Seq<EntryModel>, text: Seq<char>) -> Seq<bool> {
    Seq::new(entries.len(), |i: int| text.len() == 0 || matches_filter(entries[i], text))
}

/// For each row, whether it is shown.
pub open spec fn row_flags(rows: Seq<RowModel>, text: Seq<char>, only_diff: bool) -> Seq<bool> {
    Seq::new(rows.len(), |i: int| row_shown(rows[i], text, only_diff))
}

/// The entries that the filter lets through, in their order.
pub open spec fn filtered(entries: Seq<EntryModel>, text: Seq<char>) -> Seq<EntryModel> {
    Seq::new(
        positions(entry_flags(entries, text)).len(),
        |k: int| entries[positions(entry_flags(entries, text))[k]],
    )
}

/// Positions held in machine integers, as mathematical integers.
pub open spec fn indices(v: Seq<usize>) -> Seq<int> {
    Seq::new(v.len(), |k: int| v[k] as int)
}

/// Filtering keeps a part of the entries in the order they had: the
/// entries that come out stand at strictly rising positions of the input,
/// each of them passes the filter, and no entry that passes is left out.
pub proof fn lemma_filter_keeps_order(entries: Seq<EntryModel>, text: Seq<char>)
    ensures
        filtered(entries, text).len() <= entries.len(),
        forall|k: int|
            0 <= k < filtered(entries, text).len() ==> {
                let p = #[trigger] positions(entry_flags(entries, text))[k];
                &&& 0 <= p < entries.len()
                &&& filtered(entries, text)[k] == entries[p]
                &&& (text.len() == 0 || matches_filter(entries[p], text))
            },
        forall|j: int, k: int|
            0 <= j < k < filtered(entries, text).len() ==> positions(entry_flags(entries, text))[j]
                < positions(entry_flags(entries, text))[k],
        forall|i: int|
            0 <= i < entries.len() && (text.len() == 0 || matches_filter(entries[i], text))
                ==> positions(entry_flags(entries, text)).contains(i),
{
    let flags = entry_flags(entries, text);
    lemma_positions_sound(flags);
    assert forall|i: int|
        0 <= i < entries.len() && (text.len() == 0 || matches_filter(
            entries[i],
            text,
        )) implies positions(flags).contains(i) by {
        lemma_positions_complete(flags, i);
    }
}

/// The positions of the entries that the filter lets through.
pub fn shown_entries(entries: &Vec<TagEntry>, filter: &str) -> (r: Vec<usize>)
    ensures
        indices(r@) == positions(entry_flags(entry_models(entries@), filter@)),
{
    let ghost flags = entry_flags(entry_models(entries@), filter@);
    let mut r: Vec<usize> = Vec::new();
    let mut i: usize = 0;
    while i < entries.len()
        invariant
            i <= entries.len(),
            flags == entry_flags(entry_models(entries@), filter@),
            indices(r@) == positions(flags.take(i as int)),
        decreases entries.len() - i,
    {
        proof {
            lemma_positions_step(flags, i as int);
        }
        if filter.is_empty() || entries[i].check_filter(filter) {
            r.push(i);
        }
        i += 1;
    }
    assert(flags.take(i as int) =~= flags);
    r
}

/// The positions of the rows that are shown.
pub fn shown_rows(
    rows: &Vec<(TagEntry, Vec<Option<TagEntry>>)>,
    filter: &str,
    only_diff: bool,
) -> (r: Vec<usize>)
    ensures
        indices(r@) == positions(row_flags(row_models(rows@), filter@, only_diff)),
{
    let ghost flags = row_flags(row_models(rows@), filter@, only_diff);
    let mut r: Vec<usize> = Vec::new();
    let mut i: usize = 0;
    while i < rows.len()
        invariant
            i <= rows.len(),
            flags == row_flags(row_models(rows@), filter@, only_diff),
            indices(r@) == positions(flags.take(i as int)),
        decreases rows.len() - i,
    {
        proof {
            lemma_positions_step(flags, i as int);
        }
        let slots = &rows[i].1;
        if check_row_filter(slots, filter) && (!only_diff || check_diff(slots)) {
            r.push(i);
        }
        i += 1;
    }
    assert(flags.take(i as int) =~= flags);
    r
}

} // verus!
