//! The comparison table: one row for each field that any file holds, with
//! the entries of all files side by side.

use crate::entry::{
    entry_models, key_of, matches_filter, opt_entry_model, same_entry, EntryModel, ExiftoolEntry,
    KeyModel, TagEntry, TagEntryKey,
};
use vstd::prelude::*;

verus! {

/// The side-by-side view of several files.
pub struct CompareData {
    /// `None` while the files are shown one by one; otherwise whether only
    /// the rows that differ are shown.
    pub mode: Option<bool>,
    /// One row for each key: an entry that stands for the row, and the
    /// entry of each file, in the order of the files.
    pub data: Vec<(TagEntry, Vec<Option<TagEntry>>)>,
}

/// The mathematical model of one row of the table.
#[verifier::ext_equal]
pub struct RowModel {
    /// The first entry that a file holds under the row's key.
    pub representative: EntryModel,
    /// What each file holds under the row's key.
    pub per_file: Seq<Option<EntryModel>>,
}

/// The models of the slots of a row.
pub open spec fn slot_models(slots: Seq<Option<TagEntry>>) -> Seq<Option<EntryModel>> {
    Seq::new(slots.len(), |i: int| opt_entry_model(slots[i]))
}

/// The model of a row.
pub open spec fn row_model(row: (TagEntry, Vec<Option<TagEntry>>)) -> RowModel {
    RowModel { representative: row.0@, per_file: slot_models(row.1@) }
}

/// The models of the rows of a table.
pub open spec fn row_models(rows: Seq<(TagEntry, Vec<Option<TagEntry>>)>) -> Seq<RowModel> {
    Seq::new(rows.len(), |i: int| row_model(rows[i]))
}

/// The entries of each file, as models.
pub open spec fn file_models(files: Seq<ExiftoolEntry>) -> Seq<Seq<EntryModel>> {
    Seq::new(files.len(), |f: int| entry_models(files[f].tag_entries@))
}

/// The keys of the entries, in order.
pub open spec fn keys_of(entries: Seq<EntryModel>) -> Seq<KeyModel> {
    Seq::new(entries.len(), |i: int| key_of(entries[i]))
}

/// The entry that a file holds under a key: of several with the same key,
/// the last.
pub open spec fn lookup(entries: Seq<EntryModel>, k: KeyModel) -> Option<EntryModel>
    decreases entries.len(),
{
    if entries.len() == 0 {
        None
    } else if key_of(entries.last()) == k {
        Some(entries.last())
    } else {
        lookup(entries.drop_last(), k)
    }
}

/// The keys of all entries of all files, file after file.
pub open spec fn all_keys(files: Seq<Seq<EntryModel>>) -> Seq<KeyModel>
    decreases files.len(),
{
    if files.len() == 0 {
        Seq::empty()
    } else {
        all_keys(files.drop_last()) + keys_of(files.last())
    }
}

/// The keys without repetitions, each where it first occurs.
pub open spec fn distinct(keys: Seq<KeyModel>) -> Seq<KeyModel>
    decreases keys.len(),
{
    if keys.len() == 0 {
        Seq::empty()
    } else {
        let before = distinct(keys.drop_last());
        if before.contains(keys.last()) {
            before
        } else {
            before.push(keys.last())
        }
    }
}

/// The first slot that holds an entry.
pub open spec fn first_present(slots: Seq<Option<EntryModel>>) -> Option<EntryModel>
    decreases slots.len(),
{
    if slots.len() == 0 {
        None
    } else {
        match first_present(slots.drop_last()) {
            Some(e) => Some(e),
            None => slots.last(),
        }
    }
}

/// What each file holds under a key.
pub open spec fn slots_of(files: Seq<Seq<EntryModel>>, k: KeyModel) -> Seq<Option<EntryModel>> {
    Seq::new(files.len(), |f: int| lookup(files[f], k))
}

/// The row of a key.
pub open spec fn row_of(files: Seq<Seq<EntryModel>>, k: KeyModel) -> RowModel {
    RowModel {
        representative: first_present(slots_of(files, k)).unwrap(),
        per_file: slots_of(files, k),
    }
}

/// The rows of the given keys.
pub open spec fn rows_of(files: Seq<Seq<EntryModel>>, keys: Seq<KeyModel>) -> Seq<RowModel> {
    Seq::new(keys.len(), |i: int| row_of(files, keys[i]))
}

/// The comparison table of the files: one row for each key that occurs, in
/// the order in which the keys first occur.
pub open spec fn compare_table(files: Seq<Seq<EntryModel>>) -> Seq<RowModel> {
    rows_of(files, distinct(all_keys(files)))
}

/// A slot agrees with the first slot: both are empty, or both hold equal
/// entries.
pub open spec fn slot_agrees(slot: Option<EntryModel>, first: Option<EntryModel>) -> bool {
    ||| (slot is None && first is None)
    ||| (slot matches Some(e) && first matches Some(f) && same_entry(e, f))
}

/// All slots agree with the first.
pub open spec fn all_agree(slots: Seq<Option<EntryModel>>) -> bool {
    forall|i: int| 0 <= i < slots.len() ==> slot_agrees(#[trigger] slots[i], slots[0])
}

/// The diff predicate: some slot does not agree with the first.
pub open spec fn differs(slots: Seq<Option<EntryModel>>) -> bool {
    !all_agree(slots)
}

/// The entry of some file in the row matches the filter; an empty filter
/// matches every row.
pub open spec fn slots_match(slots: Seq<Option<EntryModel>>, text: Seq<char>) -> bool {
    text.len() == 0 || exists|i: int|
        0 <= i < slots.len() && slot_matches(#[trigger] slots[i], text)
}

/// The slot holds an entry that matches the filter.
pub open spec fn slot_matches(slot: Option<EntryModel>, text: Seq<char>) -> bool {
    slot matches Some(e) && matches_filter(e, text)
}

/// The row is shown under the filter and, where `only_diff` is set, the
/// diff predicate.
pub open spec fn row_shown(row: RowModel, text: Seq<char>, only_diff: bool) -> bool {
    slots_match(row.per_file, text) && (!only_diff || differs(row.per_file))
}

impl Default for CompareData {
    fn default() -> (r: Self)
        ensures
            r.mode is None,
            r.data@.len() == 0,
    {
        CompareData { mode: None, data: Vec::new() }
    }
}

/// Does the entry have this key?
pub fn has_key(e: &TagEntry, k: &TagEntryKey) -> (r: bool)
    ensures
        r == (key_of(e@) == k@),
{
    e.short_name == k.short_name && e.table.0 == k.table.0 && e.table.1 == k.table.1
}

/// The position of the last entry with the given key.
pub fn find_last(entries: &Vec<TagEntry>, k: &TagEntryKey) -> (r: Option<usize>)
    ensures
        match r {
            Some(i) => i < entries.len() && lookup(entry_models(entries@), k@) == Some(
                entries@[i as int]@,
            ),
            None => lookup(entry_models(entries@), k@) is None,
        },
{
    let ghost models = entry_models(entries@);
    let mut i: usize = entries.len();
    assert(models.take(i as int) =~= models);
    while i > 0
        invariant
            i <= entries.len(),
            models == entry_models(entries@),
            lookup(models, k@) == lookup(models.take(i as int), k@),
        decreases i,
    {
        assert(models.take(i as int).drop_last() =~= models.take(i - 1));
        if has_key(&entries[i - 1], k) {
            return Some(i - 1);
        }
        i -= 1;
    }
    None
}

/// The diff predicate on the slots of a row.
pub fn check_diff(slots: &Vec<Option<TagEntry>>) -> (r: bool)
    ensures
        r == differs(slot_models(slots@)),
{
    let ghost models = slot_models(slots@);
    let mut i: usize = 0;
    while i < slots.len()
        invariant
            i <= slots.len(),
            models == slot_models(slots@),
            forall|j: int| 0 <= j < i ==> slot_agrees(#[trigger] models[j], models[0]),
        decreases slots.len() - i,
    {
        let agrees = match (&slots[i], &slots[0]) {
            (None, None) => true,
            (Some(e), Some(f)) => *e == *f,
            _ => false,
        };
        assert(agrees == slot_agrees(models[i as int], models[0]));
        if !agrees {
            return true;
        }
        i += 1;
    }
    false
}

/// Does some entry of the row match the filter?
pub fn check_row_filter(slots: &Vec<Option<TagEntry>>, filter: &str) -> (r: bool)
    ensures
        r == slots_match(slot_models(slots@), filter@),
{
    if filter.is_empty() {
        return true;
    }
    let ghost models = slot_models(slots@);
    let mut i: usize = 0;
    while i < slots.len()
        invariant
            i <= slots.len(),
            filter@.len() > 0,
            models == slot_models(slots@),
            forall|j: int| 0 <= j < i ==> !slot_matches(#[trigger] models[j], filter@),
        decreases slots.len() - i,
    {
        let hit = match &slots[i] {
            Some(e) => e.check_filter(filter),
            None => false,
        };
        assert(hit == slot_matches(models[i as int], filter@));
        if hit {
            return true;
        }
        i += 1;
    }
    false
}


/// The models of a sequence of keys.
pub open spec fn key_models(keys: Seq<TagEntryKey>) -> Seq<KeyModel> {
    Seq::new(keys.len(), |i: int| keys[i]@)
}

/// A file that holds an entry holds one under that entry's key.
pub proof fn lemma_lookup_present(entries: Seq<EntryModel>, i: int)
    requires
        0 <= i < entries.len(),
    ensures
        lookup(entries, key_of(entries[i])) is Some,
    decreases entries.len(),
{
    if key_of(entries.last()) != key_of(entries[i]) {
        lemma_lookup_present(entries.drop_last(), i);
    }
}

/// What a file holds under a key is one of its entries and has that key.
pub proof fn lemma_lookup_sound(entries: Seq<EntryModel>, k: KeyModel)
    ensures
        lookup(entries, k) matches Some(e) ==> key_of(e) == k && entries.contains(e),
    decreases entries.len(),
{
    if entries.len() > 0 && key_of(entries.last()) != k {
        lemma_lookup_sound(entries.drop_last(), k);
    }
}

/// Where some slot holds an entry, there is a first such slot.
pub proof fn lemma_first_present(slots: Seq<Option<EntryModel>>, f: int)
    requires
        0 <= f < slots.len(),
        slots[f] is Some,
    ensures
        first_present(slots) is Some,
    decreases slots.len(),
{
    if f < slots.len() - 1 {
        lemma_first_present(slots.drop_last(), f);
    }
}

/// Is the key among the keys?
fn holds_key(keys: &Vec<TagEntryKey>, k: &TagEntryKey) -> (r: bool)
    ensures
        r == key_models(keys@).contains(k@),
{
    let ghost models = key_models(keys@);
    let mut i: usize = 0;
    while i < keys.len()
        invariant
            i <= keys.len(),
            models == key_models(keys@),
            forall|j: int| 0 <= j < i ==> models[j] != k@,
        decreases keys.len() - i,
    {
        if keys[i] == *k {
            assert(models[i as int] == k@);
            return true;
        }
        i += 1;
    }
    false
}

/// The copy of an optional entry.
fn clone_slot(slot: &Option<TagEntry>) -> (r: Option<TagEntry>)
    ensures
        opt_entry_model(r) == opt_entry_model(*slot),
{
    match slot {
        Some(e) => Some(e.clone()),
        None => None,
    }
}

/// What each file holds under the key, and the first entry among them.
fn build_row(files: &Vec<ExiftoolEntry>, k: &TagEntryKey) -> (r: (
    Option<TagEntry>,
    Vec<Option<TagEntry>>,
))
    ensures
        slot_models(r.1@) == slots_of(file_models(files@), k@),
        opt_entry_model(r.0) == first_present(slots_of(file_models(files@), k@)),
{
    let ghost all = slots_of(file_models(files@), k@);
    let mut first: Option<TagEntry> = None;
    let mut slots: Vec<Option<TagEntry>> = Vec::new();
    let mut f: usize = 0;
    while f < files.len()
        invariant
            f <= files.len(),
            all == slots_of(file_models(files@), k@),
            slot_models(slots@) == all.take(f as int),
            opt_entry_model(first) == first_present(all.take(f as int)),
        decreases files.len() - f,
    {
        let slot = match find_last(&files[f].tag_entries, k) {
            Some(i) => Some(files[f].tag_entries[i].clone()),
            None => None,
        };
        if first.is_none() {
            first = clone_slot(&slot);
        }
        slots.push(slot);
        f += 1;
        assert(all.take(f as int).drop_last() =~= all.take(f - 1));
    }
    assert(all.take(f as int) =~= all);
    (first, slots)
}

impl ExiftoolEntry {
    /// The file as a map from keys to entries: one pair for each key of the
    /// file, in the order in which the keys first occur, each with the last
    /// entry that the file holds under the key.
    pub fn as_hashmap(&self) -> (r: Vec<(TagEntryKey, &TagEntry)>)
        ensures
            r.len() == distinct(keys_of(entry_models(self.tag_entries@))).len(),
            forall|i: int|
                0 <= i < r.len() ==> (#[trigger] r[i]).0@ == distinct(
                    keys_of(entry_models(self.tag_entries@)),
                )[i],
            forall|i: int|
                0 <= i < r.len() ==> lookup(
                    entry_models(self.tag_entries@),
                    (#[trigger] r[i]).0@,
                ) == Some(r[i].1@),
    {
        let ghost models = entry_models(self.tag_entries@);
        let ghost all = keys_of(models);
        let mut keys: Vec<TagEntryKey> = Vec::new();
        let mut r: Vec<(TagEntryKey, &TagEntry)> = Vec::new();
        let mut i: usize = 0;
        while i < self.tag_entries.len()
            invariant
                i <= self.tag_entries.len(),
                models == entry_models(self.tag_entries@),
                all == keys_of(models),
                key_models(keys@) == distinct(all.take(i as int)),
                r.len() == keys.len(),
                forall|j: int| 0 <= j < r.len() ==> (#[trigger] r[j]).0@ == keys[j]@,
                forall|j: int|
                    0 <= j < r.len() ==> lookup(models, (#[trigger] r[j]).0@) == Some(r[j].1@),
            decreases self.tag_entries.len() - i,
        {
            let k = self.tag_entries[i].as_key();
            assert(all.take(i + 1).drop_last() =~= all.take(i as int));
            if !holds_key(&keys, &k) {
                proof {
                    lemma_lookup_present(models, i as int);
                }
                match find_last(&self.tag_entries, &k) {
                    Some(at) => {
                        keys.push(k.clone());
                        r.push((k, &self.tag_entries[at]));
                    },
                    None => {},
                }
            }
            i += 1;
        }
        assert(all.take(i as int) =~= all);
        r
    }
}

/// Builds the comparison table of the files. Keys are found by going
/// through the rows and entries one by one, so the time taken grows with
/// the number of distinct keys times the number of entries.
pub fn compare_rows(files: &Vec<ExiftoolEntry>) -> (rows: Vec<(TagEntry, Vec<Option<TagEntry>>)>)
    ensures
        row_models(rows@) == compare_table(file_models(files@)),
{
    let ghost fm = file_models(files@);
    let mut keys: Vec<TagEntryKey> = Vec::new();
    let mut rows: Vec<(TagEntry, Vec<Option<TagEntry>>)> = Vec::new();
    let mut f: usize = 0;
    while f < files.len()
        invariant
            f <= files.len(),
            fm == file_models(files@),
            rows.len() == keys.len(),
            key_models(keys@) == distinct(all_keys(fm.take(f as int))),
            row_models(rows@) == rows_of(fm, key_models(keys@)),
        decreases files.len() - f,
    {
        let entries = &files[f].tag_entries;
        let ghost before = all_keys(fm.take(f as int));
        let ghost here = keys_of(fm[f as int]);
        let mut i: usize = 0;
        while i < entries.len()
            invariant
                f < files.len(),
                i <= entries.len(),
                fm == file_models(files@),
                entries == &files@[f as int].tag_entries,
                before == all_keys(fm.take(f as int)),
                here == keys_of(fm[f as int]),
                rows.len() == keys.len(),
                key_models(keys@) == distinct(before + here.take(i as int)),
                row_models(rows@) == rows_of(fm, key_models(keys@)),
            decreases entries.len() - i,
        {
            let k = entries[i].as_key();
            let ghost seen = before + here.take(i as int);
            let ghost next = before + here.take(i + 1);
            assert(next.drop_last() =~= seen);
            if !holds_key(&keys, &k) {
                let (first, slots) = build_row(files, &k);
                proof {
                    lemma_lookup_present(fm[f as int], i as int);
                    lemma_first_present(slots_of(fm, k@), f as int);
                }
                match first {
                    Some(e) => {
                        let ghost old_keys = keys@;
                        let ghost old_rows = rows@;
                        let row = (e, slots);
                        keys.push(k);
                        rows.push(row);
                        assert forall|j: int| 0 <= j < rows.len() implies row_models(rows@)[j]
                            == rows_of(fm, key_models(keys@))[j] by {
                            if j < old_rows.len() {
                                assert(row_models(old_rows)[j] == rows_of(
                                    fm,
                                    key_models(old_keys),
                                )[j]);
                            }
                        }
                    },
                    None => {},
                }
            }
            i += 1;
        }
        assert(here.take(i as int) =~= here);
        assert(fm.take(f + 1).drop_last() =~= fm.take(f as int));
        f += 1;
    }
    assert(fm.take(f as int) =~= fm);
    rows
}


/// The keys that occur in any of the files.
pub open spec fn union_keys(files: Seq<Seq<EntryModel>>) -> Set<KeyModel> {
    Set::new(
        |k: KeyModel|
            exists|f: int, i: int|
                0 <= f < files.len() && 0 <= i < files[f].len() && #[trigger] key_of(files[f][i])
                    == k,
    )
}

/// `distinct` keeps every key once.
pub proof fn lemma_distinct(keys: Seq<KeyModel>)
    ensures
        distinct(keys).no_duplicates(),
        forall|k: KeyModel| distinct(keys).contains(k) <==> keys.contains(k),
    decreases keys.len(),
{
    if keys.len() > 0 {
        let before = keys.drop_last();
        lemma_distinct(before);
        assert forall|k: KeyModel| distinct(keys).contains(k) <==> keys.contains(k) by {
            if keys.contains(k) {
                let i = choose|i: int| 0 <= i < keys.len() && keys[i] == k;
                if i < keys.len() - 1 {
                    assert(before[i] == k);
                    assert(before.contains(k));
                    let j = choose|j: int|
                        0 <= j < distinct(before).len() && distinct(before)[j] == k;
                    assert(distinct(keys)[j] == k);
                } else if !distinct(before).contains(k) {
                    assert(distinct(keys).last() == k);
                }
            }
            if distinct(keys).contains(k) {
                let j = choose|j: int| 0 <= j < distinct(keys).len() && distinct(keys)[j] == k;
                if j < distinct(before).len() {
                    assert(before.contains(k));
                }
            }
        }
    }
}

/// The keys of all files hold exactly the keys that occur in some file.
pub proof fn lemma_all_keys(files: Seq<Seq<EntryModel>>)
    ensures
        forall|k: KeyModel| all_keys(files).contains(k) <==> union_keys(files).contains(k),
    decreases files.len(),
{
    if files.len() > 0 {
        let before = files.drop_last();
        let here = keys_of(files.last());
        lemma_all_keys(before);
        assert forall|k: KeyModel| all_keys(files).contains(k) <==> union_keys(files).contains(
            k,
        ) by {
            if all_keys(files).contains(k) {
                let j = choose|j: int| 0 <= j < all_keys(files).len() && all_keys(files)[j] == k;
                if j < all_keys(before).len() {
                    assert(union_keys(before).contains(k));
                }
            }
            if union_keys(files).contains(k) {
                let (f, i) = choose|f: int, i: int|
                    0 <= f < files.len() && 0 <= i < files[f].len() && #[trigger] key_of(
                        files[f][i],
                    ) == k;
                if f < files.len() - 1 {
                    assert(key_of(before[f][i]) == k);
                    assert(union_keys(before).contains(k));
                    let j = choose|j: int|
                        0 <= j < all_keys(before).len() && all_keys(before)[j] == k;
                    assert(all_keys(files)[j] == k);
                } else {
                    assert(all_keys(files)[all_keys(before).len() + i] == k);
                }
            }
        }
    }
}

/// The table has one row for each key that occurs in any file, and each row
/// has one slot for each file.
pub proof fn lemma_table_size(files: Seq<Seq<EntryModel>>)
    ensures
        union_keys(files).finite(),
        compare_table(files).len() == union_keys(files).len(),
        forall|r: int|
            0 <= r < compare_table(files).len() ==> (#[trigger] compare_table(
                files,
            )[r]).per_file.len() == files.len(),
{
    let keys = distinct(all_keys(files));
    lemma_distinct(all_keys(files));
    lemma_all_keys(files);
    keys.unique_seq_to_set();
    assert(keys.to_set() =~= union_keys(files));
}

/// Each row of the table holds, for each file, the last entry that the file
/// has under the row's key; the row stands for a key that some file holds,
/// and its representative is the entry of the first file that holds it.
pub proof fn lemma_table_rows(files: Seq<Seq<EntryModel>>, r: int)
    requires
        0 <= r < compare_table(files).len(),
    ensures
        union_keys(files).contains(key_of(compare_table(files)[r].representative)),
        compare_table(files)[r].per_file == slots_of(
            files,
            key_of(compare_table(files)[r].representative),
        ),
        first_present(compare_table(files)[r].per_file) == Some(
            compare_table(files)[r].representative,
        ),
{
    let keys = distinct(all_keys(files));
    let k = keys[r];
    lemma_distinct(all_keys(files));
    lemma_all_keys(files);
    assert(union_keys(files).contains(k));
    let (f, i) = choose|f: int, i: int|
        0 <= f < files.len() && 0 <= i < files[f].len() && #[trigger] key_of(files[f][i]) == k;
    lemma_lookup_present(files[f], i);
    lemma_first_present(slots_of(files, k), f);
    lemma_first_present_sound(slots_of(files, k));
    let g = choose|g: int|
        0 <= g < slots_of(files, k).len() && slots_of(files, k)[g] == first_present(
            slots_of(files, k),
        );
    lemma_lookup_sound(files[g], k);
}

/// The first present entry is one of the slots.
pub proof fn lemma_first_present_sound(slots: Seq<Option<EntryModel>>)
    ensures
        first_present(slots) is Some ==> exists|g: int|
            0 <= g < slots.len() && slots[g] == first_present(slots),
    decreases slots.len(),
{
    if slots.len() > 0 {
        lemma_first_present_sound(slots.drop_last());
    }
}

/// A row in which every slot agrees with every other is hidden while only
/// the rows that differ are shown.
pub proof fn lemma_equal_row_hidden(row: RowModel, text: Seq<char>)
    requires
        forall|i: int, j: int|
            0 <= i < row.per_file.len() && 0 <= j < row.per_file.len() ==> slot_agrees(
                row.per_file[i],
                row.per_file[j],
            ),
    ensures
        !row_shown(row, text, true),
{
}

/// A row that one of two files holds and the other does not counts as
/// differing, and is shown wherever the filter lets it through.
pub proof fn lemma_one_sided_row_shown(row: RowModel, text: Seq<char>)
    requires
        row.per_file.len() == 2,
        row.per_file[0] is Some != row.per_file[1] is Some,
    ensures
        differs(row.per_file),
        row_shown(row, text, true) == slots_match(row.per_file, text),
{
}

} // verus!
