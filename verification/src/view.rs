//! What the screens show, as plain texts for the caller to paint.

use crate::compare::{row_models, slot_models, RowModel};
use crate::entry::{
    entry_models, opt_entry_model, table_text, value_text, EntryModel, TagEntry,
};
use crate::state::{fitted, App, DataDisplayMode, MainInput, MainState, Screen};
use crate::text::{
    decimal, decimal_text, hex, hex_text, lowercase, occurs_in, push_chars, repeat, repeated,
    str_contains, text_of, to_chars, to_lower,
};
use crate::visible::{
    entry_flags, indices, lemma_positions_sound, positions, row_flags, shown_entries, shown_rows,
};
use vstd::prelude::*;
use vstd::string::*;

verus! {

/// The part of `s` that a column of the given width shows when the view is
/// moved `x_offset` characters to the right. A text that does not fit is
/// cut and ends in three dots; a text that is moved begins with
/// `x_offset + 3` dots in place of as many characters.
pub open spec fn cut_text(s: Seq<char>, width: int, x_offset: int) -> Seq<char> {
    if x_offset >= s.len() && s.len() > 0 {
        repeated('.', (x_offset + 3) as nat)
    } else {
        let rest = if x_offset > s.len() {
            0
        } else {
            s.len() - x_offset
        };
        let room = if width < 2 {
            0
        } else {
            width - 2
        };
        let kept = x_offset + if width < 5 {
            0
        } else {
            width - 5
        };
        let cut = if rest >= room {
            (if kept < s.len() {
                s.take(kept)
            } else {
                s
            }) + "..."@
        } else {
            s
        };
        if x_offset == 0 {
            cut
        } else if x_offset + 3 >= cut.len() {
            repeated('.', (x_offset + 3) as nat)
        } else {
            repeated('.', (x_offset + 3) as nat) + cut.subrange(x_offset + 3, cut.len() as int)
        }
    }
}

/// Cuts a text for a column of the given width, with the view moved
/// `x_offset` characters to the right.
pub fn cut_string(s: String, width: u16, x_offset: u16) -> (r: String)
    ensures
        r@ == cut_text(s@, width as int, x_offset as int),
{
    let chars = to_chars(s.as_str());
    let len = chars.len();
    let offset = x_offset as usize;
    if offset >= len && len > 0 {
        return repeat('.', offset + 3);
    }
    let rest = len.saturating_sub(offset);
    let room = width.saturating_sub(2) as usize;
    let kept = offset + width.saturating_sub(5) as usize;
    let mut cut: Vec<char> = Vec::new();
    if rest >= room {
        let mut i: usize = 0;
        let upto = if kept < len {
            kept
        } else {
            len
        };
        while i < upto
            invariant
                i <= upto <= chars.len(),
                cut@ == chars@.take(i as int),
            decreases upto - i,
        {
            cut.push(chars[i]);
            i += 1;
        }
        cut.push('.');
        cut.push('.');
        cut.push('.');
        proof {
            reveal_strlit("...");
        }
    } else {
        cut = chars;
    }
    if offset == 0 {
        text_of(&cut, 0, cut.len())
    } else if offset + 3 >= cut.len() {
        repeat('.', offset + 3)
    } else {
        let mut r = repeat('.', offset + 3);
        push_chars(&mut r, &cut, offset + 3, cut.len());
        r
    }
}

/// Turns rows into columns: the result's column `c` holds, row by row, the
/// element `c` of each row. Elements beyond the length of the first row are
/// left out.
pub fn transpose2<T>(v: Vec<Vec<T>>) -> (r: Vec<Vec<T>>)
    requires
        v.len() > 0,
        forall|i: int| 0 <= i < v.len() ==> (#[trigger] v[i]).len() >= v[0].len(),
    ensures
        r.len() == v[0].len(),
        forall|c: int| 0 <= c < r.len() ==> (#[trigger] r[c]).len() == v.len(),
        forall|c: int, i: int| 0 <= c < r.len() && 0 <= i < v.len() ==> r[c][i] == v[i][c],
{
    let ghost orig = v@;
    let mut v = v;
    let n = v.len();
    let len = v[0].len();
    let mut rows: Vec<Vec<T>> = Vec::new();
    while v.len() > 0
        invariant
            n == orig.len(),
            v.len() + rows.len() == n,
            v@ == orig.take(v.len() as int),
            forall|j: int| 0 <= j < rows.len() ==> rows[j] == orig[n - 1 - j],
        decreases v.len(),
    {
        let row = v.pop().unwrap();
        rows.push(row);
    }
    let mut r: Vec<Vec<T>> = Vec::new();
    let mut c: usize = 0;
    while c < len
        invariant
            c <= len,
            r.len() == c,
            forall|d: int| 0 <= d < c ==> (#[trigger] r[d]).len() == 0,
        decreases len - c,
    {
        r.push(Vec::new());
        c += 1;
    }
    let mut i: usize = 0;
    while i < n
        invariant
            i <= n,
            n == orig.len(),
            len == orig[0].len(),
            forall|k: int| 0 <= k < orig.len() ==> (#[trigger] orig[k]).len() >= len,
            rows.len() == n - i,
            forall|j: int| 0 <= j < rows.len() ==> rows[j] == orig[n - 1 - j],
            r.len() == len,
            forall|d: int| 0 <= d < len ==> (#[trigger] r[d]).len() == i,
            forall|d: int, k: int| 0 <= d < len && 0 <= k < i ==> r[d][k] == orig[k][d],
        decreases n - i,
    {
        let mut row = rows.pop().unwrap();
        row.truncate(len);
        let mut c: usize = len;
        while c > 0
            invariant
                c <= len,
                i < n,
                n == orig.len(),
                orig[i as int].len() >= len,
                row@ == orig[i as int]@.take(c as int),
                r.len() == len,
                forall|d: int| 0 <= d < c ==> (#[trigger] r[d]).len() == i,
                forall|d: int| c <= d < len ==> (#[trigger] r[d]).len() == i + 1,
                forall|d: int| c <= d < len ==> r[d][i as int] == orig[i as int][d],
                forall|d: int, k: int| 0 <= d < len && 0 <= k < i ==> r[d][k] == orig[k][d],
            decreases c,
        {
            c -= 1;
            let x = row.pop().unwrap();
            r[c].push(x);
        }
        i += 1;
    }
    r
}


/// The colour of a line.
#[derive(Debug, Clone, Copy, PartialEq, Eq, Structural)]
pub enum Tone {
    Plain,
    /// The field reports a warning.
    Warning,
    /// The field reports an error.
    Error,
    /// The field holds a binary payload.
    Binary,
}

/// What stands in a value column.
#[derive(Debug)]
pub enum Cell {
    /// A text, cut for the column.
    Text(String),
    /// A binary payload of this many bytes, for the caller to put in words.
    Binary(u64),
}

/// The mathematical model of a [`Cell`].
#[verifier::ext_equal]
pub enum CellModel {
    Text(Seq<char>),
    Binary(u64),
}

impl View for Cell {
    type V = CellModel;

    open spec fn view(&self) -> CellModel {
        match self {
            Cell::Text(t) => CellModel::Text(t@),
            Cell::Binary(n) => CellModel::Binary(*n),
        }
    }
}

/// One line of the list of a single file.
#[derive(Debug)]
pub struct MainLine {
    pub key: String,
    pub value: Cell,
    pub tone: Tone,
    /// The cursor stands on this line.
    pub selected: bool,
}

/// The mathematical model of a [`MainLine`].
#[verifier::ext_equal]
pub struct MainLineModel {
    pub key: Seq<char>,
    pub value: CellModel,
    pub tone: Tone,
    pub selected: bool,
}

impl View for MainLine {
    type V = MainLineModel;

    open spec fn view(&self) -> MainLineModel {
        MainLineModel {
            key: self.key@,
            value: self.value@,
            tone: self.tone,
            selected: self.selected,
        }
    }
}

/// The list of a single file as it is shown.
#[derive(Debug)]
pub struct MainView {
    pub lines: Vec<MainLine>,
    /// The list is longer than the viewport.
    pub need_scrollbar: bool,
}

/// The models of the lines.
pub open spec fn main_line_models(lines: Seq<MainLine>) -> Seq<MainLineModel> {
    Seq::new(lines.len(), |i: int| lines[i]@)
}

/// The colour that the short name of a field asks for.
pub open spec fn name_tone(short_name: Seq<char>) -> Tone {
    if occurs_in(lowercase(short_name), "warning"@) {
        Tone::Warning
    } else if occurs_in(lowercase(short_name), "error"@) {
        Tone::Error
    } else {
        Tone::Plain
    }
}

/// The name under which an entry is listed.
pub open spec fn listed_name(e: EntryModel, mode: DataDisplayMode) -> Seq<char> {
    if mode.short {
        e.short_name
    } else {
        e.name
    }
}

/// The text that shows the value of an entry in the list.
pub open spec fn listed_value(e: EntryModel, mode: DataDisplayMode) -> Seq<char> {
    if mode.numerical && e.num is Some {
        value_text(e.num.unwrap())
    } else {
        value_text(e.val)
    }
}

/// What stands for an entry in a value column of the given width.
pub open spec fn entry_cell(e: EntryModel, mode: DataDisplayMode, width: int, x_offset: int)
    -> CellModel {
    match e.binary_size {
        Some(n) => CellModel::Binary(n),
        None => CellModel::Text(cut_text(listed_value(e, mode), width, x_offset)),
    }
}

/// The line that shows an entry in the list of a single file.
pub open spec fn main_line(
    e: EntryModel,
    mode: DataDisplayMode,
    key_width: int,
    val_width: int,
    x_offset: int,
    selected: bool,
) -> MainLineModel {
    MainLineModel {
        key: cut_text(listed_name(e, mode), key_width, x_offset),
        value: entry_cell(e, mode, val_width, x_offset),
        tone: if e.binary_size is Some {
            Tone::Binary
        } else {
            name_tone(e.short_name)
        },
        selected,
    }
}

/// The entries of the active file, or none where no file is active.
pub open spec fn active_entries(s: MainState) -> Seq<EntryModel> {
    if s.current_file_index < s.et_data.len() {
        entry_models(s.et_data[s.current_file_index as int].tag_entries@)
    } else {
        Seq::empty()
    }
}

/// The lines that show the entries of the active file which pass the
/// filter, with the cursor at `cursor`.
pub open spec fn main_lines(s: MainState, cursor: int, key_width: int, val_width: int) -> Seq<
    MainLineModel,
> {
    let entries = active_entries(s);
    let shown = positions(entry_flags(entries, s.filter@));
    Seq::new(
        shown.len(),
        |k: int|
            main_line(
                entries[shown[k]],
                s.data_display_mode,
                key_width,
                val_width,
                s.scroll_offset.1 as int,
                k == cursor,
            ),
    )
}

/// The room for rows in a frame of the given height: all but the two rows
/// of the border.
pub open spec fn rows_in(height: u16) -> u16 {
    if height < 2 {
        0
    } else {
        (height - 2) as u16
    }
}

/// The colour that the short name of a field asks for.
pub fn tone_of(short_name: &str) -> (r: Tone)
    ensures
        r == name_tone(short_name@),
{
    let lowered = to_lower(short_name);
    if str_contains(lowered.as_str(), "warning") {
        Tone::Warning
    } else if str_contains(lowered.as_str(), "error") {
        Tone::Error
    } else {
        Tone::Plain
    }
}

/// What stands for an entry in a value column of the given width.
pub fn cell_of(e: &TagEntry, mode: DataDisplayMode, width: u16, x_offset: u16) -> (r: Cell)
    ensures
        r@ == entry_cell(e@, mode, width as int, x_offset as int),
{
    match e.binary_size {
        Some(n) => Cell::Binary(n),
        None => {
            let text = match &e.num {
                Some(n) => if mode.numerical {
                    n.to_string()
                } else {
                    e.val.to_string()
                },
                None => e.val.to_string(),
            };
            Cell::Text(cut_string(text, width, x_offset))
        },
    }
}

/// The list of the active file for a frame of the given height, with
/// columns of the given widths. The viewport is fitted to the list on the
/// way.
pub fn draw_main(state: &mut MainState, key_width: u16, val_width: u16, height: u16) -> (view:
    MainView)
    ensures
        fitted(*old(state), *final(state), view.lines.len(), rows_in(height)),
        main_line_models(view.lines@) == main_lines(
            *old(state),
            final(state).cursor as int,
            key_width as int,
            val_width as int,
        ),
        view.need_scrollbar == (rows_in(height) < view.lines.len()),
{
    let room = height.saturating_sub(2);
    let mut lines: Vec<MainLine> = Vec::new();
    if state.current_file_index < state.et_data.len() {
        let shown = shown_entries(
            &state.et_data[state.current_file_index].tag_entries,
            state.filter.as_str(),
        );
        state.fit_viewport(shown.len(), room);
        let entries = &state.et_data[state.current_file_index].tag_entries;
        let ghost models = entry_models(entries@);
        let ghost wanted = main_lines(
            *old(state),
            state.cursor as int,
            key_width as int,
            val_width as int,
        );
        proof {
            lemma_positions_sound(entry_flags(models, state.filter@));
        }
        let mut k: usize = 0;
        while k < shown.len()
            invariant
                k <= shown.len(),
                state.current_file_index < state.et_data.len(),
                entries == &state.et_data[state.current_file_index as int].tag_entries,
                models == entry_models(entries@),
                indices(shown@) == positions(entry_flags(models, state.filter@)),
                forall|j: int|
                    0 <= j < shown.len() ==> 0 <= #[trigger] indices(shown@)[j] < entries.len(),
                wanted.len() == shown.len(),
                forall|j: int|
                    0 <= j < shown.len() ==> #[trigger] wanted[j] == main_line(
                        models[indices(shown@)[j]],
                        state.data_display_mode,
                        key_width as int,
                        val_width as int,
                        state.scroll_offset.1 as int,
                        j == state.cursor,
                    ),
                lines.len() == k,
                forall|j: int| 0 <= j < k ==> (#[trigger] lines[j])@ == wanted[j],
            decreases shown.len() - k,
        {
            assert(indices(shown@)[k as int] == shown[k as int]);
            let e = &entries[shown[k]];
            let name = if state.data_display_mode.short {
                e.short_name.clone()
            } else {
                e.name.clone()
            };
            let tone = if e.binary_size.is_some() {
                Tone::Binary
            } else {
                tone_of(e.short_name.as_str())
            };
            lines.push(
                MainLine {
                    key: cut_string(name, key_width, state.scroll_offset.1),
                    value: cell_of(e, state.data_display_mode, val_width, state.scroll_offset.1),
                    tone,
                    selected: k == state.cursor,
                },
            );
            k += 1;
        }
    } else {
        state.fit_viewport(0, room);
    }
    let need_scrollbar = (room as usize) < lines.len();
    MainView { lines, need_scrollbar }
}


/// The first column of one line of the side-by-side list.
#[derive(Debug)]
pub struct CompareLine {
    pub key: String,
    pub tone: Tone,
    /// The cursor stands on this line.
    pub selected: bool,
}

/// The mathematical model of a [`CompareLine`].
#[verifier::ext_equal]
pub struct CompareLineModel {
    pub key: Seq<char>,
    pub tone: Tone,
    pub selected: bool,
}

impl View for CompareLine {
    type V = CompareLineModel;

    open spec fn view(&self) -> CompareLineModel {
        CompareLineModel { key: self.key@, tone: self.tone, selected: self.selected }
    }
}

/// The side-by-side list as it is shown.
#[derive(Debug)]
pub struct CompareView {
    /// The first column, line by line.
    pub lines: Vec<CompareLine>,
    /// One column for each file, each with one cell for each line.
    pub columns: Vec<Vec<Cell>>,
    /// The list is longer than the viewport.
    pub need_scrollbar: bool,
}

/// Some file's entry in the row holds a binary payload.
pub open spec fn some_binary(slots: Seq<Option<EntryModel>>) -> bool {
    exists|i: int| 0 <= i < slots.len() && holds_binary(#[trigger] slots[i])
}

/// The slot holds an entry with a binary payload.
pub open spec fn holds_binary(slot: Option<EntryModel>) -> bool {
    slot matches Some(e) && e.binary_size is Some
}

/// What stands for a slot in a value column of the given width.
pub open spec fn slot_cell(
    slot: Option<EntryModel>,
    mode: DataDisplayMode,
    width: int,
    x_offset: int,
) -> CellModel {
    match slot {
        Some(e) => entry_cell(e, mode, width, x_offset),
        None => CellModel::Text(cut_text(Seq::empty(), width, x_offset)),
    }
}

/// The slot of a row for the file `f`; an empty slot where the row has
/// none for it.
pub open spec fn slot_at(row: RowModel, f: int) -> Option<EntryModel> {
    if 0 <= f < row.per_file.len() {
        row.per_file[f]
    } else {
        None
    }
}

/// The first column of the line that shows a row.
pub open spec fn compare_line(
    row: RowModel,
    mode: DataDisplayMode,
    key_width: int,
    x_offset: int,
    selected: bool,
) -> CompareLineModel {
    CompareLineModel {
        key: cut_text(listed_name(row.representative, mode), key_width, x_offset),
        tone: if some_binary(row.per_file) {
            Tone::Binary
        } else {
            name_tone(row.representative.short_name)
        },
        selected,
    }
}

/// Are only the rows that differ shown?
pub open spec fn only_diff(s: MainState) -> bool {
    s.compare_data.mode == Some(true)
}

/// The positions of the rows that the side-by-side list shows.
pub open spec fn compared_positions(s: MainState) -> Seq<int> {
    positions(row_flags(row_models(s.compare_data.data@), s.filter@, only_diff(s)))
}

/// Does some entry of the row hold a binary payload?
fn any_binary(slots: &Vec<Option<TagEntry>>) -> (r: bool)
    ensures
        r == some_binary(slot_models(slots@)),
{
    let ghost models = slot_models(slots@);
    let mut i: usize = 0;
    while i < slots.len()
        invariant
            i <= slots.len(),
            models == slot_models(slots@),
            forall|j: int| 0 <= j < i ==> !holds_binary(#[trigger] models[j]),
        decreases slots.len() - i,
    {
        let hit = match &slots[i] {
            Some(e) => e.binary_size.is_some(),
            None => false,
        };
        assert(hit == holds_binary(models[i as int]));
        if hit {
            return true;
        }
        i += 1;
    }
    false
}

/// The cells of one row: one for each of `files` files.
fn row_cells(
    slots: &Vec<Option<TagEntry>>,
    files: usize,
    mode: DataDisplayMode,
    width: u16,
    x_offset: u16,
) -> (r: Vec<Cell>)
    ensures
        r.len() == files,
        forall|f: int|
            0 <= f < files ==> (#[trigger] r[f])@ == slot_cell(
                if f < slots.len() {
                    opt_entry_model(slots[f])
                } else {
                    None
                },
                mode,
                width as int,
                x_offset as int,
            ),
{
    let mut r: Vec<Cell> = Vec::new();
    let mut f: usize = 0;
    while f < files
        invariant
            f <= files,
            r.len() == f,
            forall|g: int|
                0 <= g < f ==> (#[trigger] r[g])@ == slot_cell(
                    if g < slots.len() {
                        opt_entry_model(slots[g])
                    } else {
                        None
                    },
                    mode,
                    width as int,
                    x_offset as int,
                ),
        decreases files - f,
    {
        let cell = if f < slots.len() {
            match &slots[f] {
                Some(e) => cell_of(e, mode, width, x_offset),
                None => Cell::Text(cut_string(String::new(), width, x_offset)),
            }
        } else {
            Cell::Text(cut_string(String::new(), width, x_offset))
        };
        r.push(cell);
        f += 1;
    }
    r
}

/// The side-by-side list for a frame of the given height, with a first
/// column and value columns of the given widths. The viewport is fitted to
/// the list on the way. Each file has its column, and each column has one
/// cell for each line.
pub fn draw_main_compare(
    state: &mut MainState,
    key_width: u16,
    val_width: u16,
    height: u16,
) -> (view: CompareView)
    ensures
        fitted(*old(state), *final(state), view.lines.len(), rows_in(height)),
        view.lines.len() == compared_positions(*old(state)).len(),
        forall|k: int|
            0 <= k < view.lines.len() ==> (#[trigger] view.lines[k])@ == compare_line(
                row_models(old(state).compare_data.data@)[compared_positions(*old(state))[k]],
                old(state).data_display_mode,
                key_width as int,
                old(state).scroll_offset.1 as int,
                k == final(state).cursor,
            ),
        view.columns.len() == old(state).et_data.len(),
        forall|f: int|
            0 <= f < view.columns.len() ==> (#[trigger] view.columns[f]).len()
                == view.lines.len(),
        forall|f: int, k: int|
            0 <= f < view.columns.len() && 0 <= k < view.lines.len() ==> view.columns[f][k]@
                == slot_cell(
                slot_at(
                    row_models(old(state).compare_data.data@)[compared_positions(
                        *old(state),
                    )[k]],
                    f,
                ),
                old(state).data_display_mode,
                val_width as int,
                old(state).scroll_offset.1 as int,
            ),
        view.need_scrollbar == (rows_in(height) < view.lines.len()),
{
    let room = height.saturating_sub(2);
    let diff = match state.compare_data.mode {
        Some(d) => d,
        None => false,
    };
    let shown = shown_rows(&state.compare_data.data, state.filter.as_str(), diff);
    state.fit_viewport(shown.len(), room);
    let files = state.et_data.len();
    let rows = &state.compare_data.data;
    let ghost models = row_models(rows@);
    let ghost places = compared_positions(*old(state));
    proof {
        lemma_positions_sound(row_flags(models, state.filter@, diff));
    }
    let mut lines: Vec<CompareLine> = Vec::new();
    let mut cells: Vec<Vec<Cell>> = Vec::new();
    let mut k: usize = 0;
    while k < shown.len()
        invariant
            k <= shown.len(),
            files == state.et_data.len(),
            rows == &state.compare_data.data,
            models == row_models(rows@),
            places == indices(shown@),
            forall|j: int| 0 <= j < shown.len() ==> 0 <= #[trigger] places[j] < rows.len(),
            lines.len() == k,
            cells.len() == k,
            forall|j: int|
                0 <= j < k ==> (#[trigger] lines[j])@ == compare_line(
                    models[places[j]],
                    state.data_display_mode,
                    key_width as int,
                    state.scroll_offset.1 as int,
                    j == state.cursor,
                ),
            forall|j: int| 0 <= j < k ==> (#[trigger] cells[j]).len() == files,
            forall|j: int, f: int|
                0 <= j < k && 0 <= f < files ==> cells[j][f]@ == slot_cell(
                    slot_at(models[places[j]], f),
                    state.data_display_mode,
                    val_width as int,
                    state.scroll_offset.1 as int,
                ),
        decreases shown.len() - k,
    {
        let row = &rows[shown[k]];
        let name = if state.data_display_mode.short {
            row.0.short_name.clone()
        } else {
            row.0.name.clone()
        };
        let tone = if any_binary(&row.1) {
            Tone::Binary
        } else {
            tone_of(row.0.short_name.as_str())
        };
        lines.push(
            CompareLine {
                key: cut_string(name, key_width, state.scroll_offset.1),
                tone,
                selected: k == state.cursor,
            },
        );
        let line_cells = row_cells(
            &row.1,
            files,
            state.data_display_mode,
            val_width,
            state.scroll_offset.1,
        );
        assert forall|f: int| 0 <= f < files implies line_cells[f]@ == slot_cell(
            slot_at(models[places[k as int]], f),
            state.data_display_mode,
            val_width as int,
            state.scroll_offset.1 as int,
        ) by {}
        cells.push(line_cells);
        k += 1;
    }
    let need_scrollbar = (room as usize) < lines.len();
    let columns = if cells.len() == 0 {
        let mut empty: Vec<Vec<Cell>> = Vec::new();
        let mut f: usize = 0;
        while f < files
            invariant
                f <= files,
                empty.len() == f,
                forall|g: int| 0 <= g < f ==> (#[trigger] empty[g]).len() == 0,
            decreases files - f,
        {
            empty.push(Vec::new());
            f += 1;
        }
        empty
    } else {
        transpose2(cells)
    };
    CompareView { lines, columns, need_scrollbar }
}

/// The title of a file's column of the given width: the name of the file,
/// or, where it is too long, a star and the end of the name.
pub open spec fn column_title_text(file_name: Seq<char>, width: int) -> Seq<char> {
    if width + 2 >= file_name.len() {
        file_name
    } else {
        seq!['*'] + file_name.skip(
            if width < 2 {
                file_name.len() as int
            } else {
                file_name.len() - width + 2
            },
        )
    }
}

/// The title of a file's column of the given width.
pub fn column_title(file_name: &str, width: u16) -> (r: String)
    ensures
        r@ == column_title_text(file_name@, width as int),
{
    let chars = to_chars(file_name);
    if width as usize + 2 >= chars.len() {
        text_of(&chars, 0, chars.len())
    } else {
        let mut r = repeat('*', 1);
        let from = if width < 2 {
            chars.len()
        } else {
            chars.len() - (width as usize - 2)
        };
        push_chars(&mut r, &chars, from, chars.len());
        r
    }
}


/// What the details pane shows of the selected entry.
#[derive(Debug)]
pub struct Details {
    pub title: String,
    pub name: String,
    pub id: String,
    pub family: String,
    pub value: String,
    /// The value was too long and is shown in part.
    pub value_cut: bool,
    pub numeric: String,
    /// The numeric value was too long and is shown in part.
    pub numeric_cut: bool,
    pub index: Option<u64>,
    /// The entry holds a binary payload that can be extracted.
    pub binary: bool,
}

/// The part of a value that a pane of the given width shows: all of it, or
/// its first `3 * width` characters where it has more than `5 * width`.
pub open spec fn long_part(text: Seq<char>, width: int) -> Seq<char> {
    if text.len() > width * 5 {
        text.take(width * 3)
    } else {
        text
    }
}

/// The text that shows the tag id in the details pane.
pub open spec fn details_id(id: Option<u64>) -> Seq<char> {
    match id {
        Some(n) => decimal_text(n as nat) + " ("@ + hex_text(n as nat) + ")"@,
        None => "[Unknown]"@,
    }
}

/// `d` shows the entry `e` in a pane of the given width.
pub open spec fn details_of(d: Details, e: EntryModel, width: int) -> bool {
    let numeric = value_text(
        match e.num {
            Some(n) => n,
            None => e.val,
        },
    );
    &&& d.title@ == " Details ["@ + e.short_name + "] "@
    &&& d.name@ == e.name
    &&& d.id@ == details_id(e.id)
    &&& d.family@ == table_text(e.table)
    &&& d.value@ == long_part(value_text(e.val), width)
    &&& d.value_cut == (value_text(e.val).len() > width * 5)
    &&& d.numeric@ == long_part(numeric, width)
    &&& d.numeric_cut == (numeric.len() > width * 5)
    &&& d.index == e.index
    &&& d.binary == e.binary_size is Some
}

/// The part of a value that a pane of the given width shows, and whether
/// that is less than all of it.
fn long_value(text: String, width: u16) -> (r: (String, bool))
    ensures
        r.0@ == long_part(text@, width as int),
        r.1 == (text@.len() > width * 5),
{
    let chars = to_chars(text.as_str());
    if chars.len() > width as usize * 5 {
        (text_of(&chars, 0, width as usize * 3), true)
    } else {
        (text, false)
    }
}

/// What the details pane of the given width shows: the selected entry, or
/// nothing where no entry is selected.
pub fn draw_details(state: &MainState, width: u16) -> (r: Option<Details>)
    ensures
        r is Some <==> state.selected() is Some,
        r matches Some(d) ==> details_of(d, state.selected().unwrap()@, width as int),
{
    match state.selected_entry() {
        None => None,
        Some(e) => {
            let mut title = " Details [".to_owned();
            title.append(e.short_name.as_str());
            title.append("] ");
            let id = match e.id {
                Some(n) => {
                    let mut id = decimal(n);
                    id.append(" (");
                    id.append(hex(n).as_str());
                    id.append(")");
                    id
                },
                None => "[Unknown]".to_owned(),
            };
            let (value, value_cut) = long_value(e.val.to_string(), width);
            let shown = match &e.num {
                Some(n) => n.to_string(),
                None => e.val.to_string(),
            };
            let (numeric, numeric_cut) = long_value(shown, width);
            Some(
                Details {
                    title,
                    name: e.name.clone(),
                    id,
                    family: e.table_to_string(),
                    value,
                    value_cut,
                    numeric,
                    numeric_cut,
                    index: e.index,
                    binary: e.binary_size.is_some(),
                },
            )
        },
    }
}

/// The title of the screen in a frame of the given width: `Compare Mode`
/// side by side, else the name of the active file, of which a frame that
/// is too narrow shows three dots and the end.
pub open spec fn title_text(s: MainState, width: int) -> Seq<char> {
    let name = s.current_file@;
    let room = if width < 2 {
        0
    } else {
        width - 2
    };
    if s.compare_data.mode is Some {
        "Compare Mode"@
    } else if name.len() >= room {
        "..."@ + name.skip(
            if name.len() - room + 3 > name.len() {
                name.len() as int
            } else {
                name.len() - room + 3
            },
        )
    } else {
        name
    }
}

/// The title of the screen in a frame of the given width.
pub fn draw_filename(app: &App, width: u16) -> (r: String)
    ensures
        r@ == title_text(app.main_state, width as int),
{
    if app.main_state.compare_data.mode.is_some() {
        return "Compare Mode".to_owned();
    }
    let chars = to_chars(app.main_state.current_file.as_str());
    let room = width.saturating_sub(2) as usize;
    if chars.len() >= room {
        let from = if room < 3 {
            chars.len()
        } else {
            chars.len() - room + 3
        };
        let mut r = "...".to_owned();
        push_chars(&mut r, &chars, from, chars.len());
        r
    } else {
        text_of(&chars, 0, chars.len())
    }
}

/// The end of a file's name that fits a tab of the given width: the last
/// `width - 3` characters, and one character in tabs narrower than that.
pub open spec fn tab_name(file_name: Seq<char>, width: int) -> Seq<char> {
    let taken = if width < 4 {
        1
    } else {
        width - 3
    };
    if file_name.len() <= taken {
        file_name
    } else {
        file_name.skip(file_name.len() - taken)
    }
}

/// The end of a file's name that fits a tab of the given width.
pub fn tab_text(file_name: &str, width: u16) -> (r: String)
    ensures
        r@ == tab_name(file_name@, width as int),
{
    let chars = to_chars(file_name);
    let taken = width.saturating_sub(4) as usize + 1;
    let from = chars.len().saturating_sub(taken);
    let r = text_of(&chars, from, chars.len());
    r
}

/// What the line of hints shows.
#[derive(Debug)]
pub enum Hints {
    /// A message: good news in `Ok`, a complaint in `Err`.
    Message(Result<String, String>),
    /// The keys of the main screen.
    MainKeys,
    /// The keys that end the typing of a filter.
    FilterKeys,
    /// The keys that leave the help screen.
    HelpKeys,
    /// The keys of the screen that asks whether to read directories in
    /// depth.
    StartKeys,
    /// No hint.
    Empty,
}

/// The hints that belong to a screen.
pub open spec fn screen_hints(screen: Screen) -> Hints {
    match screen {
        Screen::Main(MainInput::Main) => Hints::MainKeys,
        Screen::Main(MainInput::Filter) => Hints::FilterKeys,
        Screen::Main(MainInput::BinarySaveDialog) => Hints::Empty,
        Screen::Help => Hints::HelpKeys,
        Screen::MiltipleFilesStart => Hints::StartKeys,
    }
}

/// What the line of hints shows: the message that waits, which is taken
/// from the session, or else the hints that belong to the screen.
pub fn draw_hints(app: &mut App) -> (r: Hints)
    ensures
        *final(app) == (App {
            main_state: MainState { log_msg: None, ..old(app).main_state },
            ..*old(app)
        }),
        match old(app).main_state.log_msg {
            Some(m) => r == Hints::Message(m),
            None => r == screen_hints(old(app).screen),
        },
{
    match app.main_state.log_msg.take() {
        Some(m) => Hints::Message(m),
        None => match app.screen {
            Screen::Main(MainInput::Main) => Hints::MainKeys,
            Screen::Main(MainInput::Filter) => Hints::FilterKeys,
            Screen::Main(MainInput::BinarySaveDialog) => Hints::Empty,
            Screen::Help => Hints::HelpKeys,
            Screen::MiltipleFilesStart => Hints::StartKeys,
        },
    }
}

/// The panes that a screen is made of.
#[derive(Debug, Clone, Copy, PartialEq, Eq, Structural)]
pub enum Panes {
    /// The help text.
    Help,
    /// The question whether to read directories in depth.
    Start,
    /// The main screen.
    Main {
        /// One tab for each file.
        tabs: bool,
        /// The details of the selected entry, beside the list.
        details: bool,
        /// The share of the list beside the details: the list takes this
        /// many parts, the details one.
        list_share: u16,
        /// The filter, above the list.
        filter: bool,
        /// Several files side by side in place of the list of one file.
        compare: bool,
        /// The save dialog, above all.
        dialog: bool,
    },
}

/// The panes of the screen of an application.
pub open spec fn panes_of(app: App) -> Panes {
    let s = app.main_state;
    match app.screen {
        Screen::Help => Panes::Help,
        Screen::MiltipleFilesStart => Panes::Start,
        Screen::Main(input) => Panes::Main {
            tabs: s.et_data.len() > 1 && s.compare_data.mode is None,
            details: s.show_details,
            list_share: if s.compare_data.mode is Some {
                3
            } else {
                2
            },
            filter: s.filter@.len() > 0 || input == MainInput::Filter,
            compare: s.et_data.len() > 1 && s.compare_data.mode is Some,
            dialog: s.binary_save_dialog is Some,
        },
    }
}

/// The panes of the screen.
pub fn ui(app: &App) -> (r: Panes)
    ensures
        r == panes_of(*app),
{
    match app.screen {
        Screen::Help => Panes::Help,
        Screen::MiltipleFilesStart => Panes::Start,
        Screen::Main(input) => {
            let compare = app.main_state.compare_data.mode.is_some();
            let typing = match input {
                MainInput::Filter => true,
                _ => false,
            };
            Panes::Main {
                tabs: app.main_state.is_multiple_files() && !compare,
                details: app.main_state.show_details,
                list_share: if compare {
                    3
                } else {
                    2
                },
                filter: !app.main_state.filter.as_str().is_empty() || typing,
                compare: app.main_state.is_multiple_files() && compare,
                dialog: app.main_state.binary_save_dialog.is_some(),
            }
        },
    }
}

} // verus!
