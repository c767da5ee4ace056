//! The session: the loaded files, the filter, the mode flags and the
//! viewport, with the one query that resolves the selection.

use crate::compare::{compare_rows, compare_table, file_models, row_models, CompareData};
use crate::entry::{binary_arguments, entry_models, ExiftoolEntry, TagEntry};
use crate::ingest::LoadError;
use crate::text::{text_of, texts, to_chars};
use crate::visible::{
    entry_flags, lemma_positions_sound, positions, row_flags, shown_entries, shown_rows,
};
use vstd::prelude::*;
use vstd::string::*;

verus! {

/// What the keys are typed into while the main screen is shown.
#[derive(Debug, Clone, Copy, PartialEq, Eq, Structural)]
pub enum MainInput {
    Main,
    Filter,
    BinarySaveDialog,
}

/// The dialog that asks where a binary payload is to be saved.
#[derive(Debug)]
pub struct BinarySaveDialog {
    pub fname: String,
    pub fext: String,
    pub status: Result<String, String>,
    pub editing_fname: bool,
}

/// Short or long names, readable or numeric values.
#[derive(Debug, Clone, Copy, PartialEq, Eq, Structural)]
pub struct DataDisplayMode {
    pub short: bool,
    pub numerical: bool,
}

/// The screen that is shown.
#[derive(Debug, Clone, Copy, PartialEq, Eq, Structural)]
pub enum Screen {
    Main(MainInput),
    Help,
    MiltipleFilesStart,
}

/// The state of a session.
pub struct MainState {
    /// The file whose entries are shown.
    pub current_file: String,
    pub show_details: bool,
    pub binary_save_dialog: Option<BinarySaveDialog>,
    pub filter: String,
    /// The number of rows shown when the viewport was last brought up to
    /// date.
    pub num_entries_shown: usize,
    pub et_data: Vec<ExiftoolEntry>,
    pub current_file_index: usize,
    pub data_display_mode: DataDisplayMode,
    /// Vertical and horizontal scroll offset.
    pub scroll_offset: (u16, u16),
    pub cursor: usize,
    pub log_msg: Option<Result<String, String>>,
    /// The paths that are still to be read.
    pub multiple_files_input: Option<Vec<String>>,
    pub compare_data: CompareData,
}

/// The number of rows that stay in reach of the scroll offset at the end
/// of the list: the offset never passes the row this far from the end.
pub const SCROLL_MARGIN: usize = 5;

/// The size of a step, whatever its direction.
pub open spec fn magnitude(delta: i8) -> int {
    if delta < 0 {
        -(delta as int)
    } else {
        delta as int
    }
}

/// The position of the last row of a list of `shown` rows, and of the
/// first where the list is empty.
pub open spec fn last_row(shown: usize) -> int {
    if shown == 0 {
        0
    } else {
        shown - 1
    }
}

/// The cursor after a step of `delta` in a list of `shown` rows: the row
/// `delta` rows on, but no row before the first and none after the last,
/// whichever way the step goes and wherever the cursor stood.
pub open spec fn moved_cursor(cursor: usize, delta: i8, shown: usize) -> int {
    if cursor + delta < 0 {
        0
    } else if cursor + delta > last_row(shown) {
        last_row(shown)
    } else {
        cursor + delta
    }
}

/// A scroll offset after a step of `delta`: it stops at both ends of its
/// range.
pub open spec fn moved_offset(offset: u16, delta: i8) -> int {
    if offset + delta < 0 {
        0
    } else if offset + delta > u16::MAX {
        u16::MAX as int
    } else {
        offset + delta
    }
}

/// A position as a scroll offset: the largest offset stands for all
/// positions beyond it.
pub open spec fn as_offset(n: int) -> int {
    if n > u16::MAX {
        u16::MAX as int
    } else {
        n
    }
}

/// The cursor brought into a list of `shown` rows.
pub open spec fn clamped_cursor(cursor: usize, shown: usize) -> int {
    if shown == 0 {
        0
    } else if cursor < shown {
        cursor as int
    } else {
        shown - 1
    }
}

/// The vertical offset that brings the cursor into a viewport of `height`
/// rows, held back by the margin at the end of a list of `shown` rows.
pub open spec fn scrolled_into_view(cursor: int, offset: int, height: int, shown: int) -> int {
    let wanted = if cursor < offset {
        as_offset(cursor)
    } else if cursor >= offset + height {
        as_offset(cursor - height + 1)
    } else {
        offset
    };
    let limit = as_offset(
        if shown < SCROLL_MARGIN {
            0
        } else {
            shown - SCROLL_MARGIN
        },
    );
    if wanted < limit {
        wanted
    } else {
        limit
    }
}

/// `after` is `before` with the viewport fitted to a list of `shown` rows
/// and a frame with room for `height` rows.
pub open spec fn fitted(before: MainState, after: MainState, shown: usize, height: u16) -> bool {
    &&& after.num_entries_shown == shown
    &&& after.cursor == clamped_cursor(before.cursor, shown)
    &&& after.scroll_offset.0 == scrolled_into_view(
        after.cursor as int,
        before.scroll_offset.0 as int,
        height as int,
        shown as int,
    )
    &&& after.scroll_offset.1 == before.scroll_offset.1
    &&& after == (MainState {
        num_entries_shown: after.num_entries_shown,
        cursor: after.cursor,
        scroll_offset: after.scroll_offset,
        ..before
    })
}

/// `after` is `before` without the file that was active: the file that
/// followed it is the active one, or, where the last file was dropped, the
/// file before it; the table is that of the files that are left, and
/// nothing else has changed.
pub open spec fn without_active_file(before: MainState, after: MainState) -> bool {
    &&& after.et_data@ == before.et_data@.remove(before.current_file_index as int)
    &&& after.current_file_index == if before.current_file_index + 1 == before.et_data.len() {
        before.current_file_index - 1
    } else {
        before.current_file_index as int
    }
    &&& after.loaded()
    &&& after.compare_data.mode is None
    &&& after.show_details == before.show_details
    &&& after.binary_save_dialog == before.binary_save_dialog
    &&& after.filter == before.filter
    &&& after.num_entries_shown == before.num_entries_shown
    &&& after.data_display_mode == before.data_display_mode
    &&& after.scroll_offset == before.scroll_offset
    &&& after.cursor == before.cursor
    &&& after.log_msg == before.log_msg
    &&& after.multiple_files_input == before.multiple_files_input
}

/// The position after `i` among `n` files; after the last comes the first.
pub open spec fn next_index(i: usize, n: usize) -> int {
    if i + 1 < n {
        i + 1
    } else {
        0
    }
}

/// The position before `i` among `n` files; before the first comes the
/// last.
pub open spec fn prev_index(i: usize, n: usize) -> int {
    if 0 < i <= n {
        i - 1
    } else {
        n - 1
    }
}

/// `after` is `before` with the file at `index` as the active one.
pub open spec fn turned_to(before: MainState, after: MainState, index: int) -> bool {
    &&& after.current_file_index == index
    &&& after.current_file@ == before.et_data[index].file_name@
    &&& after == (MainState {
        current_file_index: after.current_file_index,
        current_file: after.current_file,
        ..before
    })
}

/// `after` is `before` with the files of `et_data` taken in: they are the
/// loaded files, the first of them is the active one and gives the number
/// of rows, the table is theirs, the viewport is at the top, no paths wait
/// any more, and nothing else has changed.
pub open spec fn took_in(before: MainState, after: MainState, et_data: Vec<ExiftoolEntry>) -> bool {
    &&& after.loaded()
    &&& after.et_data == et_data
    &&& after.current_file_index == 0
    &&& after.num_entries_shown == et_data[0].tag_entries.len()
    &&& after.cursor == 0
    &&& after.scroll_offset == (0u16, 0u16)
    &&& after.multiple_files_input is None
    &&& after.show_details == before.show_details
    &&& after.binary_save_dialog == before.binary_save_dialog
    &&& after.filter == before.filter
    &&& after.data_display_mode == before.data_display_mode
    &&& after.log_msg == before.log_msg
    &&& after.compare_data.mode == before.compare_data.mode
}

/// The machine integer for a step's size.
fn step_size(delta: i8) -> (m: u16)
    ensures
        m == magnitude(delta),
{
    if delta < 0 {
        (-(delta as i16)) as u16
    } else {
        delta as u16
    }
}

/// A position as a scroll offset.
fn to_offset(n: usize) -> (r: u16)
    ensures
        r == as_offset(n as int),
{
    if n > 0xFFFF {
        0xFFFF
    } else {
        n as u16
    }
}

impl Default for MainInput {
    fn default() -> (r: Self)
        ensures
            r == MainInput::Main,
    {
        MainInput::Main
    }
}

impl Default for Screen {
    fn default() -> (r: Self)
        ensures
            r == Screen::Main(MainInput::Main),
    {
        Screen::Main(MainInput::Main)
    }
}

impl Default for DataDisplayMode {
    fn default() -> (r: Self)
        ensures
            !r.short,
            !r.numerical,
    {
        DataDisplayMode { short: false, numerical: false }
    }
}

impl Default for BinarySaveDialog {
    fn default() -> (r: Self)
        ensures
            r.fname@.len() == 0,
            r.fext@ == "jpeg"@,
            r.status matches Ok(m) && m@
                == "File will be saved in Downloads. You probably want a .jpeg."@,
            r.editing_fname,
    {
        BinarySaveDialog {
            fname: String::new(),
            fext: "jpeg".to_owned(),
            status: Ok("File will be saved in Downloads. You probably want a .jpeg.".to_owned()),
            editing_fname: true,
        }
    }
}

impl MainState {
    /// The positions of the rows that are shown: of the entries of the
    /// active file that pass the filter, or, side by side, of the rows of
    /// the table that pass the filter and the diff predicate.
    pub open spec fn shown_positions(&self) -> Seq<int> {
        match self.compare_data.mode {
            Some(only_diff) => positions(
                row_flags(row_models(self.compare_data.data@), self.filter@, only_diff),
            ),
            None => if self.current_file_index < self.et_data.len() {
                positions(
                    entry_flags(
                        entry_models(self.et_data[self.current_file_index as int].tag_entries@),
                        self.filter@,
                    ),
                )
            } else {
                Seq::empty()
            },
        }
    }

    /// The entry under the cursor: the entry at the cursor's place among
    /// the shown entries of the active file, or, side by side, what the
    /// active file holds in the row at the cursor's place among the shown
    /// rows.
    pub open spec fn selected(&self) -> Option<TagEntry> {
        let shown = self.shown_positions();
        if self.cursor < shown.len() {
            let at = shown[self.cursor as int];
            match self.compare_data.mode {
                Some(_) => {
                    let slots = self.compare_data.data[at].1;
                    if self.current_file_index < slots.len() {
                        slots[self.current_file_index as int]
                    } else {
                        None
                    }
                },
                None => Some(self.et_data[self.current_file_index as int].tag_entries[at]),
            }
        } else {
            None
        }
    }

    /// Files are loaded, the active file is one of them, and the table is
    /// the comparison table of the files.
    pub open spec fn loaded(&self) -> bool {
        &&& self.et_data.len() > 0
        &&& self.current_file_index < self.et_data.len()
        &&& self.current_file@ == self.et_data[self.current_file_index as int].file_name@
        &&& row_models(self.compare_data.data@) == compare_table(file_models(self.et_data@))
    }

    /// The cursor stands in the list as it was last counted.
    pub open spec fn cursor_in_view(&self) -> bool {
        if self.num_entries_shown == 0 {
            self.cursor == 0
        } else {
            self.cursor < self.num_entries_shown
        }
    }

    /// A session on the entries of one file. Fails when `et_data` is empty.
    pub fn new(image_path: String, et_data: Vec<ExiftoolEntry>) -> (r: Result<Self, LoadError>)
        ensures
            r is Err <==> et_data.len() == 0,
            r matches Err(e) ==> e == LoadError::NoData,
            r matches Ok(s) ==> {
                &&& s.current_file == image_path
                &&& s.et_data == et_data
                &&& s.num_entries_shown == et_data[0].tag_entries.len()
                &&& s.fresh()
                &&& s.multiple_files_input is None
                &&& row_models(s.compare_data.data@) == compare_table(file_models(et_data@))
            },
    {
        if et_data.len() == 0 {
            return Err(LoadError::NoData);
        }
        let num_entries_shown = et_data[0].tag_entries.len();
        let data = compare_rows(&et_data);
        Ok(
            MainState {
                current_file: image_path,
                show_details: false,
                binary_save_dialog: None,
                filter: String::new(),
                num_entries_shown,
                et_data,
                current_file_index: 0,
                data_display_mode: DataDisplayMode::default(),
                scroll_offset: (0, 0),
                cursor: 0,
                log_msg: None,
                multiple_files_input: None,
                compare_data: CompareData { mode: None, data },
            },
        )
    }

    /// Nothing is typed, open or moved yet.
    pub open spec fn fresh(&self) -> bool {
        &&& !self.show_details
        &&& self.binary_save_dialog is None
        &&& self.filter@.len() == 0
        &&& self.current_file_index == 0
        &&& !self.data_display_mode.short
        &&& !self.data_display_mode.numerical
        &&& self.scroll_offset == (0u16, 0u16)
        &&& self.cursor == 0
        &&& self.log_msg is None
        &&& self.compare_data.mode is None
    }

    /// A session that waits for the files at the given paths to be read.
    pub fn new_multiple_files(input: Vec<String>) -> (r: Self)
        ensures
            r.multiple_files_input == Some(input),
            r.current_file@.len() == 0,
            r.et_data.len() == 0,
            r.num_entries_shown == 0,
            r.compare_data.data.len() == 0,
            r.fresh(),
    {
        MainState {
            current_file: String::new(),
            show_details: false,
            binary_save_dialog: None,
            filter: String::new(),
            num_entries_shown: 0,
            et_data: Vec::new(),
            current_file_index: 0,
            data_display_mode: DataDisplayMode::default(),
            scroll_offset: (0, 0),
            cursor: 0,
            log_msg: None,
            multiple_files_input: Some(input),
            compare_data: CompareData::default(),
        }
    }

    /// Takes in the entries that were read for the waiting paths: the first
    /// file becomes the active one, the viewport returns to the top and
    /// the comparison table is built. Fails, and changes nothing, when
    /// `et_data` is empty.
    pub fn read_multiple_files(&mut self, et_data: Vec<ExiftoolEntry>) -> (r: Result<
        (),
        LoadError,
    >)
        ensures
            r is Err <==> et_data.len() == 0,
            r matches Err(e) ==> e == LoadError::NoData,
            r is Err ==> *final(self) == *old(self),
            r is Ok ==> took_in(*old(self), *final(self), et_data),
    {
        if et_data.len() == 0 {
            return Err(LoadError::NoData);
        }
        self.multiple_files_input = None;
        self.num_entries_shown = et_data[0].tag_entries.len();
        self.current_file = et_data[0].file_name.clone();
        self.et_data = et_data;
        self.current_file_index = 0;
        self.cursor = 0;
        self.scroll_offset = (0, 0);
        self.calculate_compare_data();
        Ok(())
    }

    /// Moves the cursor by `delta` rows, and no further than the first and
    /// the last row of the list as it was last counted.
    pub fn scrollv(&mut self, delta: i8)
        ensures
            final(self).cursor == moved_cursor(
                old(self).cursor,
                delta,
                old(self).num_entries_shown,
            ),
            *final(self) == (MainState { cursor: final(self).cursor, ..*old(self) }),
            final(self).cursor_in_view(),
    {
        let step = step_size(delta) as usize;
        let target = if delta < 0 {
            self.cursor.saturating_sub(step)
        } else {
            self.cursor.saturating_add(step)
        };
        let last = self.num_entries_shown.saturating_sub(1);
        self.cursor = if target < last {
            target
        } else {
            last
        };
    }

    /// Moves the cursor and the vertical scroll offset together by `delta`
    /// rows; each stops at its own bounds.
    pub fn scrollv_drag_cursor(&mut self, delta: i8)
        ensures
            final(self).cursor == moved_cursor(
                old(self).cursor,
                delta,
                old(self).num_entries_shown,
            ),
            final(self).scroll_offset.0 == moved_offset(old(self).scroll_offset.0, delta),
            final(self).scroll_offset.1 == old(self).scroll_offset.1,
            *final(self) == (MainState {
                cursor: final(self).cursor,
                scroll_offset: final(self).scroll_offset,
                ..*old(self)
            }),
            final(self).cursor_in_view(),
    {
        let step = step_size(delta);
        if delta < 0 {
            self.scroll_offset.0 = self.scroll_offset.0.saturating_sub(step);
        } else {
            self.scroll_offset.0 = self.scroll_offset.0.saturating_add(step);
        }
        self.scrollv(delta);
    }

    /// Moves the horizontal scroll offset by `delta` columns.
    pub fn scrollh(&mut self, delta: i8)
        ensures
            final(self).scroll_offset.1 == moved_offset(old(self).scroll_offset.1, delta),
            final(self).scroll_offset.0 == old(self).scroll_offset.0,
            *final(self) == (MainState { scroll_offset: final(self).scroll_offset, ..*old(self) }),
    {
        let step = step_size(delta);
        if delta < 0 {
            self.scroll_offset.1 = self.scroll_offset.1.saturating_sub(step);
        } else {
            self.scroll_offset.1 = self.scroll_offset.1.saturating_add(step);
        }
    }

    /// Are several files loaded?
    pub fn is_multiple_files(&self) -> (r: bool)
        ensures
            r == (self.et_data.len() > 1),
    {
        self.et_data.len() > 1
    }

    /// Builds the comparison table of the loaded files.
    pub fn calculate_compare_data(&mut self)
        ensures
            row_models(final(self).compare_data.data@) == compare_table(
                file_models(old(self).et_data@),
            ),
            *final(self) == (MainState {
                compare_data: CompareData {
                    mode: old(self).compare_data.mode,
                    data: final(self).compare_data.data,
                },
                ..*old(self)
            }),
    {
        self.compare_data.data = compare_rows(&self.et_data);
    }

    /// The entry under the cursor, if the cursor stands on a row and the
    /// active file holds an entry there.
    pub fn selected_entry(&self) -> (r: Option<&TagEntry>)
        ensures
            r is Some <==> self.selected() is Some,
            r matches Some(e) ==> *e == self.selected().unwrap(),
    {
        match self.compare_data.mode {
            Some(only_diff) => {
                let shown = shown_rows(&self.compare_data.data, self.filter.as_str(), only_diff);
                proof {
                    lemma_positions_sound(
                        row_flags(row_models(self.compare_data.data@), self.filter@, only_diff),
                    );
                }
                if self.cursor < shown.len() {
                    let at = shown[self.cursor];
                    let slots = &self.compare_data.data[at].1;
                    if self.current_file_index < slots.len() {
                        match &slots[self.current_file_index] {
                            Some(e) => Some(e),
                            None => None,
                        }
                    } else {
                        None
                    }
                } else {
                    None
                }
            },
            None => {
                if self.current_file_index < self.et_data.len() {
                    let entries = &self.et_data[self.current_file_index].tag_entries;
                    let shown = shown_entries(entries, self.filter.as_str());
                    proof {
                        lemma_positions_sound(entry_flags(entry_models(entries@), self.filter@));
                    }
                    if self.cursor < shown.len() {
                        let at = shown[self.cursor];
                        Some(&entries[at])
                    } else {
                        None
                    }
                } else {
                    None
                }
            },
        }
    }

    /// The number of rows that are shown.
    pub fn shown_count(&self) -> (r: usize)
        ensures
            r == self.shown_positions().len(),
    {
        match self.compare_data.mode {
            Some(only_diff) => {
                let shown = shown_rows(&self.compare_data.data, self.filter.as_str(), only_diff);
                shown.len()
            },
            None => {
                if self.current_file_index < self.et_data.len() {
                    let shown = shown_entries(
                        &self.et_data[self.current_file_index].tag_entries,
                        self.filter.as_str(),
                    );
                    shown.len()
                } else {
                    0
                }
            },
        }
    }

    /// Fits the viewport to a list of `shown` rows and a frame with room
    /// for `height` rows: brings the cursor into the list, and moves the
    /// vertical offset so that the cursor is in the viewport, but never
    /// past the row that stands `SCROLL_MARGIN` rows before the end.
    pub fn fit_viewport(&mut self, shown: usize, height: u16)
        ensures
            fitted(*old(self), *final(self), shown, height),
            final(self).cursor_in_view(),
    {
        self.num_entries_shown = shown;
        if shown == 0 {
            self.cursor = 0;
        } else if self.cursor >= shown {
            self.cursor = shown - 1;
        }
        let offset = self.scroll_offset.0 as usize;
        let wanted: u16 = if self.cursor < offset {
            to_offset(self.cursor)
        } else if self.cursor - offset >= height as usize {
            to_offset(self.cursor - height as usize + 1)
        } else {
            self.scroll_offset.0
        };
        let limit = to_offset(shown.saturating_sub(SCROLL_MARGIN));
        self.scroll_offset.0 = if wanted < limit {
            wanted
        } else {
            limit
        };
    }

    /// Brings the viewport up to date for a frame with room for `height`
    /// rows: counts the rows that are shown and fits the viewport to them.
    pub fn sync_viewport(&mut self, height: u16)
        ensures
            fitted(*old(self), *final(self), old(self).shown_positions().len() as usize, height),
            final(self).num_entries_shown == old(self).shown_positions().len(),
            final(self).shown_positions() == old(self).shown_positions(),
            final(self).cursor_in_view(),
    {
        let shown = self.shown_count();
        self.fit_viewport(shown, height);
    }

    /// Returns the viewport to the top.
    pub fn reset_view(&mut self)
        ensures
            *final(self) == (MainState { cursor: 0, scroll_offset: (0u16, 0u16), ..*old(self) }),
    {
        self.scroll_offset = (0, 0);
        self.cursor = 0;
    }

    /// Makes the next file the active one; after the last comes the first.
    /// Nothing changes unless several files are loaded.
    pub fn next_file(&mut self)
        ensures
            old(self).et_data.len() <= 1 ==> *final(self) == *old(self),
            old(self).et_data.len() > 1 ==> turned_to(
                *old(self),
                *final(self),
                next_index(old(self).current_file_index, old(self).et_data.len()),
            ),
            old(self).loaded() ==> final(self).loaded(),
    {
        if self.et_data.len() > 1 {
            if self.current_file_index < self.et_data.len() - 1 {
                self.current_file_index += 1;
            } else {
                self.current_file_index = 0;
            }
            self.current_file = self.et_data[self.current_file_index].file_name.clone();
        }
    }

    /// Makes the previous file the active one; before the first comes the
    /// last. Nothing changes unless several files are loaded.
    pub fn prev_file(&mut self)
        ensures
            old(self).et_data.len() <= 1 ==> *final(self) == *old(self),
            old(self).et_data.len() > 1 ==> turned_to(
                *old(self),
                *final(self),
                prev_index(old(self).current_file_index, old(self).et_data.len()),
            ),
            old(self).loaded() ==> final(self).loaded(),
    {
        if self.et_data.len() > 1 {
            if 0 < self.current_file_index && self.current_file_index <= self.et_data.len() {
                self.current_file_index -= 1;
            } else {
                self.current_file_index = self.et_data.len() - 1;
            }
            self.current_file = self.et_data[self.current_file_index].file_name.clone();
        }
    }

    /// May the active file be dropped? Only while several files are loaded
    /// and shown one by one.
    pub open spec fn can_drop_file(&self) -> bool {
        &&& self.et_data.len() > 1
        &&& self.compare_data.mode is None
        &&& self.current_file_index < self.et_data.len()
    }

    /// Drops the active file from the set. The file that followed it
    /// becomes the active one, or, where the last file was dropped, the
    /// file before it; the comparison table is built anew. Nothing changes
    /// where the file may not be dropped.
    pub fn drop_current_file(&mut self) -> (dropped: bool)
        ensures
            dropped == old(self).can_drop_file(),
            !dropped ==> *final(self) == *old(self),
            dropped ==> without_active_file(*old(self), *final(self)),
    {
        if self.et_data.len() > 1 && self.compare_data.mode.is_none() && self.current_file_index
            < self.et_data.len() {
            self.et_data.remove(self.current_file_index);
            if self.current_file_index == self.et_data.len() {
                self.current_file_index -= 1;
            }
            self.current_file = self.et_data[self.current_file_index].file_name.clone();
            self.calculate_compare_data();
            true
        } else {
            false
        }
    }
}

/// How an attempt to write a binary payload ended.
#[derive(Debug)]
pub enum SaveOutcome {
    /// A file of the chosen name is already there.
    AlreadyExists,
    /// No entry is selected, or the selected entry holds no binary payload.
    NoPayload,
    /// The extractor did not hand out the payload.
    ExtractionFailed,
    /// The payload was written to the file at this path.
    Saved(String),
}

/// `after` is `before` with the complaint `msg` in the message line.
pub open spec fn reported(before: MainState, after: MainState, msg: Seq<char>) -> bool {
    &&& after.log_msg matches Some(Err(m)) && m@ == msg
    &&& after == (MainState { log_msg: after.log_msg, ..before })
}

/// `after` is `before` with the end of an attempt to write a payload
/// noted: a file that is already there as a complaint in the dialog's
/// status, a missing payload and a failed extraction each as a complaint in
/// the message line, a written file as good news in the message line.
pub open spec fn save_noted(before: MainState, after: MainState, outcome: SaveOutcome) -> bool {
    match outcome {
        SaveOutcome::AlreadyExists => {
            &&& after == (MainState { binary_save_dialog: after.binary_save_dialog, ..before })
            &&& complained(
                before.binary_save_dialog,
                after.binary_save_dialog,
                "File with this name already exists!"@,
            )
        },
        SaveOutcome::NoPayload => reported(
            before,
            after,
            "Selected entry does not contain any binary data!"@,
        ),
        SaveOutcome::ExtractionFailed => reported(before, after, "Failed to extract binary data!"@),
        SaveOutcome::Saved(path) => {
            &&& after.log_msg matches Some(Ok(m)) && m@ == "Succesfully saved at "@ + path@
            &&& after == (MainState { log_msg: after.log_msg, ..before })
        },
    }
}

/// An extension without its leading dot, if it has one.
pub open spec fn bare_extension(ext: Seq<char>) -> Seq<char> {
    if ext.len() > 0 && ext[0] == '.' {
        ext.subrange(1, ext.len() as int)
    } else {
        ext
    }
}

/// The dialog `after` is the dialog `before` with the complaint `msg` as
/// its status.
pub open spec fn complains(before: BinarySaveDialog, after: BinarySaveDialog, msg: Seq<char>)
    -> bool {
    &&& after.fname == before.fname
    &&& after.fext == before.fext
    &&& after.editing_fname == before.editing_fname
    &&& after.status matches Err(m) && m@ == msg
}

/// The dialog, where there is one, has got the complaint `msg` as its
/// status.
pub open spec fn complained(
    before: Option<BinarySaveDialog>,
    after: Option<BinarySaveDialog>,
    msg: Seq<char>,
) -> bool {
    match before {
        Some(d) => after matches Some(a) && complains(d, a, msg),
        None => after is None,
    }
}

impl MainState {
    /// Checks what the save dialog holds and gives the name of the file to
    /// create: name, a dot, and the extension without a leading dot, which
    /// the dialog loses too. An empty name or extension is refused with a
    /// complaint in the dialog's status. Without a dialog the attempt fails
    /// and nothing changes.
    pub fn try_save_binary(&mut self) -> (r: Result<String, ()>)
        ensures
            *final(self) == (MainState {
                binary_save_dialog: final(self).binary_save_dialog,
                ..*old(self)
            }),
            old(self).binary_save_dialog is None ==> r is Err && final(self).binary_save_dialog
                is None,
            old(self).binary_save_dialog matches Some(d) ==> {
                &&& final(self).binary_save_dialog matches Some(after)
                &&& if d.fname@.len() == 0 {
                    r is Err && complains(d, after, "Please enter a name."@)
                } else if d.fext@.len() == 0 {
                    r is Err && complains(d, after, "Please enter an extension."@)
                } else {
                    &&& r matches Ok(name)
                    &&& name@ == d.fname@ + "."@ + bare_extension(d.fext@)
                    &&& after.fname == d.fname
                    &&& after.fext@ == bare_extension(d.fext@)
                    &&& after.status == d.status
                    &&& after.editing_fname == d.editing_fname
                }
            },
    {
        match &mut self.binary_save_dialog {
            None => Err(()),
            Some(dialog) => {
                if dialog.fname.as_str().is_empty() {
                    dialog.status = Err("Please enter a name.".to_owned());
                    return Err(());
                }
                if dialog.fext.as_str().is_empty() {
                    dialog.status = Err("Please enter an extension.".to_owned());
                    return Err(());
                }
                let chars = to_chars(dialog.fext.as_str());
                if chars[0] == '.' {
                    dialog.fext = text_of(&chars, 1, chars.len());
                }
                let mut name = dialog.fname.clone();
                name.append(".");
                name.append(dialog.fext.as_str());
                Ok(name)
            },
        }
    }

    /// Says what is to be done for the payload of the selected entry, once
    /// the name of the file is settled and the caller has looked whether a
    /// file of that name is there already. Where none is and the selected
    /// entry holds a payload, the result holds the arguments that make the
    /// extractor write it. Otherwise the attempt has ended, and the result
    /// says how: with `AlreadyExists`, or, where no entry is selected or the
    /// selected entry holds no payload, with `NoPayload`.
    pub fn payload_request(&self, destination_exists: bool) -> (r: Result<
        Vec<String>,
        SaveOutcome,
    >)
        ensures
            destination_exists ==> (r matches Err(o) && o is AlreadyExists),
            !destination_exists && !self.payload_selected() ==> (r matches Err(o) && o
                is NoPayload),
            !destination_exists && self.payload_selected() ==> (r matches Ok(args) && texts(args@)
                == binary_arguments(self.selected().unwrap()@, self.current_file@)),
    {
        if destination_exists {
            return Err(SaveOutcome::AlreadyExists);
        }
        match self.selected_entry() {
            Some(e) => match e.get_binary(self.current_file.as_str()) {
                Ok(args) => Ok(args),
                Err(()) => Err(SaveOutcome::NoPayload),
            },
            None => Err(SaveOutcome::NoPayload),
        }
    }

    /// An entry is selected and holds a binary payload.
    pub open spec fn payload_selected(&self) -> bool {
        self.selected() is Some && self.selected().unwrap()@.binary_size is Some
    }

    /// Takes note of how the attempt to write the payload ended. A file
    /// that is already there is refused with a complaint in the dialog's
    /// status; a missing payload and a failed extraction are each reported
    /// by a complaint in the message line; a written file is reported there
    /// as well.
    pub fn finish_save_binary(&mut self, outcome: SaveOutcome) -> (r: Result<(), ()>)
        ensures
            r is Ok <==> outcome is Saved,
            save_noted(*old(self), *final(self), outcome),
    {
        match outcome {
            SaveOutcome::AlreadyExists => {
                match &mut self.binary_save_dialog {
                    Some(dialog) => {
                        dialog.status = Err("File with this name already exists!".to_owned());
                    },
                    None => {},
                }
                Err(())
            },
            SaveOutcome::NoPayload => {
                self.log_msg = Some(
                    Err("Selected entry does not contain any binary data!".to_owned()),
                );
                Err(())
            },
            SaveOutcome::ExtractionFailed => {
                self.log_msg = Some(Err("Failed to extract binary data!".to_owned()));
                Err(())
            },
            SaveOutcome::Saved(path) => {
                let mut msg = "Succesfully saved at ".to_owned();
                msg.append(path.as_str());
                self.log_msg = Some(Ok(msg));
                Ok(())
            },
        }
    }
}

/// The application: the screen and the session behind it.
pub struct App {
    pub screen: Screen,
    pub main_state: MainState,
}

impl App {
    /// The application on the entries of one file. Fails when `et_data` is
    /// empty.
    pub fn new(image_path: String, et_data: Vec<ExiftoolEntry>) -> (r: Result<Self, LoadError>)
        ensures
            r is Err <==> et_data.len() == 0,
            r matches Err(e) ==> e == LoadError::NoData,
            r matches Ok(app) ==> {
                &&& app.screen == Screen::Main(MainInput::Main)
                &&& app.main_state.current_file == image_path
                &&& app.main_state.et_data == et_data
                &&& app.main_state.num_entries_shown == et_data[0].tag_entries.len()
                &&& app.main_state.fresh()
                &&& app.main_state.multiple_files_input is None
                &&& row_models(app.main_state.compare_data.data@) == compare_table(
                    file_models(et_data@),
                )
            },
    {
        match MainState::new(image_path, et_data) {
            Ok(main_state) => Ok(App { screen: Screen::default(), main_state }),
            Err(e) => Err(e),
        }
    }

    /// The application on several paths. Where `et_data` is `None`, the
    /// paths are still to be read, and the application starts by asking
    /// whether to read directories in depth. Where it holds the entries
    /// read from the paths, the application starts on them; it fails when
    /// they are empty.
    pub fn new_multiple_files(input: Vec<String>, et_data: Option<Vec<ExiftoolEntry>>) -> (r:
        Result<Self, LoadError>)
        ensures
            r is Err <==> (et_data matches Some(d) && d.len() == 0),
            r matches Err(e) ==> e == LoadError::NoData,
            r matches Ok(app) ==> match et_data {
                None => {
                    &&& app.screen == Screen::MiltipleFilesStart
                    &&& app.main_state.multiple_files_input == Some(input)
                    &&& app.main_state.et_data.len() == 0
                    &&& app.main_state.fresh()
                },
                Some(d) => {
                    &&& app.screen == Screen::Main(MainInput::Main)
                    &&& app.main_state.loaded()
                    &&& app.main_state.et_data == d
                    &&& app.main_state.num_entries_shown == d[0].tag_entries.len()
                    &&& app.main_state.fresh()
                    &&& app.main_state.multiple_files_input is None
                },
            },
    {
        let mut main_state = MainState::new_multiple_files(input);
        match et_data {
            None => Ok(App { screen: Screen::MiltipleFilesStart, main_state }),
            Some(d) => {
                match main_state.read_multiple_files(d) {
                    Ok(()) => Ok(App { screen: Screen::default(), main_state }),
                    Err(e) => Err(e),
                }
            },
        }
    }

    /// Takes in the entries that were read for the waiting paths and shows
    /// the main screen. Fails, and changes nothing, when `et_data` is
    /// empty.
    pub fn finish_reading(&mut self, et_data: Vec<ExiftoolEntry>) -> (r: Result<(), LoadError>)
        ensures
            r is Err <==> et_data.len() == 0,
            r matches Err(e) ==> e == LoadError::NoData,
            r is Err ==> *final(self) == *old(self),
            r is Ok ==> {
                &&& final(self).screen == Screen::Main(MainInput::Main)
                &&& took_in(old(self).main_state, final(self).main_state, et_data)
            },
    {
        match self.main_state.read_multiple_files(et_data) {
            Ok(()) => {
                self.screen = Screen::default();
                Ok(())
            },
            Err(e) => Err(e),
        }
    }

    /// Takes note of how the attempt to write a payload ended, as
    /// `MainState::finish_save_binary` does; after a written file the
    /// dialog is closed as well.
    pub fn finish_saving(&mut self, outcome: SaveOutcome) -> (r: Result<(), ()>)
        ensures
            r is Ok <==> outcome is Saved,
            !(outcome is Saved) ==> final(self).screen == old(self).screen && save_noted(
                old(self).main_state,
                final(self).main_state,
                outcome,
            ),
            outcome matches SaveOutcome::Saved(path) ==> {
                &&& final(self).screen == if old(self).screen is Main {
                    Screen::Main(MainInput::Main)
                } else {
                    old(self).screen
                }
                &&& final(self).main_state.binary_save_dialog is None
                &&& final(self).main_state.log_msg matches Some(Ok(m)) && m@
                    == "Succesfully saved at "@ + path@
                &&& final(self).main_state == (MainState {
                    binary_save_dialog: None,
                    log_msg: final(self).main_state.log_msg,
                    ..old(self).main_state
                })
            },
    {
        match self.main_state.finish_save_binary(outcome) {
            Ok(()) => {
                self.main_state.binary_save_dialog = None;
                match self.screen {
                    Screen::Main(_) => {
                        self.screen = Screen::Main(MainInput::Main);
                    },
                    _ => {},
                }
                Ok(())
            },
            Err(()) => Err(()),
        }
    }
}

/// After every step the cursor stands in the list, wherever it stood
/// before. A step up that is at least as long as the way to the top ends at
/// the first row, and a step down that is at least as long as the way to
/// the bottom ends at the last row.
pub proof fn lemma_cursor_stays_in_list(cursor: usize, delta: i8, shown: usize)
    requires
        shown > 0,
    ensures
        0 <= moved_cursor(cursor, delta, shown) <= shown - 1,
        cursor + delta <= 0 ==> moved_cursor(cursor, delta, shown) == 0,
        cursor + delta >= shown - 1 ==> moved_cursor(cursor, delta, shown) == shown - 1,
        0 <= cursor + delta <= shown - 1 ==> moved_cursor(cursor, delta, shown) == cursor + delta,
{
}

/// After the viewport was fitted to a list, the offset is no greater than
/// the position of the last row. The offset is no greater than the cursor
/// where the viewport has room for a row at all, and a viewport with room
/// for at least `SCROLL_MARGIN` rows holds the cursor. The list is taken to
/// be short enough for every position to be an offset.
pub proof fn lemma_cursor_in_viewport(cursor: int, offset: int, height: int, shown: int)
    requires
        0 <= shown <= u16::MAX,
        0 <= offset <= u16::MAX,
        0 <= height,
        if shown == 0 {
            cursor == 0
        } else {
            0 <= cursor < shown
        },
    ensures
        0 <= scrolled_into_view(cursor, offset, height, shown),
        shown > 0 ==> scrolled_into_view(cursor, offset, height, shown) <= shown - 1,
        shown == 0 ==> scrolled_into_view(cursor, offset, height, shown) == 0,
        1 <= height ==> scrolled_into_view(cursor, offset, height, shown) <= cursor,
        SCROLL_MARGIN <= height && shown > 0 ==> cursor < scrolled_into_view(
            cursor,
            offset,
            height,
            shown,
        ) + height,
{
}

} // verus!
