use exifview::entry::{EtVal, ExiftoolEntry, TagEntry};
use exifview::ingest::LoadError;
use exifview::state::{
    App, BinarySaveDialog, DataDisplayMode, MainInput, MainState, SaveOutcome, Screen,
};

fn tag(short_name: &str, val: &str) -> TagEntry {
    TagEntry {
        short_name: short_name.to_owned(),
        instance: String::new(),
        binary_size: None,
        name: short_name.to_owned(),
        id: None,
        table: ("Exif".to_owned(), String::new()),
        val: EtVal::String(val.to_owned()),
        num: None,
        index: None,
    }
}

fn file(name: &str, entries: Vec<TagEntry>) -> ExiftoolEntry {
    ExiftoolEntry { file_name: name.to_owned(), tag_entries: entries }
}

fn numbered(n: usize) -> Vec<TagEntry> {
    (0..n).map(|i| tag(&format!("Tag{i}"), &format!("value {i}"))).collect()
}

fn single(n: usize) -> MainState {
    MainState::new("a.jpg".to_owned(), vec![file("a.jpg", numbered(n))]).unwrap()
}

fn two_cameras() -> MainState {
    let mut s = MainState::new_multiple_files(vec!["a".to_owned(), "b".to_owned()]);
    s.read_multiple_files(vec![
        file("a", vec![tag("Make", "Canon"), tag("Model", "R5")]),
        file("b", vec![tag("Make", "Canon"), tag("Model", "R6")]),
    ])
    .unwrap();
    s
}

#[test]
fn defaults() {
    assert_eq!(MainInput::default(), MainInput::Main);
    assert_eq!(Screen::default(), Screen::Main(MainInput::Main));
    assert_eq!(DataDisplayMode::default(), DataDisplayMode { short: false, numerical: false });
    let d = BinarySaveDialog::default();
    assert_eq!(d.fname, "");
    assert_eq!(d.fext, "jpeg");
    assert_eq!(
        d.status,
        Ok("File will be saved in Downloads. You probably want a .jpeg.".to_owned())
    );
    assert!(d.editing_fname);
}

#[test]
fn new_session_on_one_file() {
    let s = single(3);
    assert_eq!(s.current_file, "a.jpg");
    assert_eq!(s.num_entries_shown, 3);
    assert_eq!(s.cursor, 0);
    assert_eq!(s.scroll_offset, (0, 0));
    assert_eq!(s.current_file_index, 0);
    assert_eq!(s.filter, "");
    assert!(!s.show_details);
    assert!(s.binary_save_dialog.is_none());
    assert!(s.log_msg.is_none());
    assert!(s.multiple_files_input.is_none());
    assert_eq!(s.compare_data.mode, None);
    assert_eq!(s.compare_data.data.len(), 3);
    assert!(!s.is_multiple_files());
}

#[test]
fn new_session_without_data_fails() {
    assert!(matches!(MainState::new("a.jpg".to_owned(), vec![]), Err(LoadError::NoData)));
    assert!(matches!(App::new("a.jpg".to_owned(), vec![]), Err(LoadError::NoData)));
}

#[test]
fn session_that_waits_for_its_files() {
    let s = MainState::new_multiple_files(vec!["dir".to_owned()]);
    assert_eq!(s.multiple_files_input, Some(vec!["dir".to_owned()]));
    assert!(s.et_data.is_empty());
    assert_eq!(s.num_entries_shown, 0);
    assert!(s.selected_entry().is_none());
    assert_eq!(s.shown_count(), 0);
}

#[test]
fn reading_files_makes_the_first_active() {
    let s = two_cameras();
    assert_eq!(s.current_file, "a");
    assert_eq!(s.current_file_index, 0);
    assert_eq!(s.num_entries_shown, 2);
    assert!(s.multiple_files_input.is_none());
    assert!(s.is_multiple_files());
    assert_eq!(s.compare_data.data.len(), 2);
}

#[test]
fn reading_no_files_fails_and_changes_nothing() {
    let mut s = MainState::new_multiple_files(vec!["dir".to_owned()]);
    assert_eq!(s.read_multiple_files(vec![]), Err(LoadError::NoData));
    assert_eq!(s.multiple_files_input, Some(vec!["dir".to_owned()]));
    assert!(s.et_data.is_empty());
}

#[test]
fn cursor_stays_in_the_list() {
    let mut s = single(5);
    for delta in [3i8, 3, 3, -1, 127, -128, 1, -3, 100, -100] {
        s.scrollv(delta);
        assert!(s.cursor < 5);
    }
}

#[test]
fn long_step_up_ends_at_the_first_row() {
    let mut s = single(200);
    s.scrollv(100);
    assert_eq!(s.cursor, 100);
    s.scrollv(-128);
    assert_eq!(s.cursor, 0);
    s.scrollv(-1);
    assert_eq!(s.cursor, 0);
}

#[test]
fn long_step_down_ends_at_the_last_row() {
    let mut s = single(50);
    s.scrollv(127);
    assert_eq!(s.cursor, 49);
    s.scrollv(1);
    assert_eq!(s.cursor, 49);
}

#[test]
fn steps_move_the_cursor_by_their_size() {
    let mut s = single(50);
    s.scrollv(4);
    assert_eq!(s.cursor, 4);
    s.scrollv(-1);
    assert_eq!(s.cursor, 3);
    s.scrollv(0);
    assert_eq!(s.cursor, 3);
}

#[test]
fn cursor_in_an_empty_list_stays_at_the_top() {
    let mut s = single(0);
    s.scrollv(5);
    assert_eq!(s.cursor, 0);
    s.scrollv(-5);
    assert_eq!(s.cursor, 0);
    assert!(s.selected_entry().is_none());
}

#[test]
fn drag_moves_cursor_and_offset_each_within_its_bounds() {
    let mut s = single(10);
    s.scrollv_drag_cursor(4);
    assert_eq!((s.cursor, s.scroll_offset), (4, (4, 0)));
    s.scrollv_drag_cursor(100);
    assert_eq!((s.cursor, s.scroll_offset), (9, (104, 0)));
    s.scrollv_drag_cursor(-128);
    assert_eq!((s.cursor, s.scroll_offset), (0, (0, 0)));
    s.scroll_offset.0 = u16::MAX - 1;
    s.scrollv_drag_cursor(5);
    assert_eq!(s.scroll_offset.0, u16::MAX);
}

#[test]
fn horizontal_offset_stops_at_both_ends() {
    let mut s = single(10);
    s.scrollh(-1);
    assert_eq!(s.scroll_offset, (0, 0));
    s.scrollh(1);
    s.scrollh(1);
    assert_eq!(s.scroll_offset, (0, 2));
    s.scrollh(-128);
    assert_eq!(s.scroll_offset, (0, 0));
    s.scroll_offset.1 = u16::MAX - 2;
    s.scrollh(127);
    assert_eq!(s.scroll_offset, (0, u16::MAX));
    assert_eq!(s.cursor, 0);
}

#[test]
fn cursor_at_the_end_scrolls_the_viewport() {
    let mut s = single(50);
    s.scrollv(49);
    assert_eq!(s.cursor, 49);
    s.sync_viewport(10);
    assert_eq!(s.scroll_offset.0, 40);
    assert_eq!(s.num_entries_shown, 50);
    assert_eq!(s.selected_entry().unwrap().short_name, "Tag49");
}

#[test]
fn viewport_follows_the_cursor_up_and_down() {
    let mut s = single(50);
    s.sync_viewport(10);
    assert_eq!(s.scroll_offset.0, 0);
    s.scrollv(9);
    s.sync_viewport(10);
    assert_eq!(s.scroll_offset.0, 0);
    s.scrollv(1);
    s.sync_viewport(10);
    assert_eq!(s.scroll_offset.0, 1);
    s.scrollv(20);
    s.sync_viewport(10);
    assert_eq!(s.scroll_offset.0, 21);
    s.scrollv(-25);
    s.sync_viewport(10);
    assert_eq!((s.cursor, s.scroll_offset.0), (5, 5));
}

#[test]
fn offset_keeps_the_margin_at_the_end() {
    // the margin is five rows: the offset never passes row 45 of 50
    let mut s = single(50);
    s.scroll_offset.0 = 48;
    s.cursor = 49;
    s.sync_viewport(10);
    assert_eq!(s.scroll_offset.0, 45);
    // a list of fewer rows than the margin is never scrolled
    let mut t = single(4);
    t.scrollv_drag_cursor(3);
    t.sync_viewport(2);
    assert_eq!((t.cursor, t.scroll_offset.0), (3, 0));
}

#[test]
fn sync_brings_the_cursor_into_a_shorter_list() {
    let mut s = single(50);
    s.scrollv(40);
    s.filter = "Tag1".to_owned();
    s.sync_viewport(10);
    // Tag1 and Tag10 to Tag19
    assert_eq!(s.num_entries_shown, 11);
    assert_eq!(s.cursor, 10);
    assert_eq!(s.selected_entry().unwrap().short_name, "Tag19");
    s.filter = "no such tag".to_owned();
    s.sync_viewport(10);
    assert_eq!((s.num_entries_shown, s.cursor, s.scroll_offset.0), (0, 0, 0));
    assert!(s.selected_entry().is_none());
}

#[test]
fn selection_counts_among_the_entries_that_pass_the_filter() {
    let mut s = single(30);
    s.filter = "tag2".to_owned();
    // Tag2, Tag20 .. Tag29
    assert_eq!(s.shown_count(), 11);
    assert_eq!(s.selected_entry().unwrap().short_name, "Tag2");
    s.cursor = 1;
    assert_eq!(s.selected_entry().unwrap().short_name, "Tag20");
    s.cursor = 10;
    assert_eq!(s.selected_entry().unwrap().short_name, "Tag29");
    s.cursor = 11;
    assert!(s.selected_entry().is_none());
}

#[test]
fn selection_side_by_side_with_only_differing_rows() {
    let mut s = two_cameras();
    s.compare_data.mode = Some(true);
    assert_eq!(s.shown_count(), 1);
    s.current_file_index = 1;
    let e = s.selected_entry().unwrap();
    assert_eq!(e.short_name, "Model");
    assert_eq!(e.val.to_string(), "R6");
    s.current_file_index = 0;
    assert_eq!(s.selected_entry().unwrap().val.to_string(), "R5");
    s.cursor = 1;
    assert!(s.selected_entry().is_none());
}

#[test]
fn selection_side_by_side_of_all_rows() {
    let mut s = two_cameras();
    s.compare_data.mode = Some(false);
    assert_eq!(s.shown_count(), 2);
    assert_eq!(s.selected_entry().unwrap().short_name, "Make");
    s.cursor = 1;
    s.current_file_index = 1;
    assert_eq!(s.selected_entry().unwrap().val.to_string(), "R6");
}

#[test]
fn selection_of_an_empty_slot_is_nothing() {
    let mut s = MainState::new_multiple_files(vec![]);
    s.read_multiple_files(vec![file("a", vec![tag("Make", "Canon")]), file("b", vec![])]).unwrap();
    s.compare_data.mode = Some(false);
    assert_eq!(s.selected_entry().unwrap().short_name, "Make");
    s.current_file_index = 1;
    assert!(s.selected_entry().is_none());
    s.current_file_index = 7;
    assert!(s.selected_entry().is_none());
    s.compare_data.mode = None;
    assert!(s.selected_entry().is_none());
}

#[test]
fn next_and_previous_file_wrap_around() {
    let mut s = MainState::new_multiple_files(vec![]);
    s.read_multiple_files(vec![file("a", vec![]), file("b", vec![]), file("c", vec![])]).unwrap();
    s.next_file();
    assert_eq!((s.current_file_index, s.current_file.as_str()), (1, "b"));
    s.next_file();
    s.next_file();
    assert_eq!((s.current_file_index, s.current_file.as_str()), (0, "a"));
    s.prev_file();
    assert_eq!((s.current_file_index, s.current_file.as_str()), (2, "c"));
    s.prev_file();
    assert_eq!((s.current_file_index, s.current_file.as_str()), (1, "b"));
}

#[test]
fn single_file_has_no_next_file() {
    let mut s = single(3);
    s.next_file();
    s.prev_file();
    assert_eq!((s.current_file_index, s.current_file.as_str()), (0, "a.jpg"));
}

#[test]
fn dropping_the_active_file() {
    let mut s = MainState::new_multiple_files(vec![]);
    s.read_multiple_files(vec![
        file("a", vec![tag("Make", "Canon")]),
        file("b", vec![tag("Model", "R5")]),
        file("c", vec![tag("Lens", "50mm")]),
    ])
    .unwrap();
    s.next_file();
    assert!(s.drop_current_file());
    assert_eq!(s.et_data.len(), 2);
    assert_eq!((s.current_file_index, s.current_file.as_str()), (1, "c"));
    assert_eq!(s.compare_data.data.len(), 2);
    assert_eq!(s.compare_data.data[0].1.len(), 2);
    assert!(s.drop_current_file());
    assert_eq!((s.current_file_index, s.current_file.as_str()), (0, "a"));
    assert!(!s.drop_current_file());
    assert_eq!(s.et_data.len(), 1);
}

#[test]
fn no_file_is_dropped_side_by_side() {
    let mut s = two_cameras();
    s.compare_data.mode = Some(false);
    assert!(!s.drop_current_file());
    assert_eq!(s.et_data.len(), 2);
}

#[test]
fn reset_view_returns_to_the_top() {
    let mut s = single(20);
    s.scrollv_drag_cursor(5);
    s.scrollh(3);
    s.reset_view();
    assert_eq!((s.cursor, s.scroll_offset), (0, (0, 0)));
}

#[test]
fn save_with_empty_name_is_refused() {
    let mut s = single(3);
    s.scrollv_drag_cursor(2);
    s.binary_save_dialog = Some(BinarySaveDialog::default());
    assert_eq!(s.try_save_binary(), Err(()));
    let d = s.binary_save_dialog.as_ref().unwrap();
    assert_eq!(d.status, Err("Please enter a name.".to_owned()));
    assert_eq!((d.fname.as_str(), d.fext.as_str(), d.editing_fname), ("", "jpeg", true));
    assert_eq!((s.cursor, s.scroll_offset, s.num_entries_shown), (2, (2, 0), 3));
    assert_eq!((s.current_file.as_str(), s.current_file_index), ("a.jpg", 0));
    assert_eq!(s.filter, "");
    assert!(s.log_msg.is_none());
    assert_eq!(s.et_data.len(), 1);
}

#[test]
fn save_with_empty_extension_is_refused() {
    let mut s = single(3);
    let mut d = BinarySaveDialog::default();
    d.fname = "thumb".to_owned();
    d.fext = String::new();
    s.binary_save_dialog = Some(d);
    assert_eq!(s.try_save_binary(), Err(()));
    let d = s.binary_save_dialog.as_ref().unwrap();
    assert_eq!(d.status, Err("Please enter an extension.".to_owned()));
    assert_eq!(d.fname, "thumb");
}

#[test]
fn save_gives_the_name_of_the_file() {
    let mut s = single(3);
    let mut d = BinarySaveDialog::default();
    d.fname = "thumb".to_owned();
    s.binary_save_dialog = Some(d);
    assert_eq!(s.try_save_binary(), Ok("thumb.jpeg".to_owned()));
    let d = s.binary_save_dialog.as_ref().unwrap();
    assert!(d.status.is_ok());
    assert_eq!(d.fext, "jpeg");
}

#[test]
fn save_drops_one_leading_dot_of_the_extension() {
    let mut s = single(3);
    let mut d = BinarySaveDialog::default();
    d.fname = "thumb".to_owned();
    d.fext = "..png".to_owned();
    s.binary_save_dialog = Some(d);
    assert_eq!(s.try_save_binary(), Ok("thumb..png".to_owned()));
    assert_eq!(s.binary_save_dialog.as_ref().unwrap().fext, ".png");
    assert_eq!(s.try_save_binary(), Ok("thumb.png".to_owned()));
    assert_eq!(s.binary_save_dialog.as_ref().unwrap().fext, "png");
    s.binary_save_dialog.as_mut().unwrap().fext = ".".to_owned();
    assert_eq!(s.try_save_binary(), Ok("thumb.".to_owned()));
    assert_eq!(s.binary_save_dialog.as_ref().unwrap().fext, "");
}

#[test]
fn save_without_a_dialog_fails() {
    let mut s = single(3);
    assert_eq!(s.try_save_binary(), Err(()));
    assert!(s.binary_save_dialog.is_none());
}

#[test]
fn outcome_of_a_save() {
    let mut s = single(3);
    s.binary_save_dialog = Some(BinarySaveDialog::default());
    assert_eq!(s.finish_save_binary(SaveOutcome::AlreadyExists), Err(()));
    assert_eq!(
        s.binary_save_dialog.as_ref().unwrap().status,
        Err("File with this name already exists!".to_owned())
    );
    assert!(s.log_msg.is_none());
    assert_eq!(s.finish_save_binary(SaveOutcome::NoPayload), Err(()));
    assert_eq!(
        s.log_msg,
        Some(Err("Selected entry does not contain any binary data!".to_owned()))
    );
    assert_eq!(s.finish_save_binary(SaveOutcome::ExtractionFailed), Err(()));
    assert_eq!(s.log_msg, Some(Err("Failed to extract binary data!".to_owned())));
    assert_eq!(
        s.binary_save_dialog.as_ref().unwrap().status,
        Err("File with this name already exists!".to_owned())
    );
    assert_eq!(s.finish_save_binary(SaveOutcome::Saved("/d/thumb.jpeg".to_owned())), Ok(()));
    assert_eq!(s.log_msg, Some(Ok("Succesfully saved at /d/thumb.jpeg".to_owned())));
    assert!(s.binary_save_dialog.is_some());
}

#[test]
fn application_on_several_paths() {
    let app = App::new_multiple_files(vec!["dir".to_owned()], None).unwrap();
    assert_eq!(app.screen, Screen::MiltipleFilesStart);
    assert_eq!(app.main_state.multiple_files_input, Some(vec!["dir".to_owned()]));
    let app = App::new_multiple_files(
        vec!["a".to_owned()],
        Some(vec![file("a", vec![tag("Make", "Canon")])]),
    )
    .unwrap();
    assert_eq!(app.screen, Screen::Main(MainInput::Main));
    assert_eq!(app.main_state.current_file, "a");
    assert!(app.main_state.multiple_files_input.is_none());
    assert!(matches!(
        App::new_multiple_files(vec!["a".to_owned()], Some(vec![])),
        Err(LoadError::NoData)
    ));
}

#[test]
fn application_after_reading_and_saving() {
    let mut app = App::new_multiple_files(vec!["dir".to_owned()], None).unwrap();
    assert_eq!(app.finish_reading(vec![]), Err(LoadError::NoData));
    assert_eq!(app.screen, Screen::MiltipleFilesStart);
    assert_eq!(app.finish_reading(vec![file("a", numbered(2))]), Ok(()));
    assert_eq!(app.screen, Screen::Main(MainInput::Main));
    assert_eq!(app.main_state.num_entries_shown, 2);
    app.screen = Screen::Main(MainInput::BinarySaveDialog);
    app.main_state.binary_save_dialog = Some(BinarySaveDialog::default());
    assert_eq!(app.finish_saving(SaveOutcome::AlreadyExists), Err(()));
    assert_eq!(app.screen, Screen::Main(MainInput::BinarySaveDialog));
    assert_eq!(app.finish_saving(SaveOutcome::Saved("p".to_owned())), Ok(()));
    assert_eq!(app.screen, Screen::Main(MainInput::Main));
    assert!(app.main_state.binary_save_dialog.is_none());
    assert_eq!(app.main_state.log_msg, Some(Ok("Succesfully saved at p".to_owned())));
}

#[test]
fn step_from_a_stale_cursor_ends_in_the_list() {
    let mut s = single(5);
    s.cursor = 20;
    s.scrollv(-1);
    assert_eq!(s.cursor, 4);
    s.cursor = 20;
    s.scrollv(0);
    assert_eq!(s.cursor, 4);
    s.cursor = 20;
    s.scrollv(-17);
    assert_eq!(s.cursor, 3);
    s.cursor = 20;
    s.scrollv_drag_cursor(-1);
    assert_eq!(s.cursor, 4);
    s.cursor = usize::MAX;
    s.scrollv(127);
    assert_eq!(s.cursor, 4);
    let mut empty = single(0);
    empty.cursor = 7;
    empty.scrollv(-1);
    assert_eq!(empty.cursor, 0);
}

#[test]
fn payload_request_for_a_binary_entry() {
    let mut thumb = tag("ThumbnailImage", "(Binary data 2048 bytes, use -b option to extract)");
    thumb.binary_size = Some(2048);
    let mut s =
        MainState::new("a.jpg".to_owned(), vec![file("a.jpg", vec![tag("Make", "Canon"), thumb])])
            .unwrap();
    s.cursor = 1;
    assert_eq!(
        s.payload_request(false).unwrap(),
        vec!["a.jpg".to_owned(), "-ThumbnailImage".to_owned(), "-b".to_owned()]
    );
    assert!(matches!(s.payload_request(true), Err(SaveOutcome::AlreadyExists)));
}

#[test]
fn payload_request_without_a_payload() {
    let mut s = single(3);
    assert!(matches!(s.payload_request(false), Err(SaveOutcome::NoPayload)));
    assert!(matches!(s.payload_request(true), Err(SaveOutcome::AlreadyExists)));
    // nothing is selected
    s.cursor = 3;
    assert!(matches!(s.payload_request(false), Err(SaveOutcome::NoPayload)));
    s.filter = "no such tag".to_owned();
    s.cursor = 0;
    assert!(matches!(s.payload_request(false), Err(SaveOutcome::NoPayload)));
    let waiting = MainState::new_multiple_files(vec![]);
    assert!(matches!(waiting.payload_request(false), Err(SaveOutcome::NoPayload)));
}

#[test]
fn save_of_an_entry_without_payload_is_reported() {
    let mut s = single(3);
    s.scrollv_drag_cursor(1);
    let mut d = BinarySaveDialog::default();
    d.fname = "thumb".to_owned();
    s.binary_save_dialog = Some(d);
    assert_eq!(s.try_save_binary(), Ok("thumb.jpeg".to_owned()));
    let outcome = s.payload_request(false).unwrap_err();
    assert_eq!(s.finish_save_binary(outcome), Err(()));
    assert_eq!(
        s.log_msg,
        Some(Err("Selected entry does not contain any binary data!".to_owned()))
    );
    assert!(s.binary_save_dialog.as_ref().unwrap().status.is_ok());
    assert_eq!((s.cursor, s.scroll_offset, s.num_entries_shown), (1, (1, 0), 3));
}

#[test]
fn reading_keeps_what_was_typed_and_set() {
    let mut app = App::new_multiple_files(vec!["dir".to_owned()], None).unwrap();
    app.main_state.filter = "make".to_owned();
    app.main_state.show_details = true;
    app.main_state.data_display_mode.short = true;
    app.main_state.compare_data.mode = Some(true);
    app.main_state.log_msg = Some(Ok("note".to_owned()));
    app.main_state.cursor = 9;
    app.main_state.scroll_offset = (3, 4);
    assert_eq!(app.finish_reading(vec![file("a", numbered(2)), file("b", numbered(1))]), Ok(()));
    let s = &app.main_state;
    assert_eq!(s.filter, "make");
    assert!(s.show_details);
    assert!(s.data_display_mode.short && !s.data_display_mode.numerical);
    assert_eq!(s.compare_data.mode, Some(true));
    assert_eq!(s.log_msg, Some(Ok("note".to_owned())));
    assert!(s.binary_save_dialog.is_none());
    assert!(s.multiple_files_input.is_none());
    assert_eq!((s.num_entries_shown, s.cursor, s.scroll_offset), (2, 0, (0, 0)));
    assert_eq!((s.current_file.as_str(), s.current_file_index), ("a", 0));
    assert_eq!(s.compare_data.data.len(), 2);
}
