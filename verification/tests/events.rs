use exifview::entry::{EtVal, ExiftoolEntry, TagEntry};
use exifview::events::{handle_key_press_events, handle_mouse_event, Action, Key, MouseKind};
use exifview::state::{App, MainInput, Screen};

fn tag(short_name: &str, val: &str) -> TagEntry {
    TagEntry {
        short_name: short_name.to_owned(),
        instance: String::new(),
        binary_size: None,
        name: format!("{short_name} label"),
        id: Some(1),
        table: ("IFD0".to_owned(), "Main".to_owned()),
        val: EtVal::String(val.to_owned()),
        num: None,
        index: None,
    }
}

fn file(name: &str, entries: Vec<TagEntry>) -> ExiftoolEntry {
    ExiftoolEntry { file_name: name.to_owned(), tag_entries: entries }
}

fn one_file() -> App {
    let mut thumb = tag("ThumbnailImage", "(Binary data 2048 bytes, use -b option to extract)");
    thumb.binary_size = Some(2048);
    let mut make = tag("Make", "Canon");
    make.num = Some(EtVal::String("7".to_owned()));
    App::new("a.jpg".to_owned(), vec![file("a.jpg", vec![make, tag("Model", "R5"), thumb])]).unwrap()
}

fn two_files() -> App {
    App::new_multiple_files(
        vec![],
        Some(vec![
            file("a", vec![tag("Make", "Canon"), tag("Model", "R5")]),
            file("b", vec![tag("Make", "Canon"), tag("Model", "R6")]),
        ]),
    )
    .unwrap()
}

fn press(app: &mut App, key: Key) -> Action {
    handle_key_press_events(key, app)
}

#[test]
fn q_quits() {
    let mut app = one_file();
    assert!(matches!(press(&mut app, Key::Char('q')), Action::Quit));
    app.screen = Screen::MiltipleFilesStart;
    assert!(matches!(press(&mut app, Key::Char('q')), Action::Quit));
}

#[test]
fn arrows_move_cursor_and_offset() {
    let mut app = one_file();
    assert!(matches!(press(&mut app, Key::Down), Action::Nothing));
    assert!(matches!(press(&mut app, Key::Down), Action::Nothing));
    assert_eq!(app.main_state.cursor, 2);
    press(&mut app, Key::Down);
    assert_eq!(app.main_state.cursor, 2);
    press(&mut app, Key::Up);
    assert_eq!(app.main_state.cursor, 1);
    press(&mut app, Key::Right);
    press(&mut app, Key::Right);
    press(&mut app, Key::Left);
    assert_eq!(app.main_state.scroll_offset, (0, 1));
}

#[test]
fn space_and_wheel_drag_the_viewport() {
    let mut app = one_file();
    press(&mut app, Key::Char(' '));
    assert_eq!((app.main_state.cursor, app.main_state.scroll_offset.0), (2, 4));
    handle_mouse_event(MouseKind::ScrollUp, &mut app);
    assert_eq!((app.main_state.cursor, app.main_state.scroll_offset.0), (1, 3));
    handle_mouse_event(MouseKind::ScrollDown, &mut app);
    assert_eq!((app.main_state.cursor, app.main_state.scroll_offset.0), (2, 4));
    handle_mouse_event(MouseKind::Other, &mut app);
    assert_eq!((app.main_state.cursor, app.main_state.scroll_offset.0), (2, 4));
    app.screen = Screen::Help;
    handle_mouse_event(MouseKind::ScrollUp, &mut app);
    assert_eq!((app.main_state.cursor, app.main_state.scroll_offset.0), (2, 4));
}

#[test]
fn s_and_n_toggle_the_display_mode() {
    let mut app = one_file();
    press(&mut app, Key::Char('s'));
    assert!(app.main_state.data_display_mode.short);
    assert!(!app.main_state.data_display_mode.numerical);
    press(&mut app, Key::Char('n'));
    press(&mut app, Key::Char('s'));
    assert!(!app.main_state.data_display_mode.short);
    assert!(app.main_state.data_display_mode.numerical);
}

#[test]
fn enter_and_escape_on_the_details() {
    let mut app = one_file();
    press(&mut app, Key::Enter);
    assert!(app.main_state.show_details);
    press(&mut app, Key::Esc);
    assert!(!app.main_state.show_details);
    press(&mut app, Key::Esc);
    assert!(!app.main_state.show_details);
    press(&mut app, Key::Enter);
    press(&mut app, Key::Enter);
    assert!(!app.main_state.show_details);
}

#[test]
fn typing_a_filter() {
    let mut app = one_file();
    press(&mut app, Key::Down);
    press(&mut app, Key::Char('f'));
    assert_eq!(app.screen, Screen::Main(MainInput::Filter));
    assert_eq!((app.main_state.cursor, app.main_state.scroll_offset), (0, (0, 0)));
    for c in "mox".chars() {
        assert!(matches!(press(&mut app, Key::Char(c)), Action::Nothing));
    }
    assert_eq!(app.main_state.filter, "mox");
    press(&mut app, Key::Backspace);
    press(&mut app, Key::Char('d'));
    assert_eq!(app.main_state.filter, "mod");
    press(&mut app, Key::Enter);
    assert_eq!(app.screen, Screen::Main(MainInput::Main));
    assert_eq!(app.main_state.filter, "mod");
    assert_eq!(app.main_state.selected_entry().unwrap().short_name, "Model");
}

#[test]
fn escape_discards_the_filter() {
    let mut app = one_file();
    press(&mut app, Key::Char('f'));
    press(&mut app, Key::Char('q'));
    press(&mut app, Key::Esc);
    assert_eq!(app.screen, Screen::Main(MainInput::Main));
    assert_eq!(app.main_state.filter, "");
}

#[test]
fn backspace_on_an_empty_filter() {
    let mut app = one_file();
    press(&mut app, Key::Char('f'));
    press(&mut app, Key::Backspace);
    assert_eq!(app.main_state.filter, "");
    assert_eq!(app.screen, Screen::Main(MainInput::Filter));
}

#[test]
fn help_screen_opens_and_closes() {
    let mut app = one_file();
    press(&mut app, Key::Char('h'));
    assert_eq!(app.screen, Screen::Help);
    press(&mut app, Key::Char('x'));
    assert_eq!(app.screen, Screen::Help);
    assert!(app.main_state.log_msg.is_none());
    assert!(matches!(press(&mut app, Key::Char('q')), Action::Nothing));
    assert_eq!(app.screen, Screen::Main(MainInput::Main));
    press(&mut app, Key::Char('h'));
    press(&mut app, Key::Enter);
    assert_eq!(app.screen, Screen::Main(MainInput::Main));
    press(&mut app, Key::Char('h'));
    press(&mut app, Key::Esc);
    assert_eq!(app.screen, Screen::Main(MainInput::Main));
}

#[test]
fn w_asks_for_the_web_page() {
    let mut app = one_file();
    match press(&mut app, Key::Char('w')) {
        Action::OpenWebPage(url) => assert_eq!(url, "https://exiftool.org/TagNames/IFD0.html"),
        other => panic!("{other:?}"),
    }
    app.main_state.filter = "no such".to_owned();
    assert!(matches!(press(&mut app, Key::Char('w')), Action::Nothing));
}

#[test]
fn copying_the_value() {
    let mut app = one_file();
    match press(&mut app, Key::Char('x')) {
        Action::CopyText(t) => assert_eq!(t, "Canon"),
        other => panic!("{other:?}"),
    }
    assert_eq!(
        app.main_state.log_msg,
        Some(Ok("Succesfully copied value to clipboard".to_owned()))
    );
}

#[test]
fn copying_the_numeric_value() {
    let mut app = one_file();
    match press(&mut app, Key::Char('X')) {
        Action::CopyText(t) => assert_eq!(t, "7"),
        other => panic!("{other:?}"),
    }
    assert_eq!(
        app.main_state.log_msg,
        Some(Ok("Succesfully copied numerical value to clipboard".to_owned()))
    );
    press(&mut app, Key::Down);
    match press(&mut app, Key::Char('X')) {
        Action::CopyText(t) => assert_eq!(t, "R5"),
        other => panic!("{other:?}"),
    }
}

#[test]
fn copying_the_whole_entry() {
    let mut app = one_file();
    press(&mut app, Key::Down);
    match press(&mut app, Key::Char('C')) {
        Action::CopyText(t) => assert_eq!(
            t,
            "Name: Model label\nShort name: Model\nTag ID: 1 (0x1)\nTag family: IFD0::Main\n\
             Tag value: R5\nTag numerical value: R5"
        ),
        other => panic!("{other:?}"),
    }
    assert_eq!(
        app.main_state.log_msg,
        Some(Ok("Succesfully copied entry data to clipboard".to_owned()))
    );
}

#[test]
fn nothing_is_copied_without_a_selection() {
    let mut app = one_file();
    app.main_state.filter = "no such".to_owned();
    for c in ['x', 'X', 'C', 'F'] {
        assert!(matches!(press(&mut app, Key::Char(c)), Action::Nothing));
    }
    assert!(app.main_state.log_msg.is_none());
    assert_eq!(app.main_state.filter, "no such");
}

#[test]
fn b_opens_the_save_dialog_on_a_binary_entry() {
    let mut app = one_file();
    press(&mut app, Key::Char('b'));
    assert_eq!(app.screen, Screen::Main(MainInput::Main));
    assert!(app.main_state.binary_save_dialog.is_none());
    assert_eq!(
        app.main_state.log_msg,
        Some(Err("Selected entry does not contain any binary data!".to_owned()))
    );
    app.main_state.log_msg = None;
    press(&mut app, Key::Down);
    press(&mut app, Key::Down);
    press(&mut app, Key::Char('b'));
    assert_eq!(app.screen, Screen::Main(MainInput::BinarySaveDialog));
    let d = app.main_state.binary_save_dialog.as_ref().unwrap();
    assert_eq!((d.fname.as_str(), d.fext.as_str(), d.editing_fname), ("", "jpeg", true));
    assert!(app.main_state.log_msg.is_none());
}

#[test]
fn typing_in_the_save_dialog() {
    let mut app = one_file();
    press(&mut app, Key::Down);
    press(&mut app, Key::Down);
    press(&mut app, Key::Char('b'));
    assert!(matches!(press(&mut app, Key::Enter), Action::Nothing));
    assert_eq!(
        app.main_state.binary_save_dialog.as_ref().unwrap().status,
        Err("Please enter a name.".to_owned())
    );
    for c in "tq".chars() {
        press(&mut app, Key::Char(c));
    }
    press(&mut app, Key::Backspace);
    press(&mut app, Key::Tab);
    for _ in 0..5 {
        press(&mut app, Key::Backspace);
    }
    for c in ".png".chars() {
        press(&mut app, Key::Char(c));
    }
    {
        let d = app.main_state.binary_save_dialog.as_ref().unwrap();
        assert_eq!((d.fname.as_str(), d.fext.as_str(), d.editing_fname), ("t", ".png", false));
    }
    match press(&mut app, Key::Enter) {
        Action::SaveBinary(name) => assert_eq!(name, "t.png"),
        other => panic!("{other:?}"),
    }
    assert_eq!(app.screen, Screen::Main(MainInput::BinarySaveDialog));
    assert_eq!(app.main_state.binary_save_dialog.as_ref().unwrap().fext, "png");
    press(&mut app, Key::Esc);
    assert_eq!(app.screen, Screen::Main(MainInput::Main));
    assert!(app.main_state.binary_save_dialog.is_none());
}

#[test]
fn capital_f_filters_by_the_table() {
    let mut app = one_file();
    press(&mut app, Key::Char(' '));
    press(&mut app, Key::Char('F'));
    assert_eq!(app.main_state.filter, "<<IFD0::Main>>");
    assert_eq!((app.main_state.cursor, app.main_state.scroll_offset), (0, (0, 0)));
    assert_eq!(app.main_state.shown_count(), 3);
}

#[test]
fn tab_turns_to_the_next_file() {
    let mut app = two_files();
    press(&mut app, Key::Tab);
    assert_eq!((app.main_state.current_file_index, app.main_state.current_file.as_str()), (1, "b"));
    press(&mut app, Key::Tab);
    assert_eq!((app.main_state.current_file_index, app.main_state.current_file.as_str()), (0, "a"));
    press(&mut app, Key::BackTab);
    assert_eq!((app.main_state.current_file_index, app.main_state.current_file.as_str()), (1, "b"));
    let mut single = one_file();
    press(&mut single, Key::Tab);
    press(&mut single, Key::BackTab);
    assert_eq!(single.main_state.current_file_index, 0);
}

#[test]
fn capital_w_drops_the_active_file() {
    let mut app = two_files();
    press(&mut app, Key::Tab);
    press(&mut app, Key::Char('W'));
    assert_eq!(app.main_state.et_data.len(), 1);
    assert_eq!((app.main_state.current_file_index, app.main_state.current_file.as_str()), (0, "a"));
    press(&mut app, Key::Char('W'));
    assert_eq!(app.main_state.et_data.len(), 1);
}

#[test]
fn c_and_d_switch_the_side_by_side_view() {
    let mut app = two_files();
    press(&mut app, Key::Char('d'));
    assert_eq!(app.main_state.compare_data.mode, None);
    press(&mut app, Key::Tab);
    press(&mut app, Key::Down);
    press(&mut app, Key::Char('c'));
    assert_eq!(app.main_state.compare_data.mode, Some(false));
    assert_eq!((app.main_state.cursor, app.main_state.current_file_index), (0, 0));
    assert_eq!(app.main_state.current_file, "a");
    press(&mut app, Key::Down);
    press(&mut app, Key::Char('d'));
    assert_eq!(app.main_state.compare_data.mode, Some(true));
    assert_eq!(app.main_state.cursor, 0);
    press(&mut app, Key::Tab);
    assert_eq!(app.main_state.selected_entry().unwrap().val.to_string(), "R6");
    press(&mut app, Key::Char('W'));
    assert_eq!(app.main_state.et_data.len(), 2);
    press(&mut app, Key::Char('d'));
    assert_eq!(app.main_state.compare_data.mode, Some(false));
    press(&mut app, Key::Char('c'));
    assert_eq!(app.main_state.compare_data.mode, None);
    assert_eq!(app.main_state.current_file_index, 0);
}

#[test]
fn start_screen_asks_for_the_files() {
    let mut app = App::new_multiple_files(vec!["d".to_owned(), "e".to_owned()], None).unwrap();
    assert!(matches!(press(&mut app, Key::Char('x')), Action::Nothing));
    assert!(app.main_state.multiple_files_input.is_some());
    match press(&mut app, Key::Char('y')) {
        Action::ReadFiles { paths, recursive } => {
            assert_eq!(paths, vec!["d".to_owned(), "e".to_owned()]);
            assert!(recursive);
        }
        other => panic!("{other:?}"),
    }
    assert!(app.main_state.multiple_files_input.is_none());
    assert_eq!(app.screen, Screen::MiltipleFilesStart);
    assert!(matches!(press(&mut app, Key::Enter), Action::Nothing));
    for (key, depth) in [(Key::Enter, true), (Key::Char('n'), false), (Key::Esc, false)] {
        let mut app = App::new_multiple_files(vec!["d".to_owned()], None).unwrap();
        match press(&mut app, key) {
            Action::ReadFiles { paths, recursive } => {
                assert_eq!(paths, vec!["d".to_owned()]);
                assert_eq!(recursive, depth);
            }
            other => panic!("{other:?}"),
        }
    }
}

#[test]
fn other_keys_do_nothing() {
    let mut app = one_file();
    for key in [Key::Other, Key::Backspace, Key::Char('z'), Key::Char('Q')] {
        assert!(matches!(press(&mut app, key), Action::Nothing));
    }
    assert_eq!(app.screen, Screen::Main(MainInput::Main));
    assert_eq!((app.main_state.cursor, app.main_state.scroll_offset), (0, (0, 0)));
    assert_eq!(app.main_state.filter, "");
}
