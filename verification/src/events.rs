//! What a key or a turn of the wheel does to the application. The caller
//! reads the events, hands them over one by one, and carries out the
//! action that comes back.

use crate::compare::CompareData;
use crate::entry::{summary, table_text, value_text, web_page, TagEntry};
use crate::state::{
    moved_cursor, moved_offset, App, BinarySaveDialog, DataDisplayMode, MainInput, MainState,
    Screen,
};
use crate::state::{
    bare_extension, complains, next_index, prev_index, turned_to, without_active_file,
};
use crate::text::{pop_char, push_char};
use vstd::prelude::*;
use vstd::string::*;

verus! {

/// A key, as far as the application tells keys apart.
#[derive(Debug, Clone, Copy, PartialEq, Eq, Structural)]
pub enum Key {
    Char(char),
    Up,
    Down,
    Left,
    Right,
    Enter,
    Esc,
    Tab,
    BackTab,
    Backspace,
    Other,
}

/// What the mouse did, as far as the application tells it apart.
#[derive(Debug, Clone, Copy, PartialEq, Eq, Structural)]
pub enum MouseKind {
    ScrollUp,
    ScrollDown,
    Other,
}

/// What the caller is to do after an event.
#[derive(Debug)]
pub enum Action {
    /// Nothing.
    Nothing,
    /// Leave the application.
    Quit,
    /// Open the page at this address.
    OpenWebPage(String),
    /// Put this text on the clipboard.
    CopyText(String),
    /// Read the files at these paths, directories in depth if `recursive`
    /// is set, and hand the entries to `App::finish_reading`.
    ReadFiles { paths: Vec<String>, recursive: bool },
    /// Write the payload of the selected entry to a new file of this name:
    /// look whether such a file is there, ask `MainState::payload_request`
    /// what to run, and hand the outcome to `App::finish_saving`.
    SaveBinary(String),
}

/// The session after the cursor moved by `delta`.
pub open spec fn after_scrollv(s: MainState, delta: i8) -> MainState {
    MainState { cursor: moved_cursor(s.cursor, delta, s.num_entries_shown) as usize, ..s }
}

/// The session after cursor and vertical offset moved together by `delta`.
pub open spec fn after_drag(s: MainState, delta: i8) -> MainState {
    MainState {
        cursor: moved_cursor(s.cursor, delta, s.num_entries_shown) as usize,
        scroll_offset: (moved_offset(s.scroll_offset.0, delta) as u16, s.scroll_offset.1),
        ..s
    }
}

/// The session after the horizontal offset moved by `delta`.
pub open spec fn after_scrollh(s: MainState, delta: i8) -> MainState {
    MainState {
        scroll_offset: (s.scroll_offset.0, moved_offset(s.scroll_offset.1, delta) as u16),
        ..s
    }
}

/// The session with the viewport at the top.
pub open spec fn at_top(s: MainState) -> MainState {
    MainState { cursor: 0, scroll_offset: (0u16, 0u16), ..s }
}

/// Nothing happened.
pub open spec fn ignored(before: App, after: App, action: Action) -> bool {
    after == before && action is Nothing
}

/// `after` is `before` with `text` copied for the clipboard and `note` in
/// the message line.
pub open spec fn copied(
    before: App,
    after: App,
    action: Action,
    text: Seq<char>,
    note: Seq<char>,
) -> bool {
    &&& action matches Action::CopyText(t) && t@ == text
    &&& after.screen == before.screen
    &&& after.main_state.log_msg matches Some(Ok(m)) && m@ == note
    &&& after.main_state == (MainState {
        log_msg: after.main_state.log_msg,
        ..before.main_state
    })
}

/// The effect of a letter or sign on the main screen.
pub open spec fn on_main_char(before: App, c: char, after: App, action: Action) -> bool {
    let b = before.main_state;
    let a = after.main_state;
    if c == ' ' {
        action is Nothing && after == (App { main_state: after_drag(b, 4), ..before })
    } else if c == 'q' {
        action is Quit && after == before
    } else if c == 's' {
        action is Nothing && after == (App {
            main_state: MainState {
                data_display_mode: DataDisplayMode {
                    short: !b.data_display_mode.short,
                    ..b.data_display_mode
                },
                ..b
            },
            ..before
        })
    } else if c == 'n' {
        action is Nothing && after == (App {
            main_state: MainState {
                data_display_mode: DataDisplayMode {
                    numerical: !b.data_display_mode.numerical,
                    ..b.data_display_mode
                },
                ..b
            },
            ..before
        })
    } else if c == 'f' {
        action is Nothing && after == (App {
            screen: Screen::Main(MainInput::Filter),
            main_state: at_top(b),
        })
    } else if c == 'w' {
        after == before && match b.selected() {
            Some(e) => action matches Action::OpenWebPage(url) && url@ == web_page(e@.table.0),
            None => action is Nothing,
        }
    } else if c == 'h' {
        action is Nothing && after == (App { screen: Screen::Help, ..before })
    } else if c == 'x' {
        match b.selected() {
            Some(e) => copied(
                before,
                after,
                action,
                value_text(e@.val),
                "Succesfully copied value to clipboard"@,
            ),
            None => ignored(before, after, action),
        }
    } else if c == 'X' {
        match b.selected() {
            Some(e) => copied(
                before,
                after,
                action,
                value_text(
                    match e@.num {
                        Some(n) => n,
                        None => e@.val,
                    },
                ),
                "Succesfully copied numerical value to clipboard"@,
            ),
            None => ignored(before, after, action),
        }
    } else if c == 'C' {
        match b.selected() {
            Some(e) => copied(
                before,
                after,
                action,
                summary(e@),
                "Succesfully copied entry data to clipboard"@,
            ),
            None => ignored(before, after, action),
        }
    } else if c == 'b' {
        &&& action is Nothing
        &&& if b.selected() matches Some(e) && e@.binary_size is Some {
            &&& after.screen == Screen::Main(MainInput::BinarySaveDialog)
            &&& a.binary_save_dialog matches Some(d) && opened(d)
            &&& a == (MainState { binary_save_dialog: a.binary_save_dialog, ..b })
        } else {
            &&& after.screen == before.screen
            &&& a.log_msg matches Some(Err(m)) && m@
                == "Selected entry does not contain any binary data!"@
            &&& a == (MainState { log_msg: a.log_msg, ..b })
        }
    } else if c == 'F' {
        match b.selected() {
            Some(e) => {
                &&& action is Nothing
                &&& after.screen == before.screen
                &&& a.filter@ == "<<"@ + table_text(e@.table) + ">>"@
                &&& a == (MainState { filter: a.filter, ..at_top(b) })
            },
            None => ignored(before, after, action),
        }
    } else if c == 'W' {
        &&& action is Nothing
        &&& after.screen == before.screen
        &&& if b.can_drop_file() {
            without_active_file(b, a)
        } else {
            a == b
        }
    } else if c == 'c' {
        &&& action is Nothing
        &&& after.screen == before.screen
        &&& a.compare_data.mode == if b.compare_data.mode is Some {
            None
        } else {
            Some(false)
        }
        &&& a.compare_data.data == b.compare_data.data
        &&& a.current_file_index == 0
        &&& a.current_file@ == if b.et_data.len() > 0 {
            b.et_data[0].file_name@
        } else {
            b.current_file@
        }
        &&& a == (MainState {
            compare_data: a.compare_data,
            current_file_index: 0,
            current_file: a.current_file,
            ..at_top(b)
        })
    } else if c == 'd' {
        match b.compare_data.mode {
            Some(only_diff) => action is Nothing && after == (App {
                main_state: MainState {
                    compare_data: CompareData { mode: Some(!only_diff), ..b.compare_data },
                    ..at_top(b)
                },
                ..before
            }),
            None => ignored(before, after, action),
        }
    } else {
        ignored(before, after, action)
    }
}

/// The save dialog as it is first shown.
pub open spec fn opened(d: BinarySaveDialog) -> bool {
    &&& d.fname@.len() == 0
    &&& d.fext@ == "jpeg"@
    &&& d.status matches Ok(m) && m@
        == "File will be saved in Downloads. You probably want a .jpeg."@
    &&& d.editing_fname
}

/// The effect of a key on the main screen.
pub open spec fn on_main_key(before: App, key: Key, after: App, action: Action) -> bool {
    let b = before.main_state;
    match key {
        Key::Char(c) => on_main_char(before, c, after, action),
        Key::Up => action is Nothing && after == (App {
            main_state: after_scrollv(b, -1i8),
            ..before
        }),
        Key::Down => action is Nothing && after == (App {
            main_state: after_scrollv(b, 1),
            ..before
        }),
        Key::Left => action is Nothing && after == (App {
            main_state: after_scrollh(b, -1i8),
            ..before
        }),
        Key::Right => action is Nothing && after == (App {
            main_state: after_scrollh(b, 1),
            ..before
        }),
        Key::Enter => action is Nothing && after == (App {
            main_state: MainState { show_details: !b.show_details, ..b },
            ..before
        }),
        Key::Esc => action is Nothing && after == (App {
            main_state: MainState { show_details: false, ..b },
            ..before
        }),
        Key::Tab => {
            &&& action is Nothing
            &&& after.screen == before.screen
            &&& if b.et_data.len() > 1 {
                turned_to(b, after.main_state, next_index(b.current_file_index, b.et_data.len()))
            } else {
                after == before
            }
        },
        Key::BackTab => {
            &&& action is Nothing
            &&& after.screen == before.screen
            &&& if b.et_data.len() > 1 {
                turned_to(b, after.main_state, prev_index(b.current_file_index, b.et_data.len()))
            } else {
                after == before
            }
        },
        _ => ignored(before, after, action),
    }
}

/// The effect of a key while the filter is typed.
pub open spec fn on_filter_key(before: App, key: Key, after: App, action: Action) -> bool {
    let b = before.main_state;
    let a = after.main_state;
    &&& action is Nothing
    &&& match key {
        Key::Char(c) => {
            &&& after.screen == before.screen
            &&& a.filter@ == b.filter@.push(c)
            &&& a == (MainState { filter: a.filter, ..b })
        },
        Key::Backspace => {
            &&& after.screen == before.screen
            &&& a.filter@ == if b.filter@.len() > 0 {
                b.filter@.drop_last()
            } else {
                b.filter@
            }
            &&& a == (MainState { filter: a.filter, ..b })
        },
        Key::Enter => after == (App { screen: Screen::Main(MainInput::Main), ..before }),
        Key::Esc => {
            &&& after.screen == Screen::Main(MainInput::Main)
            &&& a.filter@.len() == 0
            &&& a == (MainState { filter: a.filter, ..b })
        },
        _ => after == before,
    }
}

/// `after` is the dialog `before` with other texts in its two fields.
pub open spec fn retyped(
    before: BinarySaveDialog,
    after: BinarySaveDialog,
    fname: Seq<char>,
    fext: Seq<char>,
) -> bool {
    &&& after.fname@ == fname
    &&& after.fext@ == fext
    &&& after.status == before.status
    &&& after.editing_fname == before.editing_fname
}

/// A text without its last character, if it has one.
pub open spec fn without_last(s: Seq<char>) -> Seq<char> {
    if s.len() > 0 {
        s.drop_last()
    } else {
        s
    }
}

/// The effect of a key while the save dialog is open.
pub open spec fn on_dialog_key(before: App, key: Key, after: App, action: Action) -> bool {
    let b = before.main_state;
    let a = after.main_state;
    &&& a == (MainState { binary_save_dialog: a.binary_save_dialog, ..b })
    &&& match key {
        Key::Char(c) => {
            &&& action is Nothing
            &&& after.screen == before.screen
            &&& match b.binary_save_dialog {
                Some(d) => a.binary_save_dialog matches Some(e) && if d.editing_fname {
                    retyped(d, e, d.fname@.push(c), d.fext@)
                } else {
                    retyped(d, e, d.fname@, d.fext@.push(c))
                },
                None => a.binary_save_dialog is None,
            }
        },
        Key::Backspace => {
            &&& action is Nothing
            &&& after.screen == before.screen
            &&& match b.binary_save_dialog {
                Some(d) => a.binary_save_dialog matches Some(e) && if d.editing_fname {
                    retyped(d, e, without_last(d.fname@), d.fext@)
                } else {
                    retyped(d, e, d.fname@, without_last(d.fext@))
                },
                None => a.binary_save_dialog is None,
            }
        },
        Key::Tab => {
            &&& action is Nothing
            &&& after.screen == before.screen
            &&& match b.binary_save_dialog {
                Some(d) => a.binary_save_dialog == Some(
                    BinarySaveDialog { editing_fname: !d.editing_fname, ..d },
                ),
                None => a.binary_save_dialog is None,
            }
        },
        Key::Enter => {
            &&& after.screen == before.screen
            &&& match b.binary_save_dialog {
                Some(d) => a.binary_save_dialog matches Some(e) && if d.fname@.len() == 0 {
                    action is Nothing && complains(d, e, "Please enter a name."@)
                } else if d.fext@.len() == 0 {
                    action is Nothing && complains(
                        d,
                        e,
                        "Please enter an extension."@,
                    )
                } else {
                    &&& action matches Action::SaveBinary(name) && name@ == d.fname@ + "."@
                        + bare_extension(d.fext@)
                    &&& e.fname == d.fname
                    &&& e.fext@ == bare_extension(d.fext@)
                    &&& e.status == d.status
                    &&& e.editing_fname == d.editing_fname
                },
                None => action is Nothing && a.binary_save_dialog is None,
            }
        },
        Key::Esc => {
            &&& action is Nothing
            &&& after.screen == Screen::Main(MainInput::Main)
            &&& a.binary_save_dialog is None
        },
        _ => action is Nothing && after == before,
    }
}

/// The effect of a key on the help screen.
pub open spec fn on_help_key(before: App, key: Key, after: App, action: Action) -> bool {
    &&& action is Nothing
    &&& if key == Key::Esc || key == Key::Enter || key == Key::Char('q') {
        after == (App { screen: Screen::Main(MainInput::Main), ..before })
    } else {
        after == before
    }
}

/// The effect of a key on the screen that asks whether to read
/// directories in depth.
pub open spec fn on_start_key(before: App, key: Key, after: App, action: Action) -> bool {
    let b = before.main_state;
    if key == Key::Char('q') {
        action is Quit && after == before
    } else if key == Key::Char('y') || key == Key::Enter || key == Key::Char('n') || key
        == Key::Esc {
        match b.multiple_files_input {
            Some(input) => {
                &&& action == (Action::ReadFiles {
                    paths: input,
                    recursive: key == Key::Char('y') || key == Key::Enter,
                })
                &&& after == (App {
                    main_state: MainState { multiple_files_input: None, ..b },
                    ..before
                })
            },
            None => ignored(before, after, action),
        }
    } else {
        ignored(before, after, action)
    }
}

/// The effect of a key press.
pub open spec fn on_key(before: App, key: Key, after: App, action: Action) -> bool {
    match before.screen {
        Screen::Main(MainInput::Main) => on_main_key(before, key, after, action),
        Screen::Main(MainInput::Filter) => on_filter_key(before, key, after, action),
        Screen::Main(MainInput::BinarySaveDialog) => on_dialog_key(before, key, after, action),
        Screen::Help => on_help_key(before, key, after, action),
        Screen::MiltipleFilesStart => on_start_key(before, key, after, action),
    }
}

/// The effect of the mouse: on the main screen the wheel moves cursor and
/// offset together by one row.
pub open spec fn on_mouse(before: App, kind: MouseKind, after: App) -> bool {
    match (before.screen, kind) {
        (Screen::Main(MainInput::Main), MouseKind::ScrollUp) => after == (App {
            main_state: after_drag(before.main_state, -1i8),
            ..before
        }),
        (Screen::Main(MainInput::Main), MouseKind::ScrollDown) => after == (App {
            main_state: after_drag(before.main_state, 1),
            ..before
        }),
        _ => after == before,
    }
}


/// The text of the selected entry that the key `c` copies.
fn text_to_copy(e: &TagEntry, c: char) -> (r: String)
    requires
        c == 'x' || c == 'X' || c == 'C',
    ensures
        r@ == if c == 'x' {
            value_text(e@.val)
        } else if c == 'X' {
            value_text(
                match e@.num {
                    Some(n) => n,
                    None => e@.val,
                },
            )
        } else {
            summary(e@)
        },
{
    if c == 'x' {
        e.val.to_string()
    } else if c == 'X' {
        match &e.num {
            Some(n) => n.to_string(),
            None => e.val.to_string(),
        }
    } else {
        e.to_string()
    }
}

/// A letter or sign on the main screen.
fn handle_main_char(c: char, app: &mut App) -> (action: Action)
    requires
        old(app).screen == Screen::Main(MainInput::Main),
    ensures
        on_main_char(*old(app), c, *final(app), action),
{
    if c == ' ' {
        app.main_state.scrollv_drag_cursor(4);
        Action::Nothing
    } else if c == 'q' {
        Action::Quit
    } else if c == 's' {
        app.main_state.data_display_mode.short = !app.main_state.data_display_mode.short;
        Action::Nothing
    } else if c == 'n' {
        app.main_state.data_display_mode.numerical = !app.main_state.data_display_mode.numerical;
        Action::Nothing
    } else if c == 'f' {
        app.screen = Screen::Main(MainInput::Filter);
        app.main_state.reset_view();
        Action::Nothing
    } else if c == 'w' {
        match app.main_state.selected_entry() {
            Some(e) => Action::OpenWebPage(e.open_web_page()),
            None => Action::Nothing,
        }
    } else if c == 'h' {
        app.screen = Screen::Help;
        Action::Nothing
    } else if c == 'x' || c == 'X' || c == 'C' {
        let text = match app.main_state.selected_entry() {
            Some(e) => Some(text_to_copy(e, c)),
            None => None,
        };
        match text {
            Some(t) => {
                let note = if c == 'x' {
                    "Succesfully copied value to clipboard"
                } else if c == 'X' {
                    "Succesfully copied numerical value to clipboard"
                } else {
                    "Succesfully copied entry data to clipboard"
                };
                app.main_state.log_msg = Some(Ok(note.to_owned()));
                Action::CopyText(t)
            },
            None => Action::Nothing,
        }
    } else if c == 'b' {
        let has_payload = match app.main_state.selected_entry() {
            Some(e) => e.binary_size.is_some(),
            None => false,
        };
        if has_payload {
            app.main_state.binary_save_dialog = Some(BinarySaveDialog::default());
            app.screen = Screen::Main(MainInput::BinarySaveDialog);
        } else {
            app.main_state.log_msg = Some(
                Err("Selected entry does not contain any binary data!".to_owned()),
            );
        }
        Action::Nothing
    } else if c == 'F' {
        let table = match app.main_state.selected_entry() {
            Some(e) => Some(e.table_to_string()),
            None => None,
        };
        match table {
            Some(t) => {
                let mut filter = "<<".to_owned();
                filter.append(t.as_str());
                filter.append(">>");
                app.main_state.filter = filter;
                app.main_state.reset_view();
            },
            None => {},
        }
        Action::Nothing
    } else if c == 'W' {
        app.main_state.drop_current_file();
        Action::Nothing
    } else if c == 'c' {
        if app.main_state.compare_data.mode.is_some() {
            app.main_state.compare_data.mode = None;
        } else {
            app.main_state.compare_data.mode = Some(false);
        }
        app.main_state.reset_view();
        app.main_state.current_file_index = 0;
        if app.main_state.et_data.len() > 0 {
            app.main_state.current_file = app.main_state.et_data[0].file_name.clone();
        }
        Action::Nothing
    } else if c == 'd' {
        match app.main_state.compare_data.mode {
            Some(only_diff) => {
                app.main_state.compare_data.mode = Some(!only_diff);
                app.main_state.reset_view();
            },
            None => {},
        }
        Action::Nothing
    } else {
        Action::Nothing
    }
}

/// A key on the main screen.
fn handle_main_key(key: Key, app: &mut App) -> (action: Action)
    requires
        old(app).screen == Screen::Main(MainInput::Main),
    ensures
        on_main_key(*old(app), key, *final(app), action),
{
    match key {
        Key::Char(c) => {
            return handle_main_char(c, app);
        },
        Key::Up => {
            app.main_state.scrollv(-1);
        },
        Key::Down => {
            app.main_state.scrollv(1);
        },
        Key::Left => {
            app.main_state.scrollh(-1);
        },
        Key::Right => {
            app.main_state.scrollh(1);
        },
        Key::Enter => {
            app.main_state.show_details = !app.main_state.show_details;
        },
        Key::Esc => {
            app.main_state.show_details = false;
        },
        Key::Tab => {
            app.main_state.next_file();
        },
        Key::BackTab => {
            app.main_state.prev_file();
        },
        _ => {},
    }
    Action::Nothing
}

/// A key while the filter is typed.
fn handle_filter_key(key: Key, app: &mut App) -> (action: Action)
    ensures
        on_filter_key(*old(app), key, *final(app), action),
{
    match key {
        Key::Char(c) => {
            push_char(&mut app.main_state.filter, c);
        },
        Key::Backspace => {
            pop_char(&mut app.main_state.filter);
        },
        Key::Enter => {
            app.screen = Screen::Main(MainInput::Main);
        },
        Key::Esc => {
            app.screen = Screen::Main(MainInput::Main);
            app.main_state.filter = String::new();
        },
        _ => {},
    }
    Action::Nothing
}

/// A key while the save dialog is open.
fn handle_dialog_key(key: Key, app: &mut App) -> (action: Action)
    ensures
        on_dialog_key(*old(app), key, *final(app), action),
{
    match key {
        Key::Char(c) => {
            match &mut app.main_state.binary_save_dialog {
                Some(dialog) => {
                    if dialog.editing_fname {
                        push_char(&mut dialog.fname, c);
                    } else {
                        push_char(&mut dialog.fext, c);
                    }
                },
                None => {},
            }
            Action::Nothing
        },
        Key::Backspace => {
            match &mut app.main_state.binary_save_dialog {
                Some(dialog) => {
                    if dialog.editing_fname {
                        pop_char(&mut dialog.fname);
                    } else {
                        pop_char(&mut dialog.fext);
                    }
                },
                None => {},
            }
            Action::Nothing
        },
        Key::Tab => {
            match &mut app.main_state.binary_save_dialog {
                Some(dialog) => {
                    dialog.editing_fname = !dialog.editing_fname;
                },
                None => {},
            }
            Action::Nothing
        },
        Key::Enter => {
            match app.main_state.try_save_binary() {
                Ok(name) => Action::SaveBinary(name),
                Err(()) => Action::Nothing,
            }
        },
        Key::Esc => {
            app.screen = Screen::Main(MainInput::Main);
            app.main_state.binary_save_dialog = None;
            Action::Nothing
        },
        _ => Action::Nothing,
    }
}

/// A key on the help screen.
fn handle_help_key(key: Key, app: &mut App) -> (action: Action)
    ensures
        on_help_key(*old(app), key, *final(app), action),
{
    match key {
        Key::Esc | Key::Enter | Key::Char('q') => {
            app.screen = Screen::Main(MainInput::Main);
        },
        _ => {},
    }
    Action::Nothing
}

/// A key on the screen that asks whether to read directories in depth.
fn handle_start_key(key: Key, app: &mut App) -> (action: Action)
    ensures
        on_start_key(*old(app), key, *final(app), action),
{
    let recursive = match key {
        Key::Char('q') => {
            return Action::Quit;
        },
        Key::Char('y') | Key::Enter => true,
        Key::Char('n') | Key::Esc => false,
        _ => {
            return Action::Nothing;
        },
    };
    match app.main_state.multiple_files_input.take() {
        Some(paths) => Action::ReadFiles { paths, recursive },
        None => Action::Nothing,
    }
}

/// Applies a key press to the application and says what the caller is to
/// do next.
pub fn handle_key_press_events(key: Key, app: &mut App) -> (action: Action)
    ensures
        on_key(*old(app), key, *final(app), action),
{
    match app.screen {
        Screen::Main(MainInput::Main) => handle_main_key(key, app),
        Screen::Main(MainInput::Filter) => handle_filter_key(key, app),
        Screen::Main(MainInput::BinarySaveDialog) => handle_dialog_key(key, app),
        Screen::Help => handle_help_key(key, app),
        Screen::MiltipleFilesStart => handle_start_key(key, app),
    }
}

/// Applies what the mouse did to the application.
pub fn handle_mouse_event(kind: MouseKind, app: &mut App)
    ensures
        on_mouse(*old(app), kind, *final(app)),
{
    match (app.screen, kind) {
        (Screen::Main(MainInput::Main), MouseKind::ScrollUp) => {
            app.main_state.scrollv_drag_cursor(-1);
        },
        (Screen::Main(MainInput::Main), MouseKind::ScrollDown) => {
            app.main_state.scrollv_drag_cursor(1);
        },
        _ => {},
    }
}


/// No key takes the loaded files or the active file away, and no key moves
/// the cursor out of the list.
pub proof fn lemma_key_keeps_session_sound(before: App, key: Key, after: App, action: Action)
    requires
        on_key(before, key, after, action),
    ensures
        before.main_state.loaded() ==> after.main_state.loaded(),
        before.main_state.cursor_in_view() ==> after.main_state.cursor_in_view(),
{
}

/// Nor does the mouse.
pub proof fn lemma_mouse_keeps_session_sound(before: App, kind: MouseKind, after: App)
    requires
        on_mouse(before, kind, after),
    ensures
        before.main_state.loaded() ==> after.main_state.loaded(),
        before.main_state.cursor_in_view() ==> after.main_state.cursor_in_view(),
{
}

} // verus!
