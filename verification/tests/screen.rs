use opqueue::keys::{KEY_C, KEY_DOWN, KEY_ENTER, KEY_M, KEY_RIGHT};
use opqueue::operation::{Direction, Operation};
use opqueue::panes::{file_line, files_pane, listing, operation_line, operations_pane, PaneLine};
use opqueue::paths::{handle_file_opening, PathKind};
use opqueue::registry::Registry;
use opqueue::session::{Purpose, Session};
use opqueue::status::{
    is_selecting, option_strip, selected_operation, status_line, Emphasis, Segment, StatusLine,
};

fn registry() -> Registry {
    let mut registry = Registry::new();
    for path in ["/pics/holiday.bmp", "/pics/work.v2.bmp"] {
        registry.record_open(handle_file_opening(path, false, PathKind::Missing).unwrap());
    }
    registry.record_save(handle_file_opening("out/..bmp", false, PathKind::Missing).unwrap());
    assert!(registry.record(Operation::Merge(0, 1, Direction::Horizontal)));
    assert!(registry.record(Operation::Crop(3, 1, 2, 30, 40)));
    registry
}

fn session_with(paths: &[&str]) -> Session {
    let mut session = Session::new();
    for path in paths {
        session = session.begin_entry(Purpose::Open, Some(path.to_string()));
        session = session.on_key(KEY_ENTER).0;
        session = session.on_probe(PathKind::RegularFile).0;
    }
    session
}

fn pressed(session: Session, keys: &[i32]) -> Session {
    let mut session = session;
    for key in keys {
        session = session.on_key(*key).0;
    }
    session
}

fn plain(text: &str) -> PaneLine {
    PaneLine { marked: false, text: text.to_string() }
}

fn one(emphasis: Emphasis, text: &str) -> StatusLine {
    StatusLine { emphasis, segments: vec![Segment { highlighted: false, text: text.to_string() }] }
}

#[test]
fn the_pane_of_files_lists_the_stems() {
    assert_eq!(
        files_pane(&registry()),
        vec![plain("Opened files:"), plain("1: holiday"), plain("2: work.v2"), plain("3: .")]
    );
    assert_eq!(files_pane(&Registry::new()), vec![plain("Opened files:")]);
}

#[test]
fn the_pane_of_operations_lists_the_operations() {
    assert_eq!(
        operations_pane(&registry(), None),
        vec![
            plain("Operations:"),
            plain("1: Open(holiday)"),
            plain("2: Open(work.v2)"),
            plain("3: Save(0: .)"),
            plain("4: Merge(0, 1, Hor)"),
            plain("5: Crop(3, 1, 2, 30, 40)"),
        ]
    );
    assert_eq!(operations_pane(&Registry::new(), None), vec![plain("Operations:")]);
}

#[test]
fn the_pane_of_operations_marks_the_selected_line() {
    let lines = operations_pane(&registry(), Some(3));
    let marked: Vec<bool> = lines.iter().map(|line| line.marked).collect();
    assert_eq!(marked, vec![false, false, false, false, true, false]);
    assert_eq!(lines[4].text, "4: Merge(0, 1, Hor)");
    let lines = operations_pane(&registry(), Some(9));
    assert!(lines.iter().all(|line| !line.marked));
}

#[test]
fn lines_are_numbered_in_decimal() {
    assert_eq!(file_line(12, "holiday"), "12: holiday");
    assert_eq!(operation_line(1, &Operation::Open(0), "holiday"), "1: Open(holiday)");
    assert_eq!(operation_line(10, &Operation::Save(0, 4), "out"), "10: Save(0: out)");
    assert_eq!(listing(&Operation::Open(3), "NO NAME"), "Open(NO NAME)");
    assert_eq!(listing(&Operation::Save(2, 3), "x"), "Save(2: x)");
    assert_eq!(listing(&Operation::Merge(2, 3, Direction::Vertical), "x"), "Merge(2, 3, Ver)");
    assert_eq!(listing(&Operation::Crop(2, 3, 4, -5, 6), "x"), "Crop(2, 3, 4, -5, 6)");
}

#[test]
fn a_path_without_a_file_name_is_listed_as_nameless() {
    let mut registry = Registry::new();
    registry.record_save(handle_file_opening("a.bmp", false, PathKind::Missing).unwrap());
    assert_eq!(files_pane(&registry)[1].text, "1: a");
    let session = session_with(&["x/.hidden.bmp"]);
    assert_eq!(files_pane(session.registry())[1].text, "1: .hidden");
}

#[test]
fn the_status_line_is_empty_at_rest() {
    let line = status_line(&Session::new(), false);
    assert_eq!(line, StatusLine { emphasis: Emphasis::Normal, segments: vec![] });
    assert_eq!(selected_operation(&Session::new()), None);
}

#[test]
fn the_status_line_shows_the_path_that_is_entered() {
    let session = Session::new().begin_entry(Purpose::Open, Some("/tmp".to_string()));
    assert_eq!(status_line(&session, false), one(Emphasis::Normal, "File: /tmp"));
    assert_eq!(status_line(&session, true), one(Emphasis::Error, "File: /tmp"));
    assert_eq!(selected_operation(&session), None);
}

#[test]
fn the_status_line_follows_a_merge() {
    let session = session_with(&["a.bmp", "b.bmp", "c.bmp"]);
    let session = pressed(session, &[KEY_M, KEY_DOWN]);
    assert_eq!(status_line(&session, false), one(Emphasis::Normal, "Merge: ("));
    assert_eq!(selected_operation(&session), Some(1));
    let session = pressed(session, &[KEY_ENTER]);
    assert_eq!(status_line(&session, false), one(Emphasis::Normal, "Merge: (2, "));
    assert_eq!(selected_operation(&session), Some(0));
    let session = pressed(session, &[KEY_DOWN, KEY_DOWN, KEY_ENTER]);
    assert_eq!(selected_operation(&session), None);
    let strip = |first: bool| StatusLine {
        emphasis: Emphasis::Normal,
        segments: vec![
            Segment { highlighted: false, text: "Direction: ".to_string() },
            Segment { highlighted: first, text: "H".to_string() },
            Segment { highlighted: false, text: " ".to_string() },
            Segment { highlighted: !first, text: "V".to_string() },
            Segment { highlighted: false, text: " ".to_string() },
        ],
    };
    assert_eq!(status_line(&session, false), strip(true));
    let session = pressed(session, &[KEY_RIGHT]);
    assert_eq!(status_line(&session, false), strip(false));
    let session = pressed(session, &[KEY_ENTER]);
    assert_eq!(
        status_line(&session, false),
        one(Emphasis::Question, "Merge(1, 2, Ver) : Confirm?")
    );
    assert_eq!(selected_operation(&session), None);
}

#[test]
fn the_status_line_follows_a_crop() {
    let session = session_with(&["a.bmp"]);
    let session = pressed(session, &[KEY_C]);
    assert_eq!(status_line(&session, false), one(Emphasis::Normal, "Merge: ("));
    assert_eq!(selected_operation(&session), Some(0));
    let session = pressed(session, &[KEY_ENTER, '1' as i32, '0' as i32]);
    assert_eq!(status_line(&session, false), one(Emphasis::Normal, "X0: 10"));
    assert_eq!(status_line(&session, true), one(Emphasis::Error, "X0: 10"));
    assert_eq!(selected_operation(&session), None);
    let session = pressed(session, &[KEY_ENTER, '2' as i32]);
    assert_eq!(status_line(&session, false), one(Emphasis::Normal, "Y0: 2"));
    let session = pressed(session, &[KEY_ENTER]);
    assert_eq!(status_line(&session, false), one(Emphasis::Normal, "WIDTH: "));
    let session = pressed(session, &['3' as i32, KEY_ENTER, '4' as i32]);
    assert_eq!(status_line(&session, false), one(Emphasis::Normal, "HEIGHT: 4"));
    let session = pressed(session, &[KEY_ENTER]);
    assert_eq!(
        status_line(&session, false),
        one(Emphasis::Question, "Crop(0, 10, 2, 3, 4) : Confirm?")
    );
}

#[test]
fn a_strip_highlights_the_option_under_the_cursor() {
    let segments = option_strip("Pick: ", &vec!['a', 'b', 'c'], 2);
    let texts: Vec<&str> = segments.iter().map(|s| s.text.as_str()).collect();
    let lights: Vec<bool> = segments.iter().map(|s| s.highlighted).collect();
    assert_eq!(texts, vec!["Pick: ", "a", " ", "b", " ", "c", " "]);
    assert_eq!(lights, vec![false, false, false, false, false, true, false]);
    assert_eq!(option_strip("x", &vec![], 0).len(), 1);
}

#[test]
fn the_cursor_is_on_a_candidate_while_something_is_selected() {
    let session = session_with(&["a.bmp"]);
    assert!(!is_selecting(&session));
    let session = pressed(session, &[KEY_M]);
    assert!(is_selecting(&session));
    let session = pressed(session, &[KEY_ENTER]);
    assert!(is_selecting(&session));
    let session = pressed(session, &[KEY_ENTER]);
    assert!(is_selecting(&session));
    let session = pressed(session, &[KEY_ENTER]);
    assert!(!is_selecting(&session));
    let session = pressed(session, &[KEY_ENTER, KEY_C]);
    assert!(is_selecting(&session));
    let session = pressed(session, &[KEY_ENTER]);
    assert!(!is_selecting(&session));
    let session = Session::new().begin_entry(Purpose::Open, None);
    assert!(!is_selecting(&session));
}
