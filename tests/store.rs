use redpill_store::layout::{chart_state_file, database_segments, sticky_notes_file, Location};
use redpill_store::ping;
use redpill_store::sanitize::{is_safe_id_char, sanitize_id};
use redpill_store::session::{Action, Event, Request, Session};

fn segments(v: &[&str]) -> Vec<String> {
    v.iter().map(|s| s.to_string()).collect()
}

fn drawings() -> Vec<String> {
    segments(&["RedPillCharting", "Database", "Drawings"])
}

fn sticky_dir() -> Vec<String> {
    segments(&["RedPillCharting", "Database", "StickyNotes"])
}

fn chart(id: &str, state: &str) -> Request {
    Request::SaveChartState { source_id: id.to_string(), state: state.to_string() }
}

/// Runs a request, answering each action from `events` in turn; returns all actions.
fn drive(request: Request, events: Vec<Event>) -> (Session, Vec<Action>) {
    let (mut s, a) = Session::start(request);
    let mut actions = vec![a];
    for e in events {
        assert!(s.expects_event(&e));
        let (n, a) = s.step(e);
        s = n;
        actions.push(a);
    }
    (s, actions)
}

fn assert_location(l: &Location, dirs: &[String], file: &str) {
    assert_eq!(l.dirs, dirs);
    assert_eq!(l.file, file);
}

#[test]
fn ping_answers_pong() {
    assert_eq!(ping(), "pong");
    assert_eq!(ping(), "pong");
}

#[test]
fn sanitize_replaces_traversal() {
    assert_eq!(sanitize_id("../../etc/passwd"), "______etc_passwd");
    assert_eq!(sanitize_id("a\\b\0c"), "a_b_c");
    assert_eq!(sanitize_id("a b.c"), "a_b_c");
}

#[test]
fn sanitize_keeps_safe_characters() {
    assert_eq!(sanitize_id("BTC-USD_1h"), "BTC-USD_1h");
    assert_eq!(sanitize_id("caf\u{e9}\u{661}"), "caf\u{e9}\u{661}");
    assert_eq!(sanitize_id(""), "");
}

#[test]
fn sanitize_is_idempotent_on_examples() {
    for s in ["../../evil", "x/y\\z", "ok-id_9", "\u{0}..", "€$%"] {
        let once = sanitize_id(s);
        assert_eq!(sanitize_id(&once), once);
        assert!(!once.contains('/') && !once.contains('\\'));
        assert!(!once.contains("..") && !once.contains('\0'));
    }
}

#[test]
fn safe_characters() {
    assert!(is_safe_id_char('a'));
    assert!(is_safe_id_char('Z'));
    assert!(is_safe_id_char('7'));
    assert!(is_safe_id_char('_'));
    assert!(is_safe_id_char('-'));
    assert!(is_safe_id_char('\u{e9}'));
    assert!(!is_safe_id_char('/'));
    assert!(!is_safe_id_char('.'));
    assert!(!is_safe_id_char(' '));
    assert!(!is_safe_id_char('\0'));
}

#[test]
fn chart_file_of_evil_id_stays_in_drawings() {
    let l = chart_state_file("../../evil");
    assert_location(&l, &drawings(), "______evil.json");
    assert_eq!(l.dirs.last().map(|d| d.as_str()), Some("Drawings"));
}

#[test]
fn chart_file_of_empty_id() {
    assert_location(&chart_state_file(""), &drawings(), ".json");
}

#[test]
fn layout_paths() {
    assert_eq!(database_segments(), segments(&["RedPillCharting", "Database"]));
    assert_location(&sticky_notes_file(), &sticky_dir(), "sticky_notes.json");
}

#[test]
fn chart_save_creates_missing_dir_then_writes() {
    let (s, a) = drive(
        chart("../../evil", "{\"lines\":[]}"),
        vec![
            Event::RootResolved(Ok(())),
            Event::DirExists(false),
            Event::DirCreated(Ok(())),
            Event::Written(Ok(())),
        ],
    );
    assert!(s.is_finished());
    assert!(matches!(a[0], Action::ResolveRoot));
    assert!(matches!(&a[1], Action::CheckDir(d) if *d == drawings()));
    assert!(matches!(&a[2], Action::CreateDir(d) if *d == drawings()));
    match &a[3] {
        Action::WriteFile(l, t) => {
            assert_location(l, &drawings(), "______evil.json");
            assert_eq!(t, "{\"lines\":[]}");
        },
        _ => panic!("expected a write"),
    }
    assert!(matches!(a[4], Action::Succeed));
}

#[test]
fn chart_saves_twice_write_one_file() {
    let mut written = Vec::new();
    for (state, exists) in [("first", false), ("second", true)] {
        let mut events = vec![Event::RootResolved(Ok(())), Event::DirExists(exists)];
        if !exists {
            events.push(Event::DirCreated(Ok(())));
        }
        events.push(Event::Written(Ok(())));
        let (_, a) = drive(chart("chart/1", state), events);
        for act in a {
            if let Action::WriteFile(l, t) = act {
                written.push((l.dirs, l.file, t));
            }
        }
    }
    assert_eq!(written.len(), 2);
    assert_eq!(written[0].0, written[1].0);
    assert_eq!(written[0].1, "chart_1.json");
    assert_eq!(written[1].1, "chart_1.json");
    assert_eq!(written[0].2, "first");
    assert_eq!(written[1].2, "second");
}

#[test]
fn notes_save_encodes_then_writes() {
    let json = "[\n  {\n    \"id\": \"n1\"\n  }\n]";
    let (s, a) = drive(
        Request::SaveStickyNotes,
        vec![
            Event::RootResolved(Ok(())),
            Event::DirExists(true),
            Event::Encoded(Ok(json.to_string())),
            Event::Written(Ok(())),
        ],
    );
    assert!(s.is_finished());
    assert!(matches!(&a[1], Action::CheckDir(d) if *d == sticky_dir()));
    assert!(matches!(a[2], Action::EncodeNotes));
    match &a[3] {
        Action::WriteFile(l, t) => {
            assert_location(l, &sticky_dir(), "sticky_notes.json");
            assert_eq!(t, json);
        },
        _ => panic!("expected a write"),
    }
    assert!(matches!(a[4], Action::Succeed));
}

#[test]
fn load_without_file_is_empty() {
    let (s, a) = drive(
        Request::LoadStickyNotes,
        vec![Event::RootResolved(Ok(())), Event::FileExists(false)],
    );
    assert!(s.is_finished());
    match &a[1] {
        Action::CheckFile(l) => assert_location(l, &sticky_dir(), "sticky_notes.json"),
        _ => panic!("expected a file check"),
    }
    assert!(matches!(a[2], Action::ReturnEmpty));
}

#[test]
fn load_reads_back_saved_text() {
    let text = "[{\"id\":\"a\"},{\"id\":\"b\"}]";
    let (s, a) = drive(
        Request::LoadStickyNotes,
        vec![
            Event::RootResolved(Ok(())),
            Event::FileExists(true),
            Event::FileRead(Ok(text.to_string())),
        ],
    );
    assert!(s.is_finished());
    match &a[2] {
        Action::ReadFile(l) => assert_location(l, &sticky_dir(), "sticky_notes.json"),
        _ => panic!("expected a read"),
    }
    assert!(matches!(&a[3], Action::DecodeNotes(t) if t == text));
}

fn last_failure(request: Request, events: Vec<Event>) -> String {
    let (s, mut a) = drive(request, events);
    assert!(s.is_finished());
    match a.pop() {
        Some(Action::Fail(m)) => m,
        _ => panic!("expected a failure"),
    }
}

#[test]
fn root_failure_ends_command() {
    let m = last_failure(
        Request::LoadStickyNotes,
        vec![Event::RootResolved(Err("no app data dir".to_string()))],
    );
    assert_eq!(m, "no app data dir");
}

#[test]
fn dir_creation_failure_ends_save() {
    let m = last_failure(
        chart("x", "{}"),
        vec![
            Event::RootResolved(Ok(())),
            Event::DirExists(false),
            Event::DirCreated(Err("permission denied".to_string())),
        ],
    );
    assert_eq!(m, "permission denied");
}

#[test]
fn encode_failure_ends_notes_save() {
    let m = last_failure(
        Request::SaveStickyNotes,
        vec![
            Event::RootResolved(Ok(())),
            Event::DirExists(true),
            Event::Encoded(Err("bad value".to_string())),
        ],
    );
    assert_eq!(m, "bad value");
}

#[test]
fn write_failure_ends_save() {
    let m = last_failure(
        chart("x", "{}"),
        vec![
            Event::RootResolved(Ok(())),
            Event::DirExists(true),
            Event::Written(Err("disk full".to_string())),
        ],
    );
    assert_eq!(m, "disk full");
}

#[test]
fn read_failure_ends_load() {
    let m = last_failure(
        Request::LoadStickyNotes,
        vec![
            Event::RootResolved(Ok(())),
            Event::FileExists(true),
            Event::FileRead(Err("is a directory".to_string())),
        ],
    );
    assert_eq!(m, "is a directory");
}

#[test]
fn unexpected_events_are_refused() {
    let (s, _) = Session::start(Request::LoadStickyNotes);
    assert!(!s.expects_event(&Event::DirExists(true)));
    assert!(s.expects_event(&Event::RootResolved(Ok(()))));
    let (s, _) = s.step(Event::RootResolved(Ok(())));
    assert!(!s.is_finished());
    assert!(!s.expects_event(&Event::DirExists(true)));
    assert!(s.expects_event(&Event::FileExists(true)));
}
