use fallback_save::candidates::{build_targets, resolve_home, Failure, Location};
use fallback_save::commands::test_command;
use fallback_save::writer::{Action, Event, FallbackWriter, SaveError};

fn s(x: &str) -> String {
    x.to_string()
}

fn writer(content: &[u8], cwd: Option<&str>, home: Option<&str>) -> FallbackWriter {
    FallbackWriter::new(s("notes.txt"), content.to_vec(), cwd.map(s), home.map(s))
}

#[test]
fn connectivity_reply() {
    assert_eq!(test_command(), "Tauri command works!");
}

#[test]
fn home_prefers_home_variable() {
    assert_eq!(resolve_home(Some(s("/home/a")), Some(s("C:\\Users\\a"))), Some(s("/home/a")));
    assert_eq!(resolve_home(None, Some(s("C:\\Users\\a"))), Some(s("C:\\Users\\a")));
    assert_eq!(resolve_home(Some(s("/home/a")), None), Some(s("/home/a")));
    assert_eq!(resolve_home(None, None), None);
}

#[test]
fn location_folders() {
    assert_eq!(Location::WorkingDir.subdir(), None);
    assert_eq!(Location::Desktop.subdir(), Some(s("Desktop")));
    assert_eq!(Location::Downloads.subdir(), Some(s("Downloads")));
}

#[test]
fn targets_in_order() {
    let t = build_targets(&s("a.bin"), &Some(s("/work")), &Some(s("/home/u")));
    assert_eq!(t.len(), 3);
    let locs: Vec<Location> = t.iter().map(|r| r.as_ref().unwrap().location).collect();
    assert_eq!(locs, vec![Location::WorkingDir, Location::Desktop, Location::Downloads]);
    let c = t[1].as_ref().unwrap();
    assert_eq!(c.root, "/home/u");
    assert_eq!(c.filename, "a.bin");
    assert_eq!(t[0].as_ref().unwrap().root, "/work");
}

#[test]
fn targets_without_directories() {
    let t = build_targets(&s("a.bin"), &None, &None);
    assert_eq!(t.len(), 3);
    assert!(matches!(t[0], Err(Failure::WorkingDirectoryUnresolved)));
    assert!(matches!(t[1], Err(Failure::HomeDirectoryUnresolved)));
    assert!(matches!(t[2], Err(Failure::HomeDirectoryUnresolved)));
}

#[test]
fn working_dir_takes_the_file() {
    let mut w = writer(b"hello", Some("/work"), Some("/home/u"));
    assert_eq!(w.pending(), Action::CheckParent(0));
    assert_eq!(w.step(Event::ParentExists(true)), Action::Write(0));
    assert_eq!(w.content(), &b"hello".to_vec());
    assert_eq!(w.step(Event::Written(true)), Action::Saved(0));
    let c = w.outcome().unwrap().unwrap();
    assert_eq!(c.location, Location::WorkingDir);
    assert_eq!(c.root, "/work");
    assert_eq!(c.filename, "notes.txt");
    assert!(w.failures().is_empty());
}

#[test]
fn empty_content_is_written() {
    let mut w = writer(b"", Some("/work"), None);
    assert_eq!(w.step(Event::ParentExists(true)), Action::Write(0));
    assert!(w.content().is_empty());
    assert_eq!(w.step(Event::Written(true)), Action::Saved(0));
}

#[test]
fn missing_parent_is_created_first() {
    let mut w = writer(b"x", Some("/work"), Some("/home/u"));
    assert_eq!(w.step(Event::ParentExists(false)), Action::CreateParent(0));
    assert_eq!(w.step(Event::ParentCreated(true)), Action::Write(0));
    assert_eq!(w.step(Event::Written(true)), Action::Saved(0));
}

#[test]
fn desktop_after_working_dir_fails() {
    let mut w = writer(b"x", Some("/work"), Some("/home/u"));
    assert_eq!(w.step(Event::ParentExists(true)), Action::Write(0));
    assert_eq!(w.step(Event::Written(false)), Action::CheckParent(1));
    assert_eq!(w.step(Event::ParentExists(true)), Action::Write(1));
    assert_eq!(w.step(Event::Written(true)), Action::Saved(1));
    let c = w.outcome().unwrap().unwrap();
    assert_eq!(c.location, Location::Desktop);
    assert_eq!(c.root, "/home/u");
    assert_eq!(w.failures(), &vec![Failure::WriteFailed]);
}

#[test]
fn downloads_after_directory_failure() {
    let mut w = writer(b"x", Some("/work"), Some("/home/u"));
    w.step(Event::ParentExists(false));
    assert_eq!(w.step(Event::ParentCreated(false)), Action::CheckParent(1));
    w.step(Event::ParentExists(false));
    assert_eq!(w.step(Event::ParentCreated(false)), Action::CheckParent(2));
    w.step(Event::ParentExists(true));
    assert_eq!(w.step(Event::Written(true)), Action::Saved(2));
    assert_eq!(w.outcome().unwrap().unwrap().location, Location::Downloads);
    assert_eq!(
        w.failures(),
        &vec![Failure::DirectoryCreateFailed, Failure::DirectoryCreateFailed]
    );
}

#[test]
fn all_targets_fail() {
    let mut w = writer(b"x", Some("/work"), Some("/home/u"));
    for i in 0..3 {
        assert_eq!(w.pending(), Action::CheckParent(i));
        w.step(Event::ParentExists(true));
        w.step(Event::Written(false));
    }
    assert_eq!(w.pending(), Action::Exhausted);
    let e = w.outcome().unwrap().unwrap_err();
    assert_eq!(e, SaveError::AllCandidatesExhausted);
    assert_eq!(e.message(), "Failed to save file to any location");
    assert_eq!(w.failures().len(), 3);
}

#[test]
fn no_home_still_tries_working_dir() {
    let mut w = writer(b"x", Some("/work"), None);
    assert_eq!(w.pending(), Action::CheckParent(0));
    assert!(w.candidate(1).is_none());
    assert!(w.candidate(2).is_none());
    w.step(Event::ParentExists(true));
    assert_eq!(w.step(Event::Written(false)), Action::Exhausted);
    assert_eq!(
        w.failures(),
        &vec![
            Failure::WriteFailed,
            Failure::HomeDirectoryUnresolved,
            Failure::HomeDirectoryUnresolved
        ]
    );
}

#[test]
fn no_home_working_dir_succeeds() {
    let mut w = writer(b"x", Some("/work"), None);
    w.step(Event::ParentExists(true));
    assert_eq!(w.step(Event::Written(true)), Action::Saved(0));
}

#[test]
fn unknown_working_dir_goes_to_desktop() {
    let w = writer(b"x", None, Some("/home/u"));
    assert_eq!(w.pending(), Action::CheckParent(1));
    assert_eq!(w.failures(), &vec![Failure::WorkingDirectoryUnresolved]);
}

#[test]
fn nothing_resolved_is_exhausted_at_once() {
    let w = writer(b"x", None, None);
    assert_eq!(w.pending(), Action::Exhausted);
    assert_eq!(w.outcome().unwrap().unwrap_err(), SaveError::AllCandidatesExhausted);
}

#[test]
fn unrelated_event_changes_nothing() {
    let mut w = writer(b"x", Some("/work"), None);
    assert_eq!(w.step(Event::Written(true)), Action::CheckParent(0));
    assert_eq!(w.step(Event::ParentCreated(true)), Action::CheckParent(0));
    assert!(w.outcome().is_none());
}

#[test]
fn text_saves_its_utf8_bytes() {
    let t = FallbackWriter::new_text(s("n.txt"), s("h\u{e9}!"), Some(s("/w")), None);
    assert_eq!(t.content(), &vec![0x68u8, 0xC3, 0xA9, 0x21]);
    let b = FallbackWriter::new(s("n.txt"), "h\u{e9}!".as_bytes().to_vec(), Some(s("/w")), None);
    assert_eq!(t.content(), b.content());
    assert_eq!(t.pending(), b.pending());
}

#[test]
fn second_save_carries_its_own_content() {
    let mut a = writer(b"first", Some("/work"), Some("/home/u"));
    let mut b = writer(b"second", Some("/work"), Some("/home/u"));
    for e in [Event::ParentExists(true), Event::Written(true)] {
        assert_eq!(a.step(e), b.step(e));
    }
    assert_eq!(b.content(), &b"second".to_vec());
    let ca = a.outcome().unwrap().unwrap();
    let cb = b.outcome().unwrap().unwrap();
    assert_eq!((ca.location, ca.root, ca.filename), (cb.location, cb.root, cb.filename));
}
