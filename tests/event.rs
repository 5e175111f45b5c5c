use journal::event::{event_to_path, ChangeKind, IngestCandidate, RawEvent};

fn ev(path: &str, kind: ChangeKind, is_dir: bool) -> RawEvent {
    RawEvent { path: path.to_string(), kind, is_dir }
}

#[test]
fn directory_events_are_discarded_for_every_kind() {
    for kind in [ChangeKind::Created, ChangeKind::Modified, ChangeKind::Deleted, ChangeKind::Other] {
        assert!(event_to_path(&ev("notes.md", kind, true)).is_none());
    }
}

#[test]
fn non_markdown_names_are_discarded() {
    for name in ["notes.txt", "notes", "notes.md~", "notes.mdx", "README", "a.MD"] {
        assert!(event_to_path(&ev(name, ChangeKind::Created, false)).is_none());
        assert!(event_to_path(&ev(name, ChangeKind::Modified, false)).is_none());
    }
}

#[test]
fn created_and_modified_markdown_files_become_candidates() {
    for kind in [ChangeKind::Created, ChangeKind::Modified] {
        let c = event_to_path(&ev("5c2e6d7a-1b2c-4d3e-8f90-a1b2c3d4e5f6.md", kind, false))
            .expect("candidate");
        assert_eq!(c.name(), "5c2e6d7a-1b2c-4d3e-8f90-a1b2c3d4e5f6.md");
    }
}

#[test]
fn deleted_and_other_events_are_discarded() {
    assert!(event_to_path(&ev("notes.md", ChangeKind::Deleted, false)).is_none());
    assert!(event_to_path(&ev("notes.md", ChangeKind::Other, false)).is_none());
}

#[test]
fn a_bare_extension_is_no_markdown_name() {
    assert!(event_to_path(&ev(".md", ChangeKind::Created, false)).is_none());
    assert!(IngestCandidate::new(".md".to_string()).is_none());
    assert!(IngestCandidate::new("x.md".to_string()).is_some());
}

#[test]
fn candidate_stem_drops_the_extension() {
    let c = IngestCandidate::new("notes.md".to_string()).unwrap();
    assert_eq!(c.stem(), "notes");
    let c = IngestCandidate::new("été.md".to_string()).unwrap();
    assert_eq!(c.stem(), "été");
}

#[test]
fn flags_map_to_kinds_with_creation_first() {
    let e = RawEvent::from_flags(Some("a.md".to_string()), true, true, true, false).unwrap();
    assert_eq!(e.kind, ChangeKind::Created);
    let e = RawEvent::from_flags(Some("a.md".to_string()), false, true, true, false).unwrap();
    assert_eq!(e.kind, ChangeKind::Deleted);
    let e = RawEvent::from_flags(Some("a.md".to_string()), false, false, true, true).unwrap();
    assert_eq!(e.kind, ChangeKind::Modified);
    assert!(e.is_dir);
    let e = RawEvent::from_flags(Some("a.md".to_string()), false, false, false, false).unwrap();
    assert_eq!(e.kind, ChangeKind::Other);
    assert!(RawEvent::from_flags(None, true, false, false, false).is_none());
}
