use journal::channel::{IngestChannel, Payload};
use journal::document::{Doc, DocGenre, DocKind, Front};
use journal::store::{DocCreationAck, ProvideError};
use journal::worker::{dispatch, Severity, SyncWorker, WorkerAction, WorkerPhase};

fn doc(id: u128, title: &str) -> Doc {
    Doc {
        front: Front {
            title: title.to_string(),
            outline: "o".to_string(),
            author: "a".to_string(),
            tags: vec!["t".to_string()],
            image: "i".to_string(),
            kind: DocKind::Post,
            genre: DocGenre::Howto,
        },
        id,
        updated_at: 0,
        content: "c".to_string(),
    }
}

#[test]
fn a_failed_upsert_does_not_block_the_next_payload() {
    let mut ch = IngestChannel::new(4);
    ch.try_send(Payload::Doc(doc(1, "first"))).unwrap();
    ch.try_send(Payload::Doc(doc(2, "second"))).unwrap();
    let mut w = SyncWorker::new();
    match w.take_next(&mut ch) {
        Some(WorkerAction::Upsert(req)) => assert_eq!(req.id, 1),
        other => panic!("unexpected {:?}", other),
    }
    assert_eq!(w.phase(), WorkerPhase::Storing);
    let sev = w.settle(&Err(ProvideError::UniqueViolation("dup".to_string())));
    assert_eq!(sev, Severity::Error);
    assert_eq!(w.phase(), WorkerPhase::Ready);
    match w.take_next(&mut ch) {
        Some(WorkerAction::Upsert(req)) => {
            assert_eq!(req.id, 2);
            assert_eq!(req.title, "second");
        }
        other => panic!("unexpected {:?}", other),
    }
    assert_eq!(w.settle(&Ok(DocCreationAck { id: 2, created_at: 5 })), Severity::Info);
    assert!(w.take_next(&mut ch).is_none());
    assert_eq!(w.phase(), WorkerPhase::Ready);
}

#[test]
fn warnings_and_errors_are_logged_without_the_store() {
    match dispatch(Payload::Warning("w".to_string())) {
        WorkerAction::Log(Severity::Warn, t) => assert_eq!(t, "w"),
        other => panic!("unexpected {:?}", other),
    }
    match dispatch(Payload::Error("e".to_string())) {
        WorkerAction::Log(Severity::Error, t) => assert_eq!(t, "e"),
        other => panic!("unexpected {:?}", other),
    }
    let mut ch = IngestChannel::new(1);
    ch.try_send(Payload::Warning("w".to_string())).unwrap();
    let mut w = SyncWorker::new();
    assert!(matches!(w.take_next(&mut ch), Some(WorkerAction::Log(Severity::Warn, _))));
    assert_eq!(w.phase(), WorkerPhase::Ready);
}

#[test]
fn a_document_becomes_the_upsert_of_its_fields() {
    match dispatch(Payload::Doc(doc(9, "T"))) {
        WorkerAction::Upsert(req) => {
            assert_eq!(req.id, 9);
            assert_eq!(req.title, "T");
            assert_eq!(req.outline, "o");
            assert_eq!(req.author, "a");
            assert_eq!(req.content, "c");
            assert_eq!(req.tags, vec!["t".to_string()]);
            assert_eq!(req.image, "i");
            assert_eq!(req.kind, "post");
            assert_eq!(req.genre, "howto");
        }
        other => panic!("unexpected {:?}", other),
    }
}
