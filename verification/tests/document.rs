use rust_live_server::ot::document::{DocumentMem, DocumentTrait};
use rust_live_server::ot::operations::{
    DeleteOperation, InsertOperation, Operation, OperationError, OperationTrait,
};

fn insert(position: u32, revision: u32, text: &str) -> Operation {
    Operation::Insert(InsertOperation::new(position, revision, String::from(text)))
}

fn delete(position: u32, revision: u32, len: u32) -> Operation {
    Operation::Delete(DeleteOperation::new(position, revision, len))
}

#[test]
fn new_document_is_empty() {
    let document = DocumentMem::new();
    assert_eq!(document.revision(), 0);
    assert_eq!(document.content().as_str(), "");
    assert!(document.operations().is_empty());
}

#[test]
fn single_client_two_inserts() {
    let mut document = DocumentMem::new();
    let first = document.apply(insert(0, 0, "ab")).unwrap();
    let second = document.apply(insert(2, 1, "cd")).unwrap();
    assert_eq!(first.revision(), 0);
    assert_eq!(second.revision(), 1);
    assert_eq!(second.position(), 2);
    assert_eq!(document.revision(), 2);
    assert_eq!(document.content().as_str(), "abcd");
}

#[test]
fn concurrent_inserts_at_same_position() {
    let mut document = DocumentMem::new();
    let a = document.apply(insert(0, 0, "A")).unwrap();
    let b = document.apply(insert(0, 0, "B")).unwrap();
    assert_eq!((a.position(), a.revision()), (0, 0));
    assert_eq!((b.position(), b.revision()), (1, 1));
    assert_eq!(document.content().as_str(), "AB");

    // a client that applies the broadcast in order, from an empty text
    let mut replica = String::new();
    for committed in document.operations() {
        committed.apply(&mut replica).unwrap();
    }
    assert_eq!(replica, "AB");
}

#[test]
fn insert_into_deleted_range() {
    let mut document = DocumentMem::new();
    document.apply(insert(0, 0, "hello")).unwrap();
    let a = document.apply(delete(1, 1, 3)).unwrap();
    let b = document.apply(insert(3, 1, "X")).unwrap();
    assert_eq!(a.revision(), 1);
    assert_eq!((b.position(), b.revision()), (1, 2));
    assert_eq!(document.content().as_str(), "hXo");
}

#[test]
fn full_overlap_delete() {
    let mut document = DocumentMem::from_text(String::from("abcdef"));
    let a = document.apply(delete(1, 0, 3)).unwrap();
    let b = document.apply(delete(2, 0, 2)).unwrap();
    assert_eq!(a.revision(), 0);
    assert_eq!(b.revision(), 1);
    match &*b {
        Operation::Delete(op) => assert_eq!(*op.len(), 0),
        Operation::Insert(_) => panic!("a delete stays a delete"),
    }
    assert_eq!(document.content().as_str(), "aef");
}

#[test]
fn revision_ahead_of_the_log_is_rejected() {
    let mut document = DocumentMem::new();
    document.apply(insert(0, 0, "ab")).unwrap();
    let rejected = document.apply(insert(0, 2, "x"));
    assert_eq!(rejected.unwrap_err(), OperationError::InvalidRevision);
    assert_eq!(document.revision(), 1);
    assert_eq!(document.content().as_str(), "ab");
    // the revision that the log has just reached is accepted
    assert!(document.apply(insert(0, 1, "x")).is_ok());
}

#[test]
fn operation_beyond_the_text_is_rejected() {
    let mut document = DocumentMem::from_text(String::from("abc"));
    assert_eq!(
        document.apply(insert(4, 0, "x")).unwrap_err(),
        OperationError::OutOfBounds
    );
    assert_eq!(
        document.apply(delete(2, 0, 2)).unwrap_err(),
        OperationError::OutOfBounds
    );
    assert_eq!(document.revision(), 0);
    assert_eq!(document.content().as_str(), "abc");
    assert!(document.apply(insert(3, 0, "x")).is_ok());
    assert!(document.apply(delete(0, 1, 4)).is_ok());
    assert_eq!(document.content().as_str(), "");
}

#[test]
fn position_that_leaves_u32_is_rejected() {
    let mut document = DocumentMem::new();
    document.apply(insert(0, 0, "a")).unwrap();
    let rejected = document.apply(insert(u32::MAX, 0, "x"));
    assert_eq!(rejected.unwrap_err(), OperationError::Overflow);
    assert_eq!(document.revision(), 1);
    assert_eq!(document.content().as_str(), "a");
}

#[test]
fn out_of_bounds_delete_may_come_into_bounds() {
    // made for "ab", where it reaches beyond the end; the insert that was
    // committed meanwhile brings it into bounds
    let mut document = DocumentMem::from_text(String::from("ab"));
    document.apply(insert(1, 0, "X")).unwrap();
    let committed = document.apply(delete(0, 0, 3)).unwrap();
    assert_eq!(committed.revision(), 1);
    assert_eq!(document.content().as_str(), "");
}

#[test]
fn revisions_count_up_by_one() {
    let mut document = DocumentMem::new();
    let mut seen = Vec::new();
    for i in 0..20u32 {
        // every second operation is made for an old revision
        let base = if i % 2 == 0 { i } else { i / 2 };
        let committed = document.apply(insert(0, base, "x")).unwrap();
        seen.push(committed.revision());
        assert_eq!(document.revision(), i + 1);
    }
    assert_eq!(seen, (0..20u32).collect::<Vec<u32>>());
    for (index, committed) in document.operations().iter().enumerate() {
        assert_eq!(committed.revision() as usize, index);
    }
}

#[test]
fn rejected_operations_leave_the_revision() {
    let mut document = DocumentMem::new();
    let mut last = document.revision();
    let attempts = [
        insert(0, 0, "abc"),
        insert(9, 0, "x"),
        delete(0, 5, 1),
        delete(1, 1, 1),
        delete(1, 1, 9),
    ];
    let expected = [1, 1, 1, 2, 2];
    for (attempt, revision) in attempts.into_iter().zip(expected) {
        let _ = document.apply(attempt);
        assert!(document.revision() >= last);
        assert_eq!(document.revision(), revision);
        last = document.revision();
    }
    assert_eq!(document.content().as_str(), "ac");
}

#[test]
fn content_is_the_replay_of_the_log() {
    let mut document = DocumentMem::from_text(String::from("base"));
    document.apply(insert(4, 0, " text")).unwrap();
    document.apply(delete(0, 0, 2)).unwrap();
    document.apply(insert(0, 1, ">")).unwrap();
    let mut replica = String::from("base");
    for committed in document.operations() {
        committed.apply(&mut replica).unwrap();
    }
    assert_eq!(&replica, document.content());
    assert_eq!(replica, ">se text");
}
