use rust_live_server::api::contracts::{
    OperationJSONContract, OperationJSONFreeCopy, OperationType, WsConnectionQuery,
};
use rust_live_server::api::handlers::{
    reader_step, writer_step, Delivery, Incoming, ReaderStep, WriterStep,
};
use rust_live_server::ot::operations::{
    DeleteOperation, InsertOperation, Operation, OperationTrait,
};
use std::sync::Arc;

fn frame(
    kind: OperationType,
    content: Option<&str>,
    length: Option<u32>,
) -> OperationJSONContract {
    OperationJSONContract {
        kind,
        position: 4,
        revision: 7,
        content: content.map(String::from),
        length,
    }
}

#[test]
fn query_needs_both_parts() {
    let query = |document: &str, client: &str| WsConnectionQuery {
        document: String::from(document),
        client: String::from(client),
    };
    assert!(query("doc1", "alice").is_valid());
    assert!(!query("", "alice").is_valid());
    assert!(!query("doc1", "").is_valid());
    assert!(!query("", "").is_valid());
}

#[test]
fn insert_frame_becomes_an_insert() {
    let operation = frame(OperationType::INSERT, Some("hi"), None)
        .as_operation()
        .unwrap();
    match operation {
        Operation::Insert(op) => {
            assert_eq!((op.position(), op.revision()), (4, 7));
            assert_eq!(op.text(), "hi");
        }
        Operation::Delete(_) => panic!("an insert frame is an insert"),
    }
}

#[test]
fn delete_frame_becomes_a_delete() {
    let operation = frame(OperationType::DELETE, None, Some(3))
        .as_operation()
        .unwrap();
    match operation {
        Operation::Delete(op) => {
            assert_eq!((op.position(), op.revision(), *op.len()), (4, 7, 3));
        }
        Operation::Insert(_) => panic!("a delete frame is a delete"),
    }
}

#[test]
fn frame_without_its_field_is_no_operation() {
    assert!(frame(OperationType::INSERT, None, None).as_operation().is_none());
    assert!(frame(OperationType::INSERT, None, Some(3)).as_operation().is_none());
    assert!(frame(OperationType::DELETE, None, None).as_operation().is_none());
    assert!(frame(OperationType::DELETE, Some("x"), None).as_operation().is_none());
}

#[test]
fn field_of_the_other_kind_is_not_looked_at() {
    let operation = frame(OperationType::INSERT, Some("x"), Some(9)).as_operation();
    assert!(matches!(operation, Some(Operation::Insert(_))));
    let operation = frame(OperationType::DELETE, Some("x"), Some(9)).as_operation();
    assert!(matches!(operation, Some(Operation::Delete(_))));
}

#[test]
fn frame_of_an_operation_has_only_the_field_of_its_kind() {
    let insert = Operation::Insert(InsertOperation::new(1, 2, String::from("abc")));
    let owned = OperationJSONContract::from_operation(&insert);
    assert_eq!(owned.kind, OperationType::INSERT);
    assert_eq!((owned.position, owned.revision), (1, 2));
    assert_eq!(owned.content.as_deref(), Some("abc"));
    assert_eq!(owned.length, None);
    let borrowed = OperationJSONFreeCopy::from_operation(&insert);
    assert_eq!(borrowed.kind, OperationType::INSERT);
    assert_eq!((borrowed.position, borrowed.revision), (1, 2));
    assert_eq!(borrowed.content, Some("abc"));
    assert_eq!(borrowed.length, None);

    let delete = Operation::Delete(DeleteOperation::new(3, 4, 5));
    let owned = OperationJSONContract::from_operation(&delete);
    assert_eq!(owned.kind, OperationType::DELETE);
    assert_eq!((owned.position, owned.revision), (3, 4));
    assert_eq!(owned.content, None);
    assert_eq!(owned.length, Some(5));
    let borrowed = OperationJSONFreeCopy::from_operation(&delete);
    assert_eq!(borrowed.kind, OperationType::DELETE);
    assert_eq!(borrowed.content, None);
    assert_eq!(borrowed.length, Some(5));
}

#[test]
fn frame_and_operation_go_round() {
    let sent = Operation::Insert(InsertOperation::new(9, 8, String::from("text")));
    let back = OperationJSONContract::from_operation(&sent)
        .as_operation()
        .unwrap();
    assert_eq!((back.position(), back.revision()), (9, 8));
    assert_eq!(back.downcast::<InsertOperation>().unwrap().text(), "text");
    let sent = Operation::Delete(DeleteOperation::new(9, 8, 7));
    let back = OperationJSONContract::from_operation(&sent)
        .as_operation()
        .unwrap();
    assert_eq!(*back.downcast::<DeleteOperation>().unwrap().len(), 7);
}

#[test]
fn ping_is_answered_with_its_payload() {
    match reader_step(Incoming::Ping(vec![1, 2, 3])) {
        ReaderStep::Pong(payload) => assert_eq!(payload, vec![1, 2, 3]),
        other => panic!("a ping is answered, not {other:?}"),
    }
}

#[test]
fn text_frame_is_submitted_or_rejected() {
    let good = Incoming::Text(Some(frame(OperationType::DELETE, None, Some(2))));
    match reader_step(good) {
        ReaderStep::Submit(operation) => assert_eq!(operation.position(), 4),
        other => panic!("a frame is submitted, not {other:?}"),
    }
    let missing = Incoming::Text(Some(frame(OperationType::DELETE, None, None)));
    assert!(matches!(reader_step(missing), ReaderStep::Reject));
    assert!(matches!(reader_step(Incoming::Text(None)), ReaderStep::Reject));
}

#[test]
fn close_and_loss_stop_the_reader() {
    assert!(matches!(reader_step(Incoming::Close), ReaderStep::Stop));
    assert!(matches!(reader_step(Incoming::Lost), ReaderStep::Stop));
    assert!(matches!(reader_step(Incoming::Other), ReaderStep::Ignore));
}

#[test]
fn writer_sends_what_was_committed() {
    let committed = Delivery::Committed(Arc::new(Operation::Insert(InsertOperation::new(
        1,
        2,
        String::from("abc"),
    ))));
    match writer_step(&committed) {
        WriterStep::Send(frame) => {
            assert_eq!(frame.kind, OperationType::INSERT);
            assert_eq!((frame.position, frame.revision), (1, 2));
            assert_eq!(frame.content, Some("abc"));
            assert_eq!(frame.length, None);
        }
        WriterStep::Stop => panic!("a committed operation is sent"),
    }
}

#[test]
fn writer_stops_on_lag_and_on_close() {
    assert!(matches!(writer_step(&Delivery::Lagged(3)), WriterStep::Stop));
    assert!(matches!(writer_step(&Delivery::Closed), WriterStep::Stop));
}
