//! The shape in which an operation travels, and the query that opens a
//! connection.

use crate::ot::operations::{
    DeleteOperation, InsertOperation, Operation, OperationModel, OperationTrait,
};
use vstd::prelude::*;

verus! {

/// The query of a connecting client. Both parts are required, and neither
/// may be empty.
#[derive(Debug)]
pub struct WsConnectionQuery {
    pub document: String,
    pub client: String,
}

impl WsConnectionQuery {
    /// Whether the query names a document and a client.
    pub fn is_valid(&self) -> (valid: bool)
        ensures
            valid == (self.document@.len() > 0 && self.client@.len() > 0),
    {
        !self.document.as_str().is_empty() && !self.client.as_str().is_empty()
    }
}

/// The kind of an operation, as a frame names it.
#[derive(Debug, Clone, Copy, PartialEq, Eq, Structural)]
pub enum OperationType {
    INSERT,
    DELETE,
}

/// What a frame with the given fields stands for: an insert needs its
/// content, a delete its length. The field of the other kind is not looked
/// at.
pub open spec fn decoded(
    kind: OperationType,
    position: u32,
    revision: u32,
    content: Option<Seq<char>>,
    length: Option<u32>,
) -> Option<OperationModel> {
    match kind {
        OperationType::INSERT => match content {
            Some(text) => Some(
                OperationModel::Insert { position: position as int, revision: revision as int, text },
            ),
            None => None,
        },
        OperationType::DELETE => match length {
            Some(length) => Some(
                OperationModel::Delete {
                    position: position as int,
                    revision: revision as int,
                    length: length as int,
                },
            ),
            None => None,
        },
    }
}

/// A frame that borrows the text of the operation it was made from.
#[derive(Debug)]
pub struct OperationJSONFreeCopy<'a> {
    pub kind: OperationType,
    pub position: u32,
    pub revision: u32,
    pub content: Option<&'a str>,
    pub length: Option<u32>,
}

impl<'a> OperationJSONFreeCopy<'a> {
    /// The content, if any, as a sequence of chars.
    pub open spec fn content_view(&self) -> Option<Seq<char>> {
        match self.content {
            Some(text) => Some(text@),
            None => None,
        }
    }

    /// The frame is that of `operation`: it stands for it, the field of
    /// the operation's kind is filled, and the field of the other kind is
    /// absent.
    pub open spec fn carries(&self, operation: OperationModel) -> bool {
        &&& decoded(self.kind, self.position, self.revision, self.content_view(), self.length)
            == Some(operation)
        &&& self.content is Some <==> operation is Insert
        &&& self.length is Some <==> operation is Delete
    }

    /// The frame of an operation.
    pub fn from_operation(operation: &'a Operation) -> (frame: Self)
        ensures
            frame.carries(operation@),
    {
        match operation {
            Operation::Insert(insert_operation) => {
                proof {
                    insert_operation.lemma_view();
                }
                OperationJSONFreeCopy {
                    kind: OperationType::INSERT,
                    position: insert_operation.position(),
                    revision: insert_operation.revision(),
                    content: Some(insert_operation.text().as_str()),
                    length: None,
                }
            },
            Operation::Delete(delete_operation) => {
                proof {
                    delete_operation.lemma_view();
                }
                OperationJSONFreeCopy {
                    kind: OperationType::DELETE,
                    position: delete_operation.position(),
                    revision: delete_operation.revision(),
                    content: None,
                    length: Some(*delete_operation.len()),
                }
            },
        }
    }
}

/// A frame that owns its text.
#[derive(Debug)]
pub struct OperationJSONContract {
    pub kind: OperationType,
    pub position: u32,
    pub revision: u32,
    pub content: Option<String>,
    pub length: Option<u32>,
}

impl OperationJSONContract {
    /// The content, if any, as a sequence of chars.
    pub open spec fn content_view(&self) -> Option<Seq<char>> {
        match self.content {
            Some(text) => Some(text@),
            None => None,
        }
    }

    /// The operation that the frame stands for, if it stands for one.
    pub open spec fn decoded(&self) -> Option<OperationModel> {
        decoded(self.kind, self.position, self.revision, self.content_view(), self.length)
    }

    /// The frame is that of `operation`: it stands for it, the field of
    /// the operation's kind is filled, and the field of the other kind is
    /// absent.
    pub open spec fn carries(&self, operation: OperationModel) -> bool {
        &&& self.decoded() == Some(operation)
        &&& self.content is Some <==> operation is Insert
        &&& self.length is Some <==> operation is Delete
    }

    /// The frame of an operation.
    pub fn from_operation(operation: &Operation) -> (frame: Self)
        ensures
            frame.carries(operation@),
    {
        match operation {
            Operation::Insert(insert_operation) => {
                proof {
                    insert_operation.lemma_view();
                }
                OperationJSONContract {
                    kind: OperationType::INSERT,
                    position: insert_operation.position(),
                    revision: insert_operation.revision(),
                    content: Some(insert_operation.text().clone()),
                    length: None,
                }
            },
            Operation::Delete(delete_operation) => {
                proof {
                    delete_operation.lemma_view();
                }
                OperationJSONContract {
                    kind: OperationType::DELETE,
                    position: delete_operation.position(),
                    revision: delete_operation.revision(),
                    content: None,
                    length: Some(*delete_operation.len()),
                }
            },
        }
    }

    /// The operation that the frame stands for; `None` where the field
    /// that its kind requires is missing.
    pub fn as_operation(self) -> (operation: Option<Operation>)
        ensures
            match self.decoded() {
                Some(model) => operation matches Some(op) && op@ == model,
                None => operation is None,
            },
    {
        match self.kind {
            OperationType::INSERT => Some(
                Operation::Insert(
                    InsertOperation::new(
                        self.position,
                        self.revision,
                        match self.content {
                            Some(content) => content,
                            None => return None,
                        },
                    ),
                ),
            ),
            OperationType::DELETE => Some(
                Operation::Delete(
                    DeleteOperation::new(
                        self.position,
                        self.revision,
                        match self.length {
                            Some(len) => len,
                            None => return None,
                        },
                    ),
                ),
            ),
        }
    }
}

} // verus!
