//! What the two tasks of a connection do on each thing that arrives: the
//! reader on what the client sends, the writer on what the session
//! publishes. The tasks themselves wait on the socket and on the channels;
//! here is what they decide.

use crate::api::contracts::{OperationJSONContract, OperationJSONFreeCopy};
use crate::ot::operations::{ArcOperation, Operation};
use vstd::prelude::*;

verus! {

/// What arrived from the client.
#[derive(Debug)]
pub enum Incoming {
    /// A ping, with its payload.
    Ping(Vec<u8>),
    /// A text frame: the fields that were read from it, or `None` where it
    /// is not one JSON object of the shape of a frame.
    Text(Option<OperationJSONContract>),
    /// The client closes the connection.
    Close,
    /// A binary frame, or another that carries no operation.
    Other,
    /// The stream of frames ended or failed.
    Lost,
}

/// What the reader does next.
#[derive(Debug)]
pub enum ReaderStep {
    /// Answer with a pong of this payload, and go on.
    Pong(Vec<u8>),
    /// Hand the operation to the session's input queue, and go on.
    Submit(Operation),
    /// Go on.
    Ignore,
    /// Close the connection with a protocol error.
    Reject,
    /// Stop reading.
    Stop,
}

/// The reader's decision on what arrived from the client.
///
/// A ping is answered with a pong of the same payload. A text frame that
/// stands for an operation has that operation submitted; any other text
/// frame is a protocol error. A close frame, or the end of the stream, ends
/// the reading. Everything else is passed over.
pub fn reader_step(incoming: Incoming) -> (step: ReaderStep)
    ensures
        match incoming {
            Incoming::Ping(payload) => step matches ReaderStep::Pong(answer) && answer == payload,
            Incoming::Text(Some(frame)) => match frame.decoded() {
                Some(model) => step matches ReaderStep::Submit(operation) && operation@ == model,
                None => step is Reject,
            },
            Incoming::Text(None) => step is Reject,
            Incoming::Close => step is Stop,
            Incoming::Other => step is Ignore,
            Incoming::Lost => step is Stop,
        },
{
    match incoming {
        Incoming::Ping(bytes) => ReaderStep::Pong(bytes),
        Incoming::Text(Some(frame)) => match frame.as_operation() {
            Some(operation) => ReaderStep::Submit(operation),
            None => ReaderStep::Reject,
        },
        Incoming::Text(None) => ReaderStep::Reject,
        Incoming::Close => ReaderStep::Stop,
        Incoming::Other => ReaderStep::Ignore,
        Incoming::Lost => ReaderStep::Stop,
    }
}

/// What came out of a subscriber's end of the fan-out.
#[derive(Debug)]
pub enum Delivery {
    /// The next committed operation.
    Committed(ArcOperation),
    /// The subscriber fell behind, and this many operations were lost to it.
    Lagged(u64),
    /// The session is gone.
    Closed,
}

/// What the writer does next.
#[derive(Debug)]
pub enum WriterStep<'a> {
    /// Send the frame to the client, and go on.
    Send(OperationJSONFreeCopy<'a>),
    /// Stop writing: the connection is closed.
    Stop,
}

/// The writer's decision on what came out of the fan-out.
///
/// A committed operation is sent as its frame. A subscriber that fell
/// behind is dropped, and so is one whose session is gone.
pub fn writer_step<'a>(delivery: &'a Delivery) -> (step: WriterStep<'a>)
    ensures
        match delivery {
            Delivery::Committed(operation) => step matches WriterStep::Send(frame)
                && frame.carries(operation@),
            Delivery::Lagged(_) => step is Stop,
            Delivery::Closed => step is Stop,
        },
{
    match delivery {
        Delivery::Committed(operation) => WriterStep::Send(
            OperationJSONFreeCopy::from_operation(operation),
        ),
        Delivery::Lagged(_) => WriterStep::Stop,
        Delivery::Closed => WriterStep::Stop,
    }
}

} // verus!
