//! The session of one document: its commit log, the queue that producers
//! write to, the fan-out that subscribers read from, and the state of the
//! one listener that commits.

use crate::ot::document::{commit_outcome, revisions_in_order, DocumentMem, DocumentTrait};
use crate::ot::operations::{ArcOperation, Operation, OperationError, OperationModel};
use std::sync::Arc;
use tokio::sync::broadcast;
use tokio::sync::mpsc;
use tokio_util::sync::CancellationToken;
use vstd::prelude::*;

verus! {

/// How many operations may wait in the input queue.
pub const INPUT_CAPACITY: usize = 128;

/// How many committed operations the fan-out keeps for a slow subscriber.
pub const FAN_OUT_CAPACITY: usize = 64;

/// What a session is, as a mathematical value.
pub struct SessionState {
    /// How many subscribers there are.
    pub subscribers: nat,
    /// A listener has been started and has not been told to stop.
    pub listening: bool,
    /// The consumer end of the input queue lies in the session, and not in
    /// the hands of a listener.
    pub input_at_home: bool,
    /// The committed operations, in commit order.
    pub log: Seq<OperationModel>,
    /// The text as it stands.
    pub text: Seq<char>,
}

impl SessionState {
    /// A session that nobody has touched.
    pub open spec fn fresh() -> SessionState {
        SessionState {
            subscribers: 0,
            listening: false,
            input_at_home: true,
            log: Seq::empty(),
            text: Seq::empty(),
        }
    }
}

/// What the listener of a session holds while it runs: the consumer end of
/// the input queue, and the token that tells it to stop.
pub struct Listener {
    pub input: mpsc::Receiver<Operation>,
    pub token: CancellationToken,
}

/// Whether a listener is at work, given whether the session holds a token
/// and whether that token was cancelled.
pub fn listener_at_work(token_held: bool, cancelled: bool) -> (at_work: bool)
    ensures
        at_work == (token_held && !cancelled),
{
    token_held && !cancelled
}

/// The session of one document. It owns the document, and nothing but
/// `commit` changes it: whoever runs the listener is the document's only
/// writer.
///
/// What waits in the input queue when the listener is told to stop stays
/// there, and is committed, and published to the subscribers of that time,
/// once a listener is started again. Every subscriber is sent every commit,
/// also the client that the operation came from.
pub struct Session {
    document: DocumentMem,
    input_sender: mpsc::Sender<Operation>,
    input_receiver: Option<mpsc::Receiver<Operation>>,
    output_sender: broadcast::Sender<ArcOperation>,
    subscribers: usize,
    listner_cancelled_token: Option<CancellationToken>,
}

impl View for Session {
    type V = SessionState;

    closed spec fn view(&self) -> SessionState {
        SessionState {
            subscribers: self.subscribers as nat,
            listening: self.listner_cancelled_token is Some,
            input_at_home: self.input_receiver is Some,
            log: self.document.spec_log(),
            text: self.document.spec_text(),
        }
    }
}

impl Session {
    /// A session that nobody has touched, with an empty document, an input
    /// queue of `INPUT_CAPACITY` and a fan-out of `FAN_OUT_CAPACITY`.
    pub fn new() -> (session: Self)
        ensures
            session@ == SessionState::fresh(),
    {
        let (mpsc_sender, mpsc_receiver) = mpsc::channel(INPUT_CAPACITY);
        let (broadcast_sender, _) = broadcast::channel(FAN_OUT_CAPACITY);
        Session {
            document: DocumentMem::new(),
            input_sender: mpsc_sender,
            input_receiver: Some(mpsc_receiver),
            output_sender: broadcast_sender,
            subscribers: 0,
            listner_cancelled_token: None,
        }
    }

    /// A receiver for what is committed from now on, and one subscriber
    /// more.
    pub fn subscribe(&mut self) -> (receiver: broadcast::Receiver<ArcOperation>)
        requires
            old(self)@.subscribers < usize::MAX,
        ensures
            final(self)@ == (SessionState {
                subscribers: old(self)@.subscribers + 1,
                ..old(self)@
            }),
    {
        self.subscribers += 1;
        self.output_sender.subscribe()
    }

    /// How many subscribers there are.
    pub fn subscribers(&self) -> (count: usize)
        ensures
            count == self@.subscribers,
    {
        self.subscribers
    }

    /// Whether a listener is at work: the session has started one and has
    /// not cancelled it since.
    pub fn listner_work(&self) -> (at_work: bool)
        ensures
            at_work ==> self@.listening,
    {
        if let Some(handler) = &self.listner_cancelled_token {
            listener_at_work(true, handler.is_cancelled())
        } else {
            listener_at_work(false, false)
        }
    }

    /// One subscriber less, but never less than none. When none is left the
    /// listener is told to stop. Returns the number of subscribers left.
    pub fn unsubscribe(&mut self) -> (left: usize)
        ensures
            left == final(self)@.subscribers,
            left == if old(self)@.subscribers > 0 {
                old(self)@.subscribers - 1
            } else {
                0
            },
            final(self)@ == (SessionState {
                subscribers: left as nat,
                listening: old(self)@.listening && left > 0,
                ..old(self)@
            }),
    {
        if self.subscribers > 0 {
            self.subscribers -= 1;
        }
        if self.subscribers == 0 {
            if let Some(token) = self.listner_cancelled_token.take() {
                token.cancel();
            }
        }
        self.subscribers
    }

    /// The producer end of the input queue, as the session keeps it.
    pub closed spec fn input_end(&self) -> mpsc::Sender<Operation> {
        self.input_sender
    }

    /// Another producer end of the session's input queue: a clone of the
    /// one that the session keeps.
    pub fn get_input(&self) -> (input: mpsc::Sender<Operation>)
        ensures
            input == self.input_end(),
    {
        self.input_sender.clone()
    }

    /// Commits the operation to the document and publishes what was
    /// committed to the subscribers, without waiting for any of them. An
    /// operation that the document turns away is not published.
    pub fn commit(&mut self, operation: Operation) -> (res: Result<ArcOperation, OperationError>)
        ensures
            final(self)@.subscribers == old(self)@.subscribers,
            final(self)@.listening == old(self)@.listening,
            final(self)@.input_at_home == old(self)@.input_at_home,
            revisions_in_order(final(self)@.log),
            match commit_outcome(old(self)@.log, old(self)@.text, operation@) {
                Ok(committed) => res matches Ok(handle) && handle@ == committed && final(self)@.log
                    == old(self)@.log.push(committed) && final(self)@.text == committed.apply_to(
                    old(self)@.text,
                ),
                Err(reason) => res matches Err(e) && e == reason && final(self)@.log == old(
                    self,
                )@.log && final(self)@.text == old(self)@.text,
            },
    {
        match self.document.apply(operation) {
            Ok(committed) => {
                let _ = self.output_sender.send(Arc::clone(&committed));
                Ok(committed)
            },
            Err(reason) => Err(reason),
        }
    }

    /// Starts the listener, unless one is at work. Where the consumer end of
    /// the input queue lies in the session, it is handed out together with a
    /// fresh token: the caller runs the listener with the two. Where an
    /// earlier listener still holds it, nothing is handed out: that listener
    /// goes on with the fresh token once it has seen the old one cancelled
    /// (see `stop_listen`).
    pub fn start_listen(&mut self) -> (listener: Option<Listener>)
        ensures
            final(self)@.listening,
            final(self)@.subscribers == old(self)@.subscribers,
            final(self)@.log == old(self)@.log,
            final(self)@.text == old(self)@.text,
            final(self)@.input_at_home == (old(self)@.input_at_home && listener is None),
            listener is Some ==> old(self)@.input_at_home,
            !old(self)@.listening && old(self)@.input_at_home ==> listener is Some,
    {
        if self.listner_work() {
            return None;
        }
        let cancelled_token = CancellationToken::new();
        let handed_out = cancelled_token.clone();
        self.listner_cancelled_token = Some(cancelled_token);
        match self.input_receiver.take() {
            Some(input) => Some(Listener { input, token: handed_out }),
            None => None,
        }
    }

    /// Takes the consumer end of the input queue back from a listener that
    /// has seen its token cancelled. Where the session has started a
    /// listener again in the meantime, the end is handed out once more, with
    /// the token of that start, and the caller goes on listening. Else it
    /// stays in the session, for the next start.
    pub fn stop_listen(&mut self, input: mpsc::Receiver<Operation>) -> (listener: Option<Listener>)
        ensures
            final(self)@.subscribers == old(self)@.subscribers,
            final(self)@.log == old(self)@.log,
            final(self)@.text == old(self)@.text,
            !old(self)@.listening ==> listener is None,
            listener is None ==> final(self)@.input_at_home && !final(self)@.listening,
            listener is Some ==> final(self)@.listening && final(self)@.input_at_home == old(
                self,
            )@.input_at_home,
    {
        if let Some(token) = &self.listner_cancelled_token {
            if listener_at_work(true, token.is_cancelled()) {
                return Some(Listener { input, token: token.clone() });
            }
        }
        self.listner_cancelled_token = None;
        self.input_receiver = Some(input);
        None
    }
}

} // verus!
