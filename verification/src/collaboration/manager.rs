//! The registry of sessions, one per document id.

use crate::collaboration::sessions::{Listener, Session, SessionState};
use crate::ot::document::commit_outcome;
use crate::ot::operations::{ArcOperation, Operation, OperationError};
use tokio::sync::broadcast;
use tokio::sync::mpsc;
use vstd::prelude::*;

verus! {

/// No two of the ids read the same.
pub open spec fn distinct(ids: Seq<String>) -> bool {
    forall|i: int, j: int|
        0 <= i < ids.len() && 0 <= j < ids.len() && (#[trigger] ids[i])@ == (#[trigger] ids[j])@
            ==> i == j
}

/// `id` stands at index `i`.
pub open spec fn stands_at(ids: Seq<String>, id: Seq<char>, i: int) -> bool {
    0 <= i < ids.len() && ids[i]@ == id
}

/// The sessions by their ids.
pub open spec fn registry(ids: Seq<String>, sessions: Seq<Session>) -> Map<
    Seq<char>,
    SessionState,
> {
    Map::new(
        |id: Seq<char>| exists|i: int| stands_at(ids, id, i),
        |id: Seq<char>| sessions[choose|i: int| stands_at(ids, id, i)]@,
    )
}

/// The sessions of a server, by document id. A session is made when the
/// first client connects to its document, and is kept from then on.
///
/// The registry is a plain value: a server that many tasks share keeps it
/// behind one lock, and every function here is one step under that lock.
pub struct Manager {
    ids: Vec<String>,
    sessions: Vec<Session>,
}

impl View for Manager {
    type V = Map<Seq<char>, SessionState>;

    closed spec fn view(&self) -> Map<Seq<char>, SessionState> {
        registry(self.ids@, self.sessions@)
    }
}

/// Where `document_id` stands among `ids`, if it does.
fn find(ids: &Vec<String>, document_id: &String) -> (found: Option<usize>)
    ensures
        match found {
            Some(i) => stands_at(ids@, document_id@, i as int),
            None => forall|i: int| !stands_at(ids@, document_id@, i),
        },
{
    let mut i: usize = 0;
    while i < ids.len()
        invariant
            i <= ids@.len(),
            forall|k: int| 0 <= k < i ==> !stands_at(ids@, document_id@, k),
        decreases ids@.len() - i,
    {
        if ids[i] == *document_id {
            return Some(i);
        }
        i += 1;
    }
    None
}

impl Manager {
    #[verifier::type_invariant]
    spec fn well_formed(&self) -> bool {
        self.ids@.len() == self.sessions@.len() && distinct(self.ids@)
    }

    /// A registry without sessions.
    pub fn new() -> (manager: Self)
        ensures
            manager@ == Map::<Seq<char>, SessionState>::empty(),
    {
        let manager = Manager { ids: Vec::new(), sessions: Vec::new() };
        assert(manager@ =~= Map::<Seq<char>, SessionState>::empty());
        manager
    }

    /// How many subscribers the session of `document_id` has, if there is
    /// such a session.
    pub fn subscribers(&self, document_id: &String) -> (count: Option<usize>)
        ensures
            match count {
                Some(n) => self@.contains_key(document_id@) && n == self@[document_id@].subscribers,
                None => !self@.contains_key(document_id@),
            },
    {
        proof {
            use_type_invariant(self);
        }
        match find(&self.ids, document_id) {
            Some(i) => {
                proof {
                    lemma_registry_at(self.ids@, self.sessions@, i as int);
                }
                Some(self.sessions[i].subscribers())
            },
            None => None,
        }
    }

    /// Attaches a client to the session of `document_id`, which is made if
    /// there is none. Hands out a producer end of the session's input
    /// queue and a receiver of what is committed from now on. Where the
    /// session's listener has to be started, what the listener needs is
    /// handed out as well: the caller runs it.
    ///
    /// The name of the client takes no part in this.
    pub fn connect(&mut self, _subscriber_name: String, document_id: String) -> (res: (
        mpsc::Sender<Operation>,
        broadcast::Receiver<ArcOperation>,
        Option<Listener>,
    ))
        requires
            old(self)@.contains_key(document_id@) ==> old(self)@[document_id@].subscribers
                < usize::MAX,
        ensures
            ({
                let before = if old(self)@.contains_key(document_id@) {
                    old(self)@[document_id@]
                } else {
                    SessionState::fresh()
                };
                &&& final(self)@ == old(self)@.insert(
                    document_id@,
                    SessionState {
                        subscribers: before.subscribers + 1,
                        listening: true,
                        input_at_home: before.input_at_home && res.2 is None,
                        ..before
                    },
                )
                &&& res.2 is Some ==> before.input_at_home
                &&& !before.listening && before.input_at_home ==> res.2 is Some
            }),
    {
        proof {
            use_type_invariant(&*self);
        }
        let mut taken = Manager::new();
        std::mem::swap(self, &mut taken);
        let Manager { ids, sessions } = taken;
        let mut ids = ids;
        let mut sessions = sessions;
        let ghost old_ids = ids@;
        let ghost old_sessions = sessions@;
        let ghost id = document_id@;
        let index: usize = match find(&ids, &document_id) {
            Some(i) => {
                proof {
                    lemma_registry_at(ids@, sessions@, i as int);
                }
                i
            },
            None => {
                ids.push(document_id);
                sessions.push(Session::new());
                proof {
                    lemma_registry_push(old_ids, old_sessions, ids@.last(), sessions@.last());
                    lemma_registry_at(ids@, sessions@, ids@.len() - 1);
                }
                ids.len() - 1
            },
        };
        let ghost found_sessions = sessions@;
        let session = &mut sessions[index];
        let input = session.get_input();
        let output = session.subscribe();
        let listener = session.start_listen();
        proof {
            lemma_registry_update(ids@, found_sessions, index as int, sessions@[index as int]);
            assert(sessions@ =~= found_sessions.update(index as int, sessions@[index as int]));
        }
        *self = Manager { ids, sessions };
        (input, output, listener)
    }

    /// Detaches a client from the session of `document_id`: one subscriber
    /// less, and the listener is told to stop when none is left. The
    /// session stays in the registry for clients that connect later. Where
    /// there is no such session, nothing happens.
    ///
    /// The name of the client takes no part in this.
    pub fn disconnect(&mut self, _subscriber_name: String, document_id: String)
        ensures
            !old(self)@.contains_key(document_id@) ==> final(self)@ == old(self)@,
            old(self)@.contains_key(document_id@) ==> ({
                let before = old(self)@[document_id@];
                let left = if before.subscribers > 0 {
                    (before.subscribers - 1) as nat
                } else {
                    0
                };
                final(self)@ == old(self)@.insert(
                    document_id@,
                    SessionState {
                        subscribers: left,
                        listening: before.listening && left > 0,
                        ..before
                    },
                )
            }),
    {
        proof {
            use_type_invariant(&*self);
        }
        let mut taken = Manager::new();
        std::mem::swap(self, &mut taken);
        let Manager { ids, sessions } = taken;
        let mut sessions = sessions;
        let ghost old_sessions = sessions@;
        match find(&ids, &document_id) {
            Some(i) => {
                let session = &mut sessions[i];
                let _connections = session.unsubscribe();
                proof {
                    lemma_registry_at(ids@, old_sessions, i as int);
                    lemma_registry_update(ids@, old_sessions, i as int, sessions@[i as int]);
                    assert(sessions@ =~= old_sessions.update(i as int, sessions@[i as int]));
                }
            },
            None => {
                proof {
                    lemma_registry_absent(ids@, sessions@, document_id@);
                }
            },
        }
        *self = Manager { ids, sessions };
    }

    /// The listener's step on an operation taken from the input queue of
    /// `document_id`: commits it to the session's document and publishes
    /// what was committed. `None` where there is no such session.
    pub fn commit(&mut self, document_id: &String, operation: Operation) -> (res: Option<
        Result<ArcOperation, OperationError>,
    >)
        ensures
            !old(self)@.contains_key(document_id@) ==> res is None && final(self)@ == old(self)@,
            old(self)@.contains_key(document_id@) ==> ({
                let before = old(self)@[document_id@];
                match commit_outcome(before.log, before.text, operation@) {
                    Ok(committed) => res matches Some(Ok(handle)) && handle@ == committed
                        && final(self)@ == old(self)@.insert(
                        document_id@,
                        SessionState {
                            log: before.log.push(committed),
                            text: committed.apply_to(before.text),
                            ..before
                        },
                    ),
                    Err(reason) => res matches Some(Err(e)) && e == reason && final(self)@ == old(
                        self,
                    )@,
                }
            }),
    {
        proof {
            use_type_invariant(&*self);
        }
        let mut taken = Manager::new();
        std::mem::swap(self, &mut taken);
        let Manager { ids, sessions } = taken;
        let mut sessions = sessions;
        let ghost old_sessions = sessions@;
        let res = match find(&ids, document_id) {
            Some(i) => {
                let session = &mut sessions[i];
                let outcome = session.commit(operation);
                proof {
                    lemma_registry_at(ids@, old_sessions, i as int);
                    lemma_registry_update(ids@, old_sessions, i as int, sessions@[i as int]);
                    assert(sessions@ =~= old_sessions.update(i as int, sessions@[i as int]));
                    if outcome is Err {
                        assert(registry(ids@, old_sessions).insert(
                            document_id@,
                            sessions@[i as int]@,
                        ) =~= registry(ids@, old_sessions));
                    }
                }
                Some(outcome)
            },
            None => {
                proof {
                    lemma_registry_absent(ids@, sessions@, document_id@);
                }
                None
            },
        };
        *self = Manager { ids, sessions };
        res
    }

    /// The listener's step on seeing its token cancelled: hands the
    /// consumer end of the input queue of `document_id` back to the
    /// session. Where the session has started a listener again in the
    /// meantime, the end comes back with the token of that start, and the
    /// caller goes on listening. Where there is no such session, nothing
    /// happens.
    pub fn stop_listen(&mut self, document_id: &String, input: mpsc::Receiver<Operation>) -> (res:
        Option<Listener>)
        ensures
            !old(self)@.contains_key(document_id@) ==> res is None && final(self)@ == old(self)@,
            old(self)@.contains_key(document_id@) ==> ({
                let before = old(self)@[document_id@];
                &&& final(self)@ == old(self)@.insert(
                    document_id@,
                    SessionState {
                        listening: res is Some,
                        input_at_home: res is None || before.input_at_home,
                        ..before
                    },
                )
                &&& res is Some ==> before.listening
            }),
    {
        proof {
            use_type_invariant(&*self);
        }
        let mut taken = Manager::new();
        std::mem::swap(self, &mut taken);
        let Manager { ids, sessions } = taken;
        let mut sessions = sessions;
        let ghost old_sessions = sessions@;
        let res = match find(&ids, document_id) {
            Some(i) => {
                let session = &mut sessions[i];
                let listener = session.stop_listen(input);
                proof {
                    lemma_registry_at(ids@, old_sessions, i as int);
                    lemma_registry_update(ids@, old_sessions, i as int, sessions@[i as int]);
                    assert(sessions@ =~= old_sessions.update(i as int, sessions@[i as int]));
                }
                listener
            },
            None => {
                proof {
                    lemma_registry_absent(ids@, sessions@, document_id@);
                }
                None
            },
        };
        *self = Manager { ids, sessions };
        res
    }
}

/// An id that stands nowhere has no entry in the registry.
proof fn lemma_registry_absent(ids: Seq<String>, sessions: Seq<Session>, id: Seq<char>)
    requires
        forall|i: int| !stands_at(ids, id, i),
    ensures
        !registry(ids, sessions).contains_key(id),
{
}

/// In a registry without doubles, each id leads to the session at its index.
proof fn lemma_registry_at(ids: Seq<String>, sessions: Seq<Session>, i: int)
    requires
        distinct(ids),
        ids.len() == sessions.len(),
        0 <= i < ids.len(),
    ensures
        registry(ids, sessions).contains_key(ids[i]@),
        registry(ids, sessions)[ids[i]@] == sessions[i]@,
{
    assert(stands_at(ids, ids[i]@, i));
    let j = choose|j: int| stands_at(ids, ids[i]@, j);
    assert(j == i);
}

/// A new id with its session is one more entry of the registry.
proof fn lemma_registry_push(ids: Seq<String>, sessions: Seq<Session>, id: String, session: Session)
    requires
        distinct(ids),
        ids.len() == sessions.len(),
        forall|i: int| !stands_at(ids, id@, i),
    ensures
        distinct(ids.push(id)),
        registry(ids.push(id), sessions.push(session)) == registry(ids, sessions).insert(
            id@,
            session@,
        ),
{
    let ids2 = ids.push(id);
    let sessions2 = sessions.push(session);
    assert forall|i: int, j: int|
        0 <= i < ids2.len() && 0 <= j < ids2.len() && (#[trigger] ids2[i])@ == (
        #[trigger] ids2[j])@ implies i == j by {
        if i < ids.len() && j < ids.len() {
            assert(ids[i]@ == ids[j]@);
        } else if i < ids.len() {
            assert(stands_at(ids, id@, i));
        } else if j < ids.len() {
            assert(stands_at(ids, id@, j));
        }
    }
    let left = registry(ids2, sessions2);
    let right = registry(ids, sessions).insert(id@, session@);
    assert forall|k: Seq<char>| left.contains_key(k) <==> right.contains_key(k) by {
        if left.contains_key(k) {
            let i = choose|i: int| stands_at(ids2, k, i);
            if i < ids.len() {
                assert(stands_at(ids, k, i));
            }
        }
        if right.contains_key(k) {
            if k == id@ {
                assert(stands_at(ids2, k, ids.len() as int));
            } else {
                let i = choose|i: int| stands_at(ids, k, i);
                assert(stands_at(ids2, k, i));
            }
        }
    }
    assert forall|k: Seq<char>| left.contains_key(k) implies left[k] == right[k] by {
        let i = choose|i: int| stands_at(ids2, k, i);
        if k == id@ {
            assert(stands_at(ids2, k, ids.len() as int));
            assert(i == ids.len());
        } else {
            assert(stands_at(ids, k, i));
            let j = choose|j: int| stands_at(ids, k, j);
            assert(ids[i]@ == ids[j]@);
        }
    }
    assert(left =~= right);
}

/// A session changed in its place is a changed entry of the registry.
proof fn lemma_registry_update(ids: Seq<String>, sessions: Seq<Session>, i: int, session: Session)
    requires
        distinct(ids),
        ids.len() == sessions.len(),
        0 <= i < ids.len(),
    ensures
        registry(ids, sessions.update(i, session)) == registry(ids, sessions).insert(
            ids[i]@,
            session@,
        ),
{
    let left = registry(ids, sessions.update(i, session));
    let right = registry(ids, sessions).insert(ids[i]@, session@);
    assert(stands_at(ids, ids[i]@, i));
    assert forall|k: Seq<char>| left.contains_key(k) implies left[k] == right[k] by {
        let j = choose|j: int| stands_at(ids, k, j);
        if k == ids[i]@ {
            assert(ids[i]@ == ids[j]@);
        }
    }
    assert(left =~= right);
}

} // verus!
