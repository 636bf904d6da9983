//! The document: the text as it stands, and the log of the operations that
//! were committed to it, in commit order.

use crate::ot::operations::{
    ArcOperation, Operation, OperationError, OperationModel, OperationTrait, Revision,
};
use std::sync::Arc;
use vstd::prelude::*;

verus! {

/// `operation` rebased across each operation of `tail` in turn, first to
/// last.
pub open spec fn transform_over(operation: OperationModel, tail: Seq<OperationModel>)
    -> OperationModel
    decreases tail.len(),
{
    if tail.len() == 0 {
        operation
    } else {
        transform_over(operation, tail.drop_last()).transform(tail.last())
    }
}

/// On the way across `tail` the position of `operation` never leaves `u32`.
pub open spec fn transform_over_fits(operation: OperationModel, tail: Seq<OperationModel>) -> bool
    decreases tail.len(),
{
    tail.len() == 0 || (transform_over_fits(operation, tail.drop_last()) && transform_over(
        operation,
        tail.drop_last(),
    ).transform_fits(tail.last()))
}

/// What becomes of an operation that is handed to a document with the given
/// log and text: the operation as it is committed, or the reason why it is
/// turned away.
///
/// The operation must name a revision that the log has reached. It is rebased
/// across the operations committed since that revision, takes the next
/// revision, and must then lie within the text.
pub open spec fn commit_outcome(
    log: Seq<OperationModel>,
    text: Seq<char>,
    operation: OperationModel,
) -> Result<OperationModel, OperationError> {
    if operation.revision() > log.len() {
        Err(OperationError::InvalidRevision)
    } else {
        let tail = log.skip(operation.revision());
        if log.len() >= u32::MAX || !transform_over_fits(operation, tail) {
            Err(OperationError::Overflow)
        } else if !transform_over(operation, tail).valid_on(text.len() as int) {
            Err(OperationError::OutOfBounds)
        } else {
            Ok(transform_over(operation, tail).with_revision(log.len() as int))
        }
    }
}

/// The operation at each index of the log carries that index as its
/// revision.
pub open spec fn revisions_in_order(log: Seq<OperationModel>) -> bool {
    forall|i: int| 0 <= i < log.len() ==> (#[trigger] log[i]).revision() == i
}

/// The text that comes of applying the operations of `log` to `base`, first
/// to last.
pub open spec fn replay(base: Seq<char>, log: Seq<OperationModel>) -> Seq<char>
    decreases log.len(),
{
    if log.len() == 0 {
        base
    } else {
        log.last().apply_to(replay(base, log.drop_last()))
    }
}

/// Each operation of `log` lies within the text that the operations before
/// it make of `base`: one who starts from `base` and applies the log in
/// order is never turned away.
pub open spec fn replayable(base: Seq<char>, log: Seq<OperationModel>) -> bool
    decreases log.len(),
{
    log.len() == 0 || (replayable(base, log.drop_last()) && log.last().valid_on(
        replay(base, log.drop_last()).len() as int,
    ))
}

/// A document that operations are committed to.
pub trait DocumentTrait {
    /// The committed operations, in commit order.
    spec fn log(&self) -> Seq<OperationModel>;

    /// The text as it stands.
    spec fn text(&self) -> Seq<char>;

    /// Commits the operation: rebases it across what was committed since
    /// the revision it names, gives it the next revision, applies it to the
    /// text and appends it to the log. An operation that is turned away
    /// leaves the document as it was.
    fn apply(&mut self, operation: Operation) -> (res: Result<ArcOperation, OperationError>)
        ensures
            revisions_in_order(final(self).log()),
            match commit_outcome(old(self).log(), old(self).text(), operation@) {
                Ok(committed) => res matches Ok(handle) && handle@ == committed
                    && final(self).log() == old(self).log().push(committed)
                    && final(self).text() == committed.apply_to(old(self).text()),
                Err(reason) => res matches Err(e) && e == reason && final(self).log() == old(
                    self,
                ).log() && final(self).text() == old(self).text(),
            },
    ;

    /// The number of operations committed so far.
    fn revision(&self) -> (revision: Revision)
        ensures
            revision == self.log().len(),
            revisions_in_order(self.log()),
    ;
}

/// A document held in memory.
pub struct DocumentMem {
    operations: Vec<ArcOperation>,
    content: String,
    base: Ghost<Seq<char>>,
}

/// The operations behind a row of handles.
pub open spec fn models(operations: Seq<ArcOperation>) -> Seq<OperationModel> {
    Seq::new(operations.len(), |i: int| operations[i]@)
}

impl DocumentMem {
    pub closed spec fn spec_log(&self) -> Seq<OperationModel> {
        models(self.operations@)
    }

    pub closed spec fn spec_text(&self) -> Seq<char> {
        self.content@
    }

    /// The text that the document started from.
    pub closed spec fn spec_base(&self) -> Seq<char> {
        self.base@
    }

    #[verifier::type_invariant]
    spec fn well_formed(&self) -> bool {
        &&& self.operations@.len() <= u32::MAX
        &&& revisions_in_order(self.spec_log())
        &&& replayable(self.base@, self.spec_log())
        &&& self.content@ == replay(self.base@, self.spec_log())
    }

    /// An empty document: no text, nothing committed.
    pub fn new() -> (document: DocumentMem)
        ensures
            document.log() == Seq::<OperationModel>::empty(),
            document.text() == Seq::<char>::empty(),
            document.spec_base() == Seq::<char>::empty(),
    {
        let document = DocumentMem {
            operations: Vec::new(),
            content: String::new(),
            base: Ghost(Seq::empty()),
        };
        assert(document.spec_log() =~= Seq::<OperationModel>::empty());
        document
    }

    /// A document that starts from `base`, with nothing committed.
    pub fn from_text(base: String) -> (document: DocumentMem)
        ensures
            document.log() == Seq::<OperationModel>::empty(),
            document.text() == base@,
            document.spec_base() == base@,
    {
        let ghost start = base@;
        let document = DocumentMem { operations: Vec::new(), content: base, base: Ghost(start) };
        assert(document.spec_log() =~= Seq::<OperationModel>::empty());
        document
    }

    /// The text as it stands. It is what the committed operations, applied
    /// in order, make of the text that the document started from, and each
    /// of them can be applied in its turn.
    pub fn content(&self) -> (content: &String)
        ensures
            content@ == self.text(),
            content@ == replay(self.spec_base(), self.log()),
            replayable(self.spec_base(), self.log()),
    {
        proof {
            use_type_invariant(self);
        }
        &self.content
    }

    /// The committed operations, in commit order.
    pub fn operations(&self) -> (operations: &Vec<ArcOperation>)
        ensures
            operations@.len() == self.log().len(),
            forall|i: int| 0 <= i < operations@.len() ==> (#[trigger] operations@[i])@ == self.log()[i],
            revisions_in_order(self.log()),
    {
        proof {
            use_type_invariant(self);
        }
        &self.operations
    }
}

impl DocumentTrait for DocumentMem {
    open spec fn log(&self) -> Seq<OperationModel> {
        self.spec_log()
    }

    open spec fn text(&self) -> Seq<char> {
        self.spec_text()
    }

    fn apply(&mut self, operation: Operation) -> (res: Result<ArcOperation, OperationError>) {
        proof {
            use_type_invariant(&*self);
        }
        let count: usize = self.operations.len();
        let base_revision: usize = operation.revision() as usize;
        if base_revision > count {
            return Err(OperationError::InvalidRevision);
        }
        if count >= u32::MAX as usize {
            return Err(OperationError::Overflow);
        }
        let ghost log = self.spec_log();
        let ghost incoming = operation@;
        let ghost tail = log.skip(base_revision as int);
        let mut op = operation;
        let mut i: usize = base_revision;
        while i < count
            invariant
                base_revision <= i <= count,
                count == self.operations@.len(),
                log == self.spec_log(),
                log.len() == count,
                tail == log.skip(base_revision as int),
                revisions_in_order(log),
                *self == *old(self),
                incoming == operation@,
                incoming.revision() == base_revision,
                transform_over_fits(incoming, tail.subrange(0, i - base_revision)),
                op@ == transform_over(incoming, tail.subrange(0, i - base_revision)),
            decreases count - i,
        {
            let committed: &Operation = &self.operations[i];
            proof {
                let next = tail.subrange(0, i + 1 - base_revision);
                assert(next.drop_last() =~= tail.subrange(0, i - base_revision));
                assert(next.last() == committed@);
            }
            if !op.transform_fits(committed) {
                proof {
                    if transform_over_fits(incoming, tail) {
                        lemma_fits_prefix(incoming, tail, i + 1 - base_revision);
                        assert(transform_over_fits(
                            incoming,
                            tail.subrange(0, i + 1 - base_revision),
                        ));
                    }
                }
                return Err(OperationError::Overflow);
            }
            op.transform_relative_to(committed);
            i += 1;
        }
        assert(tail.subrange(0, count - base_revision) =~= tail);
        op.set_revision(count as u32);
        let mut previous = DocumentMem::new();
        std::mem::swap(self, &mut previous);
        let DocumentMem { operations, content, base } = previous;
        let mut operations = operations;
        let mut content = content;
        match op.apply(&mut content) {
            Ok(()) => {},
            Err(_) => {
                *self = DocumentMem { operations, content, base };
                return Err(OperationError::OutOfBounds);
            },
        }
        let handle = Arc::new(op);
        operations.push(Arc::clone(&handle));
        proof {
            assert(models(operations@) =~= log.push(handle@));
            assert(log.push(handle@).drop_last() =~= log);
        }
        *self = DocumentMem { operations, content, base };
        Ok(handle)
    }

    fn revision(&self) -> (revision: Revision) {
        proof {
            use_type_invariant(self);
        }
        self.operations.len() as u32
    }
}

/// Where an operation fits all the way across `tail`, it fits across each
/// part of `tail` that starts at its beginning.
proof fn lemma_fits_prefix(operation: OperationModel, tail: Seq<OperationModel>, n: int)
    requires
        0 <= n <= tail.len(),
        transform_over_fits(operation, tail),
    ensures
        transform_over_fits(operation, tail.subrange(0, n)),
    decreases tail.len(),
{
    if n == tail.len() {
        assert(tail.subrange(0, n) =~= tail);
    } else {
        lemma_fits_prefix(operation, tail.drop_last(), n);
        assert(tail.drop_last().subrange(0, n) =~= tail.subrange(0, n));
    }
}

/// The log and the text of a document after the operations of `incoming`
/// were handed to it in turn. Those that are turned away leave no trace.
pub open spec fn after_commits(
    log: Seq<OperationModel>,
    text: Seq<char>,
    incoming: Seq<OperationModel>,
) -> (Seq<OperationModel>, Seq<char>)
    decreases incoming.len(),
{
    if incoming.len() == 0 {
        (log, text)
    } else {
        let (earlier_log, earlier_text) = after_commits(log, text, incoming.drop_last());
        match commit_outcome(earlier_log, earlier_text, incoming.last()) {
            Ok(committed) => (earlier_log.push(committed), committed.apply_to(earlier_text)),
            Err(_) => (earlier_log, earlier_text),
        }
    }
}

/// Whatever is handed to a document, in whatever order: the log only grows
/// at its end, so the revision never goes down; and what is added carries
/// the revisions that follow, one by one, on the revision that the document
/// had. These are the operations that the subscribers of that time see, in
/// this order.
pub proof fn lemma_commits_in_order(
    log: Seq<OperationModel>,
    text: Seq<char>,
    incoming: Seq<OperationModel>,
)
    requires
        revisions_in_order(log),
    ensures
        ({
            let later = after_commits(log, text, incoming).0;
            &&& later.len() >= log.len()
            &&& later.subrange(0, log.len() as int) == log
            &&& revisions_in_order(later)
            &&& forall|k: int|
                0 <= k < later.len() - log.len() ==> (#[trigger] later.skip(log.len() as int)[k]).revision()
                    == log.len() + k
        }),
    decreases incoming.len(),
{
    let later = after_commits(log, text, incoming).0;
    if incoming.len() == 0 {
        assert(later.subrange(0, log.len() as int) =~= log);
    } else {
        lemma_commits_in_order(log, text, incoming.drop_last());
        let (earlier_log, earlier_text) = after_commits(log, text, incoming.drop_last());
        assert(later.subrange(0, log.len() as int) =~= earlier_log.subrange(0, log.len() as int));
    }
}

/// A document's text is what its log makes of the text it started from, and
/// stays so with each commit.
pub proof fn lemma_commit_extends_replay(
    base: Seq<char>,
    log: Seq<OperationModel>,
    operation: OperationModel,
)
    ensures
        commit_outcome(log, replay(base, log), operation) matches Ok(committed) ==> committed.apply_to(
            replay(base, log),
        ) == replay(base, log.push(committed)),
{
    if let Ok(committed) = commit_outcome(log, replay(base, log), operation) {
        assert(log.push(committed).drop_last() =~= log);
    }
}

} // verus!
