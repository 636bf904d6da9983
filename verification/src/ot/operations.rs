//! Insert and delete operations over a text, and the transform that rebases
//! one operation across another.
//!
//! Positions and lengths count `char`s (Unicode scalar values): position `p`
//! addresses the gap before the `p`-th `char` of the text.

use std::sync::Arc;
use vstd::prelude::*;
use vstd::string::*;

verus! {

pub type Position = u32;

pub type Revision = u32;

/// An edit command, ready to be queued or transformed.
pub type ArcOperation = Arc<Operation>;

/// Why an operation was turned away.
#[derive(Debug, Clone, Copy, PartialEq, Eq, Structural)]
pub enum OperationError {
    /// The operation names a revision that the document has not reached.
    InvalidRevision,
    /// The position, or the position plus the length, lies beyond the text.
    OutOfBounds,
    /// A position or a revision would leave the range of `u32`.
    Overflow,
}

/// What an operation is, as a mathematical value.
pub enum OperationModel {
    Insert { position: int, revision: int, text: Seq<char> },
    Delete { position: int, revision: int, length: int },
}

/// Intersection of two segments given by their inclusive ends, as a span
/// that is half-open on the right, or `None` where they do not meet.
pub open spec fn spec_intersection(
    first_start: int,
    first_end: int,
    second_start: int,
    second_end: int,
) -> Option<(int, int)> {
    if first_end < second_start || second_end < first_start {
        None
    } else {
        Some(
            (
                if first_start > second_start {
                    first_start
                } else {
                    second_start
                },
                (if second_end < first_end {
                    second_end
                } else {
                    first_end
                }) + 1,
            ),
        )
    }
}

/// Number of positions that the ranges `[p, p + l)` and `[q, q + m)` share.
pub open spec fn overlap_width(p: int, l: int, q: int, m: int) -> int {
    match spec_intersection(p, p + l - 1, q, q + m - 1) {
        Some((start, end)) => end - start,
        None => 0,
    }
}

impl OperationModel {
    pub open spec fn position(self) -> int {
        match self {
            OperationModel::Insert { position, .. } => position,
            OperationModel::Delete { position, .. } => position,
        }
    }

    pub open spec fn revision(self) -> int {
        match self {
            OperationModel::Insert { revision, .. } => revision,
            OperationModel::Delete { revision, .. } => revision,
        }
    }

    /// Number of `char`s that the operation adds to a text (negative for a
    /// delete).
    pub open spec fn growth(self) -> int {
        match self {
            OperationModel::Insert { text, .. } => text.len() as int,
            OperationModel::Delete { length, .. } => -length,
        }
    }

    /// No field is negative.
    pub open spec fn well_formed(self) -> bool {
        match self {
            OperationModel::Insert { position, revision, .. } => position >= 0 && revision >= 0,
            OperationModel::Delete { position, revision, length } => position >= 0 && revision
                >= 0 && length >= 0,
        }
    }

    /// Every number of the operation fits in `u32`.
    pub open spec fn representable(self) -> bool {
        match self {
            OperationModel::Insert { position, revision, .. } => 0 <= position <= u32::MAX && 0
                <= revision <= u32::MAX,
            OperationModel::Delete { position, revision, length } => 0 <= position <= u32::MAX
                && 0 <= revision <= u32::MAX && 0 <= length <= u32::MAX,
        }
    }

    pub open spec fn with_revision(self, revision: int) -> OperationModel {
        match self {
            OperationModel::Insert { position, text, .. } => OperationModel::Insert {
                position,
                revision,
                text,
            },
            OperationModel::Delete { position, length, .. } => OperationModel::Delete {
                position,
                revision,
                length,
            },
        }
    }

    pub open spec fn with_position(self, position: int) -> OperationModel {
        match self {
            OperationModel::Insert { revision, text, .. } => OperationModel::Insert {
                position,
                revision,
                text,
            },
            OperationModel::Delete { revision, length, .. } => OperationModel::Delete {
                position,
                revision,
                length,
            },
        }
    }

    /// The operation lies within a text of `len` chars.
    pub open spec fn valid_on(self, len: int) -> bool {
        match self {
            OperationModel::Insert { position, .. } => 0 <= position <= len,
            OperationModel::Delete { position, length, .. } => 0 <= position && 0 <= length
                && position + length <= len,
        }
    }

    /// The text after the operation. Meaningful where `valid_on` holds.
    pub open spec fn apply_to(self, text: Seq<char>) -> Seq<char> {
        match self {
            OperationModel::Insert { position, text: inserted, .. } => text.subrange(0, position)
                + inserted + text.subrange(position, text.len() as int),
            OperationModel::Delete { position, length, .. } => text.subrange(0, position)
                + text.subrange(position + length, text.len() as int),
        }
    }

    /// The operation rebased as if `other` had already been applied to the
    /// text that both were made for. Where two inserts meet at one position,
    /// `other` comes first.
    pub open spec fn transform(self, other: OperationModel) -> OperationModel {
        match (self, other) {
            (
                OperationModel::Insert { position: p, .. },
                OperationModel::Insert { position: q, text, .. },
            ) => if p >= q {
                self.with_position(p + text.len())
            } else {
                self
            },
            (
                OperationModel::Insert { position: p, .. },
                OperationModel::Delete { position: q, length: m, .. },
            ) => if p <= q {
                self
            } else {
                self.with_position(
                    p - (if m <= p - q {
                        m
                    } else {
                        p - q
                    }),
                )
            },
            (
                OperationModel::Delete { position: p, .. },
                OperationModel::Insert { position: q, text, .. },
            ) => if p >= q {
                self.with_position(p + text.len())
            } else {
                self
            },
            (
                OperationModel::Delete { position: p, revision, length: l },
                OperationModel::Delete { position: q, length: m, .. },
            ) => {
                let w = overlap_width(p, l, q, m);
                if w == l {
                    OperationModel::Delete { position: p, revision, length: 0 }
                } else {
                    OperationModel::Delete {
                        position: if p >= q {
                            p - (m - w)
                        } else {
                            p
                        },
                        revision,
                        length: l - w,
                    }
                }
            },
        }
    }

    /// `transform` moves no number of the operation out of `u32`. Only the
    /// position can grow: lengths shrink, texts and revisions stay.
    pub open spec fn transform_fits(self, other: OperationModel) -> bool {
        self.transform(other).position() <= u32::MAX
    }
}

/// Calculates the intersection of two segments. Accepts the ends of the
/// segments, **including the ends**; returns `None` if the segments do not
/// intersect, `Some((x, y))` if the segment `[x, y-1]` is the area of
/// intersection.
///
/// The first one starts at 0 and has a length of 5, and the second one
/// starts at 3 and has a length of 4: `intersection(0, 0+5-1, 3, 3+4-1)` is
/// `Some((3, 5))`.
pub fn intersection(
    first_start: u64,
    first_end: u64,
    second_start: u64,
    second_end: u64,
) -> (res: Option<(u64, u64)>)
    requires
        first_end < u64::MAX || second_end < u64::MAX,
    ensures
        match spec_intersection(
            first_start as int,
            first_end as int,
            second_start as int,
            second_end as int,
        ) {
            None => res is None,
            Some((start, end)) => res matches Some((x, y)) && x == start && y == end,
        },
{
    if first_end < second_start || second_end < first_start {
        return None;
    }
    let start: u64 = if first_start > second_start {
        first_start
    } else {
        second_start
    };

    let end: u64 = if second_end < first_end {
        second_end
    } else {
        first_end
    };

    Some((start, end + 1))
}

/// Puts text in at a position.
#[derive(Debug)]
pub struct InsertOperation {
    position: Position,
    revision: Revision,
    text: String,
}

/// Takes `len` chars out, starting at a position.
#[derive(Debug)]
pub struct DeleteOperation {
    position: Position,
    revision: Revision,
    len: u32,
}

/// One of the two kinds of edit.
#[derive(Debug)]
pub enum Operation {
    Insert(InsertOperation),
    Delete(DeleteOperation),
}

impl View for InsertOperation {
    type V = OperationModel;

    closed spec fn view(&self) -> OperationModel {
        OperationModel::Insert {
            position: self.position as int,
            revision: self.revision as int,
            text: self.text@,
        }
    }
}

impl View for DeleteOperation {
    type V = OperationModel;

    closed spec fn view(&self) -> OperationModel {
        OperationModel::Delete {
            position: self.position as int,
            revision: self.revision as int,
            length: self.len as int,
        }
    }
}

impl View for Operation {
    type V = OperationModel;

    open spec fn view(&self) -> OperationModel {
        match self {
            Operation::Insert(op) => op@,
            Operation::Delete(op) => op@,
        }
    }
}

/// What every operation offers: it can be applied to a text, rebased across
/// another operation, and asked for its position and revision.
pub trait OperationTrait: Sized {
    /// The operation as a mathematical value.
    spec fn model(&self) -> OperationModel;

    /// Applies the operation to the text. An operation that does not lie
    /// within the text is turned away, and the text stays as it was.
    ///
    /// An insert of `"1"` at position 1 turns `"abc"` into `"a1bc"`.
    fn apply(&self, text: &mut String) -> (res: Result<(), OperationError>)
        ensures
            self.model().valid_on(old(text)@.len() as int) ==> res is Ok && final(text)@
                == self.model().apply_to(old(text)@) && final(text)@.len() == old(text)@.len()
                + self.model().growth(),
            !self.model().valid_on(old(text)@.len() as int) ==> res == Err::<
                (),
                OperationError,
            >(OperationError::OutOfBounds) && *final(text) == *old(text),
    ;

    /// As `apply`, but hands the new text back and leaves `text` alone.
    fn apply_return(&self, text: &mut String) -> (res: Result<String, OperationError>)
        ensures
            *final(text) == *old(text),
            self.model().valid_on(old(text)@.len() as int) ==> (res matches Ok(t) && t@
                == self.model().apply_to(old(text)@) && t@.len() == old(text)@.len()
                + self.model().growth()),
            !self.model().valid_on(old(text)@.len() as int) ==> (res matches Err(
                OperationError::OutOfBounds,
            )),
    ;

    /// Whether `transform_relative_to` may be called with `operation`: the
    /// rebased position still fits in `u32`.
    fn transform_fits(&self, operation: &Operation) -> (fits: bool)
        ensures
            fits == self.model().transform_fits(operation@),
    ;

    /// Transforms the operation relative to transmitted `operation`.
    fn transform_relative_to(&mut self, operation: &Operation)
        requires
            old(self).model().transform_fits(operation@),
        ensures
            final(self).model() == old(self).model().transform(operation@),
    ;

    /// Getter of the last known revision
    fn revision(&self) -> (revision: Revision)
        ensures
            revision == self.model().revision(),
    ;

    /// Setter of the last known revision
    fn set_revision(&mut self, revision: Revision)
        ensures
            final(self).model() == old(self).model().with_revision(revision as int),
    ;

    /// Position getter
    fn position(&self) -> (position: Position)
        ensures
            position == self.model().position(),
    ;
}

impl InsertOperation {
    pub fn new(position: Position, revision: Revision, text: String) -> (op: Self)
        ensures
            op@ == (OperationModel::Insert {
                position: position as int,
                revision: revision as int,
                text: text@,
            }),
    {
        Self { position: position, revision: revision, text: text }
    }

    /// The text that the operation puts in.
    pub fn text(&self) -> (text: &String)
        ensures
            self@ is Insert,
            self@->text == text@,
    {
        &self.text
    }

    /// An insert is an `Insert`, within `u32`.
    pub proof fn lemma_view(&self)
        ensures
            self@ is Insert,
            self@.representable(),
    {
    }
}

impl DeleteOperation {
    pub fn new(position: Position, revision: Revision, len: u32) -> (op: Self)
        ensures
            op@ == (OperationModel::Delete {
                position: position as int,
                revision: revision as int,
                length: len as int,
            }),
    {
        Self { position: position, revision: revision, len: len }
    }

    /// The number of chars that the operation takes out.
    pub fn len(&self) -> (len: &u32)
        ensures
            self@ is Delete,
            self@->length == *len,
    {
        &self.len
    }

    /// A delete is a `Delete`, within `u32`.
    pub proof fn lemma_view(&self)
        ensures
            self@ is Delete,
            self@.representable(),
    {
    }
}

impl OperationTrait for InsertOperation {
    open spec fn model(&self) -> OperationModel {
        self@
    }

    fn apply(&self, text: &mut String) -> (res: Result<(), OperationError>) {
        let len: usize = text.as_str().unicode_len();
        if self.position as usize > len {
            return Err(OperationError::OutOfBounds);
        }
        let mut a = String::new();
        a.append(text.as_str().substring_char(0, self.position as usize));
        a.append(self.text.as_str());
        a.append(text.as_str().substring_char(self.position as usize, len));
        *text = a;
        Ok(())
    }

    fn apply_return(&self, text: &mut String) -> (res: Result<String, OperationError>) {
        let len: usize = text.as_str().unicode_len();
        if self.position as usize > len {
            return Err(OperationError::OutOfBounds);
        }
        let mut a = String::new();
        a.append(text.as_str().substring_char(0, self.position as usize));
        a.append(self.text.as_str());
        a.append(text.as_str().substring_char(self.position as usize, len));
        Ok(a)
    }

    fn transform_fits(&self, operation: &Operation) -> (fits: bool) {
        match operation {
            Operation::Insert(other) => {
                if self.position >= other.position {
                    other.text.as_str().unicode_len() <= (u32::MAX - self.position) as usize
                } else {
                    true
                }
            },
            Operation::Delete(_) => true,
        }
    }

    fn transform_relative_to(&mut self, operation: &Operation) {
        match operation {
            Operation::Insert(other) => {
                if self.position >= other.position {
                    let shift: usize = other.text.as_str().unicode_len();
                    self.position += shift as u32;
                }
            },
            Operation::Delete(other) => {
                if self.position > other.position {
                    let gap: u32 = self.position - other.position;
                    self.position -= if other.len <= gap {
                        other.len
                    } else {
                        gap
                    }
                }
            },
        }
    }

    fn revision(&self) -> (revision: Revision) {
        self.revision
    }

    fn set_revision(&mut self, revision: Revision) {
        self.revision = revision
    }

    fn position(&self) -> (position: Position) {
        self.position
    }
}

impl OperationTrait for DeleteOperation {
    open spec fn model(&self) -> OperationModel {
        self@
    }

    fn apply(&self, text: &mut String) -> (res: Result<(), OperationError>) {
        let len: usize = text.as_str().unicode_len();
        if self.position as u64 + self.len as u64 > len as u64 {
            return Err(OperationError::OutOfBounds);
        }
        let mut tmp = String::new();
        tmp.append(text.as_str().substring_char(0, self.position as usize));
        tmp.append(text.as_str().substring_char(self.position as usize + self.len as usize, len));
        *text = tmp;
        Ok(())
    }

    fn apply_return(&self, text: &mut String) -> (res: Result<String, OperationError>) {
        let len: usize = text.as_str().unicode_len();
        if self.position as u64 + self.len as u64 > len as u64 {
            return Err(OperationError::OutOfBounds);
        }
        let mut tmp = String::new();
        tmp.append(text.as_str().substring_char(0, self.position as usize));
        tmp.append(text.as_str().substring_char(self.position as usize + self.len as usize, len));
        Ok(tmp)
    }

    fn transform_fits(&self, operation: &Operation) -> (fits: bool) {
        match operation {
            Operation::Insert(other) => {
                if self.position >= other.position {
                    other.text.as_str().unicode_len() <= (u32::MAX - self.position) as usize
                } else {
                    true
                }
            },
            Operation::Delete(_) => true,
        }
    }

    fn transform_relative_to(&mut self, operation: &Operation) {
        match operation {
            Operation::Insert(other) => {
                if self.position >= other.position {
                    let shift: usize = other.text.as_str().unicode_len();
                    self.position += shift as u32;
                }
            },
            Operation::Delete(other) => {
                // an empty range has no inclusive end, and meets nothing
                let intersection_len: u32 = if self.len == 0 || other.len == 0 {
                    0
                } else if let Some(el) = intersection(
                    self.position as u64,
                    self.position as u64 + self.len as u64 - 1,
                    other.position as u64,
                    other.position as u64 + other.len as u64 - 1,
                ) {
                    (el.1 - el.0) as u32
                } else {
                    0
                };

                if intersection_len == self.len {
                    self.len = 0;
                } else {
                    self.len -= intersection_len;
                    if self.position >= other.position {
                        self.position -= other.len - intersection_len;
                    }
                }
            },
        }
    }

    fn revision(&self) -> (revision: Revision) {
        self.revision
    }

    fn set_revision(&mut self, revision: Revision) {
        self.revision = revision
    }

    fn position(&self) -> (position: Position) {
        self.position
    }
}

impl OperationTrait for Operation {
    open spec fn model(&self) -> OperationModel {
        self@
    }

    fn apply(&self, text: &mut String) -> (res: Result<(), OperationError>) {
        match self {
            Operation::Insert(op) => op.apply(text),
            Operation::Delete(op) => op.apply(text),
        }
    }

    fn apply_return(&self, text: &mut String) -> (res: Result<String, OperationError>) {
        match self {
            Operation::Insert(op) => op.apply_return(text),
            Operation::Delete(op) => op.apply_return(text),
        }
    }

    fn transform_fits(&self, operation: &Operation) -> (fits: bool) {
        match self {
            Operation::Insert(op) => op.transform_fits(operation),
            Operation::Delete(op) => op.transform_fits(operation),
        }
    }

    fn transform_relative_to(&mut self, operation: &Operation) {
        match self {
            Operation::Insert(op) => op.transform_relative_to(operation),
            Operation::Delete(op) => op.transform_relative_to(operation),
        }
    }

    fn revision(&self) -> (revision: Revision) {
        match self {
            Operation::Insert(op) => op.revision(),
            Operation::Delete(op) => op.revision(),
        }
    }

    fn set_revision(&mut self, revision: Revision) {
        match self {
            Operation::Insert(op) => op.set_revision(revision),
            Operation::Delete(op) => op.set_revision(revision),
        }
    }

    fn position(&self) -> (position: Position) {
        match self {
            Operation::Insert(op) => op.position(),
            Operation::Delete(op) => op.position(),
        }
    }
}

/// One of the kinds of operation that an `Operation` may hold.
pub trait OperationKind: Sized {
    /// The operation of this kind that `operation` holds, if it holds one.
    spec fn held_in(operation: Operation) -> Option<Self>;

    /// An `Operation` that holds `self`.
    spec fn wrapped(self) -> Operation;

    fn held_ref(operation: &Operation) -> (held: Option<&Self>)
        ensures
            match held {
                Some(found) => Self::held_in(*operation) == Some(*found),
                None => Self::held_in(*operation) is None,
            },
    ;

    fn held_mut(operation: &mut Operation) -> (held: Option<&mut Self>)
        ensures
            match held {
                Some(found) => Self::held_in(*old(operation)) == Some(*found) && *final(operation)
                    == final(found).wrapped(),
                None => Self::held_in(*old(operation)) is None && *final(operation) == *old(
                    operation,
                ),
            },
    ;
}

impl OperationKind for InsertOperation {
    open spec fn held_in(operation: Operation) -> Option<Self> {
        match operation {
            Operation::Insert(op) => Some(op),
            Operation::Delete(_) => None,
        }
    }

    open spec fn wrapped(self) -> Operation {
        Operation::Insert(self)
    }

    fn held_ref(operation: &Operation) -> (held: Option<&Self>) {
        match operation {
            Operation::Insert(op) => Some(op),
            Operation::Delete(_) => None,
        }
    }

    fn held_mut(operation: &mut Operation) -> (held: Option<&mut Self>) {
        match operation {
            Operation::Insert(op) => Some(op),
            Operation::Delete(_) => None,
        }
    }
}

impl OperationKind for DeleteOperation {
    open spec fn held_in(operation: Operation) -> Option<Self> {
        match operation {
            Operation::Insert(_) => None,
            Operation::Delete(op) => Some(op),
        }
    }

    open spec fn wrapped(self) -> Operation {
        Operation::Delete(self)
    }

    fn held_ref(operation: &Operation) -> (held: Option<&Self>) {
        match operation {
            Operation::Insert(_) => None,
            Operation::Delete(op) => Some(op),
        }
    }

    fn held_mut(operation: &mut Operation) -> (held: Option<&mut Self>) {
        match operation {
            Operation::Insert(_) => None,
            Operation::Delete(op) => Some(op),
        }
    }
}

impl Operation {
    /// Downcasts your object to `&T`.
    ///
    /// Return `Some(&T)` if the cast was successful, otherwise `None`: on an
    /// operation that holds a delete, `downcast::<DeleteOperation>()` is
    /// `Some`, and `downcast::<InsertOperation>()` is `None`.
    pub fn downcast<T: OperationKind>(&self) -> (held: Option<&T>)
        ensures
            match held {
                Some(found) => T::held_in(*self) == Some(*found),
                None => T::held_in(*self) is None,
            },
    {
        T::held_ref(self)
    }

    /// Downcasts your object to `&mut T`.
    ///
    /// Return `Some(&mut T)` if the cast was successful, otherwise `None`.
    /// What is done to the `T` is done to the operation that holds it.
    pub fn downcast_mut<T: OperationKind>(&mut self) -> (held: Option<&mut T>)
        ensures
            match held {
                Some(found) => T::held_in(*old(self)) == Some(*found) && *final(self)
                    == final(found).wrapped(),
                None => T::held_in(*old(self)) is None && *final(self) == *old(self),
            },
    {
        T::held_mut(self)
    }
}

} // verus!
