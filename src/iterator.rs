use vstd::prelude::*;
use crate::query_error::QueryErrorCode;

verus! {

/// The field mask that selects every field.
pub const RS_FIELDMASK_ALL: u128 = 0xffff_ffff_ffff_ffff_ffff_ffff_ffff_ffff;

/// Whether a result was synthesized by a combinator or read from an index.
#[derive(Clone, Copy, Debug, PartialEq, Eq, Structural)]
pub enum ResultKind {
    Virtual,
    Real,
}

/// One matched document, as a cursor hands it back.
///
/// `weight` holds the bit pattern of an IEEE-754 double: cursors only copy and
/// replace it, they never compute with it. The bit pattern `0` is the weight `0.0`.
#[derive(Clone, Copy, Debug, PartialEq, Eq, Structural)]
pub struct IndexResult {
    pub doc_id: u64,
    pub weight: u64,
    pub freq: u32,
    pub field_mask: u128,
    pub kind: ResultKind,
}

/// The placeholder result at `doc_id`: no weight, frequency one, every field.
pub open spec fn virtual_at(doc_id: u64) -> IndexResult {
    IndexResult { doc_id, weight: 0, freq: 1, field_mask: RS_FIELDMASK_ALL, kind: ResultKind::Virtual }
}

/// `r` with its weight replaced by `weight`.
pub open spec fn with_weight(r: IndexResult, weight: u64) -> IndexResult {
    IndexResult { weight, ..r }
}

impl IndexResult {
    /// The placeholder result at `doc_id`.
    pub fn virt(doc_id: u64) -> (r: IndexResult)
        ensures
            r == virtual_at(doc_id),
    {
        IndexResult { doc_id, weight: 0, freq: 1, field_mask: RS_FIELDMASK_ALL, kind: ResultKind::Virtual }
    }
}

/// An error that a cursor passes up to its caller.
#[derive(Clone, Copy, Debug, PartialEq, Eq, Structural)]
pub enum RQEIteratorError {
    TimedOut,
    Failed(QueryErrorCode),
}

/// What `skip_to` found: a result at the target, or the next result past it.
#[derive(Clone, Copy, Debug, PartialEq, Eq, Structural)]
pub enum SkipToOutcome {
    Found(IndexResult),
    NotFound(IndexResult),
}

/// What `revalidate` reports after the index may have changed under a cursor.
#[derive(Clone, Copy, Debug, PartialEq, Eq, Structural)]
pub enum RQEValidateStatus {
    /// The position is still valid.
    Valid,
    /// The position changed; `current` is what the cursor now holds.
    Moved { current: Option<IndexResult> },
    /// The cursor can no longer be used.
    Aborted,
}

/// The kind of a revalidation reply, without its payload.
#[derive(Clone, Copy, Debug, PartialEq, Eq, Structural)]
pub enum ValidateKind {
    Valid,
    Moved,
    Aborted,
}

/// The kind of a successful revalidation reply.
pub open spec fn kind_of(s: RQEValidateStatus) -> ValidateKind {
    match s {
        RQEValidateStatus::Valid => ValidateKind::Valid,
        RQEValidateStatus::Moved { .. } => ValidateKind::Moved,
        RQEValidateStatus::Aborted => ValidateKind::Aborted,
    }
}

/// The facts that tie a cursor's position to its ids and its held result.
pub open spec fn positioned<I: RQEIterator>(c: I) -> bool {
    &&& c.inv()
    &&& (c.last_doc_id_spec() == 0 || c.yields(c.last_doc_id_spec()))
    &&& (c.last_doc_id_spec() > 0 ==> c.current_spec() is Some)
    &&& (c.never_yields() ==> c.last_doc_id_spec() == 0)
    &&& (c.current_spec() matches Some(y) ==> y.doc_id == c.last_doc_id_spec())
}

/// A cursor over a strictly ascending stream of document ids.
///
/// Its abstract state is `yields` (the ids it produces), `last_doc_id_spec` (the last
/// position returned, `0` before the first, else one of its ids) and `current_spec`
/// (the result held there). `read` returns the least id past the position, `skip_to` the
/// least id at or past its target; what they return becomes `current_spec`. Only
/// `revalidate` may change the ids. `never_yields` marks a cursor without any document,
/// `never_fails` one that never returns an error, and `revalidate_reply` the kind of
/// reply its `revalidate` gives, where that is known in advance; moving the cursor keeps
/// all three.
pub trait RQEIterator: Sized {
    spec fn inv(&self) -> bool;

    spec fn yields(&self, id: u64) -> bool;

    spec fn last_doc_id_spec(&self) -> u64;

    spec fn current_spec(&self) -> Option<IndexResult>;

    spec fn at_eof_spec(&self) -> bool;

    spec fn never_yields(&self) -> bool;

    spec fn never_fails(&self) -> bool;

    spec fn revalidate_reply(&self) -> Option<ValidateKind>;

    /// The result at the current position, without moving.
    fn current(&self) -> (r: Option<IndexResult>)
        requires
            self.inv(),
        ensures
            r == self.current_spec(),
            r matches Some(x) ==> x.doc_id == self.last_doc_id_spec(),
            self.never_yields() ==> r is None,
    ;

    /// Moves to the next document and returns it, or `None` at the end.
    fn read(&mut self) -> (r: Result<Option<IndexResult>, RQEIteratorError>)
        requires
            old(self).inv(),
        ensures
            final(self).inv(),
            r matches Ok(Some(x)) ==> {
                &&& x.doc_id > old(self).last_doc_id_spec()
                &&& old(self).yields(x.doc_id)
                &&& forall|i: u64|
                    old(self).yields(i) && i > old(self).last_doc_id_spec() ==> i >= x.doc_id
                &&& final(self).last_doc_id_spec() == x.doc_id
                &&& final(self).current_spec() == Some(x)
            },
            r matches Ok(None) ==> {
                &&& final(self).at_eof_spec()
                &&& final(self).last_doc_id_spec() == old(self).last_doc_id_spec()
                &&& forall|i: u64| old(self).yields(i) ==> i <= old(self).last_doc_id_spec()
            },
            forall|i: u64| #[trigger] final(self).yields(i) == old(self).yields(i),
            final(self).last_doc_id_spec() == 0 || final(self).yields(final(self).last_doc_id_spec()),
            final(self).last_doc_id_spec() > 0 ==> final(self).current_spec() is Some,
            final(self).never_yields() ==> final(self).last_doc_id_spec() == 0,
            final(self).current_spec() matches Some(y) ==> y.doc_id == final(self).last_doc_id_spec(),
            old(self).never_yields() ==> r == Ok::<Option<IndexResult>, RQEIteratorError>(None)
                && final(self).never_yields(),
            old(self).never_fails() ==> r is Ok && final(self).never_fails(),
            final(self).revalidate_reply() == old(self).revalidate_reply(),
    ;

    /// Moves to the first document at or after `doc_id`.
    fn skip_to(&mut self, doc_id: u64) -> (r: Result<Option<SkipToOutcome>, RQEIteratorError>)
        requires
            old(self).inv(),
            doc_id > old(self).last_doc_id_spec(),
        ensures
            final(self).inv(),
            r matches Ok(Some(SkipToOutcome::Found(x))) ==> {
                &&& x.doc_id == doc_id
                &&& old(self).yields(doc_id)
                &&& final(self).last_doc_id_spec() == doc_id
                &&& final(self).current_spec() == Some(x)
            },
            r matches Ok(Some(SkipToOutcome::NotFound(x))) ==> {
                &&& x.doc_id > doc_id
                &&& old(self).yields(x.doc_id)
                &&& forall|i: u64| old(self).yields(i) && i >= doc_id ==> i >= x.doc_id
                &&& final(self).last_doc_id_spec() == x.doc_id
                &&& final(self).current_spec() == Some(x)
            },
            r matches Ok(None) ==> {
                &&& final(self).at_eof_spec()
                &&& final(self).last_doc_id_spec() < doc_id
                &&& forall|i: u64| old(self).yields(i) ==> i <= final(self).last_doc_id_spec()
            },
            forall|i: u64| #[trigger] final(self).yields(i) == old(self).yields(i),
            final(self).last_doc_id_spec() == 0 || final(self).yields(final(self).last_doc_id_spec()),
            final(self).last_doc_id_spec() > 0 ==> final(self).current_spec() is Some,
            final(self).never_yields() ==> final(self).last_doc_id_spec() == 0,
            final(self).current_spec() matches Some(y) ==> y.doc_id == final(self).last_doc_id_spec(),
            old(self).never_yields() ==> r == Ok::<Option<SkipToOutcome>, RQEIteratorError>(None)
                && final(self).never_yields(),
            old(self).never_fails() ==> r is Ok && final(self).never_fails(),
            final(self).revalidate_reply() == old(self).revalidate_reply(),
    ;

    /// Checks the position against changes of the index.
    fn revalidate(&mut self) -> (r: Result<RQEValidateStatus, RQEIteratorError>)
        requires
            old(self).inv(),
        ensures
            final(self).inv(),
            old(self).never_yields() ==> final(self).never_yields(),
            old(self).never_fails() ==> r is Ok && final(self).never_fails(),
            final(self).revalidate_reply() == old(self).revalidate_reply(),
            old(self).revalidate_reply() matches Some(k) ==> r matches Ok(s) && kind_of(s) == k,
            final(self).last_doc_id_spec() == 0 || final(self).yields(final(self).last_doc_id_spec()),
            final(self).last_doc_id_spec() > 0 ==> final(self).current_spec() is Some,
            final(self).never_yields() ==> final(self).last_doc_id_spec() == 0,
            final(self).current_spec() matches Some(y) ==> y.doc_id == final(self).last_doc_id_spec(),
            r matches Ok(RQEValidateStatus::Valid) ==> {
                &&& final(self).last_doc_id_spec() == old(self).last_doc_id_spec()
                &&& forall|i: u64| #[trigger] final(self).yields(i) == old(self).yields(i)
            },
    ;

    /// Goes back to the state before the first read.
    fn rewind(&mut self)
        requires
            old(self).inv(),
        ensures
            final(self).inv(),
            final(self).last_doc_id_spec() == 0,
            final(self).current_spec() matches Some(y) ==> y.doc_id == final(self).last_doc_id_spec(),
            forall|i: u64| #[trigger] final(self).yields(i) == old(self).yields(i),
            old(self).never_yields() ==> final(self).never_yields(),
            old(self).never_fails() ==> final(self).never_fails(),
            final(self).revalidate_reply() == old(self).revalidate_reply(),
    ;

    /// An upper bound on the number of documents left.
    fn num_estimated(&self) -> usize
        requires
            self.inv(),
    ;

    /// The last position returned, `0` before the first.
    fn last_doc_id(&self) -> (r: u64)
        requires
            self.inv(),
        ensures
            r == self.last_doc_id_spec(),
    ;

    /// Whether no document is left.
    fn at_eof(&self) -> (r: bool)
        requires
            self.inv(),
        ensures
            r == self.at_eof_spec(),
    ;
}

} // verus!
