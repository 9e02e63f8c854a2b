use vstd::prelude::*;
use crate::iterator::{
    IndexResult, RQEIterator, RQEIteratorError, RQEValidateStatus, ResultKind, SkipToOutcome,
    positioned, ValidateKind, RS_FIELDMASK_ALL,
};

verus! {

/// A cursor with no document at all.
#[derive(Clone, Copy, Debug, PartialEq, Eq, Structural)]
pub struct Empty {}

impl Default for Empty {
    fn default() -> (r: Empty)
        ensures
            r.never_yields(),
            positioned(r),
    {
        Empty {}
    }
}

impl RQEIterator for Empty {
    open spec fn inv(&self) -> bool {
        true
    }

    open spec fn yields(&self, id: u64) -> bool {
        false
    }

    open spec fn never_fails(&self) -> bool {
        true
    }

    open spec fn revalidate_reply(&self) -> Option<ValidateKind> {
        Some(ValidateKind::Valid)
    }

    open spec fn last_doc_id_spec(&self) -> u64 {
        0
    }

    open spec fn current_spec(&self) -> Option<IndexResult> {
        None
    }

    open spec fn at_eof_spec(&self) -> bool {
        true
    }

    open spec fn never_yields(&self) -> bool {
        true
    }


    fn current(&self) -> (r: Option<IndexResult>) {
        None
    }

    fn read(&mut self) -> (r: Result<Option<IndexResult>, RQEIteratorError>) {
        Ok(None)
    }

    fn skip_to(&mut self, doc_id: u64) -> (r: Result<Option<SkipToOutcome>, RQEIteratorError>) {
        Ok(None)
    }

    fn revalidate(&mut self) -> (r: Result<RQEValidateStatus, RQEIteratorError>) {
        Ok(RQEValidateStatus::Valid)
    }

    fn rewind(&mut self) {
    }

    fn num_estimated(&self) -> usize {
        0
    }

    fn last_doc_id(&self) -> (r: u64) {
        0
    }

    fn at_eof(&self) -> (r: bool) {
        true
    }
}

/// The bit pattern of the weight `1.0`, carried by the results of an [`IdListIterator`].
pub const UNIT_WEIGHT: u64 = 0x3ff0_0000_0000_0000;

/// What an [`IdListIterator`] answers to `revalidate`.
#[derive(Clone, Copy, Debug, PartialEq, Eq, Structural)]
pub enum RevalidateMode {
    /// The position is kept.
    Keep,
    /// The cursor moves one document ahead.
    Move,
    /// The cursor reports that it can no longer be used.
    Abort,
}

/// The reply that a revalidation in `mode` gives.
pub open spec fn reply_of(mode: RevalidateMode) -> ValidateKind {
    match mode {
        RevalidateMode::Keep => ValidateKind::Valid,
        RevalidateMode::Move => ValidateKind::Moved,
        RevalidateMode::Abort => ValidateKind::Aborted,
    }
}

/// Strictly ascending ids, none of them `0`.
pub open spec fn ascending_ids(ids: Seq<u64>) -> bool {
    &&& forall|i: int| 0 <= i < ids.len() ==> ids[i] > 0
    &&& forall|i: int, j: int| 0 <= i < j < ids.len() ==> ids[i] < ids[j]
}

/// The result an [`IdListIterator`] holds at `doc_id`.
pub open spec fn listed_at(doc_id: u64) -> IndexResult {
    IndexResult { doc_id, weight: UNIT_WEIGHT, freq: 1, field_mask: RS_FIELDMASK_ALL, kind: ResultKind::Real }
}

/// A leaf cursor over a fixed, strictly ascending list of document ids.
#[derive(Clone, Debug)]
pub struct IdListIterator {
    ids: Vec<u64>,
    next: usize,
    last: u64,
    mode: RevalidateMode,
    revalidations: u64,
}

impl IdListIterator {
    pub closed spec fn ids_spec(&self) -> Seq<u64> {
        self.ids@
    }

    pub closed spec fn revalidations_spec(&self) -> u64 {
        self.revalidations
    }

    pub closed spec fn mode_spec(&self) -> RevalidateMode {
        self.mode
    }

    fn make(doc_id: u64) -> (r: IndexResult)
        ensures
            r == listed_at(doc_id),
    {
        IndexResult { doc_id, weight: UNIT_WEIGHT, freq: 1, field_mask: RS_FIELDMASK_ALL, kind: ResultKind::Real }
    }

    /// A cursor over `ids`, before its first read; `None` unless the ids are
    /// strictly ascending and nonzero.
    pub fn new(ids: Vec<u64>, mode: RevalidateMode) -> (r: Option<IdListIterator>)
        ensures
            r is Some <==> ascending_ids(ids@),
            r matches Some(it) ==> {
                &&& it.inv()
                &&& positioned(it)
                &&& it.ids_spec() == ids@
                &&& it.last_doc_id_spec() == 0
                &&& it.revalidations_spec() == 0
                &&& it.mode_spec() == mode
                &&& (it.never_yields() <==> ids@.len() == 0)
                &&& it.revalidate_reply() == Some(reply_of(mode))
                &&& it.never_fails()
                &&& forall|i: u64| #[trigger] it.yields(i) <==> ids@.contains(i)
            },
    {
        let n = ids.len();
        let mut i: usize = 0;
        while i < n
            invariant
                n == ids@.len(),
                i <= n,
                forall|k: int| 0 <= k < i ==> ids@[k] > 0,
                forall|k: int, l: int| 0 <= k < l < i ==> ids@[k] < ids@[l],
            decreases n - i,
        {
            if ids[i] == 0 || (i > 0 && ids[i - 1] >= ids[i]) {
                return None;
            }
            i += 1;
        }
        Some(IdListIterator { ids, next: 0, last: 0, mode, revalidations: 0 })
    }

    proof fn lemma_ids_around_next(&self)
        requires
            self.inv(),
        ensures
            forall|i: u64| self.ids@.contains(i) && i > self.last ==> exists|j: int|
                self.next <= j < self.ids@.len() && self.ids@[j] == i,
            forall|j: int| self.next <= j < self.ids@.len() ==> self.ids@[j] > self.last,
            forall|j: int, k: int| 0 <= j <= k < self.ids@.len() ==> self.ids@[j] <= self.ids@[k],
    {
        assert forall|j: int, k: int| 0 <= j <= k < self.ids@.len() implies self.ids@[j]
            <= self.ids@[k] by {
            if j < k {
                assert(self.ids@[j] < self.ids@[k]);
            }
        }
        assert forall|i: u64| self.ids@.contains(i) && i > self.last implies exists|j: int|
            self.next <= j < self.ids@.len() && self.ids@[j] == i by {
            let j = choose|j: int| 0 <= j < self.ids@.len() && self.ids@[j] == i;
            if j < self.next {
                assert(self.ids@[j] <= self.ids@[self.next - 1]);
            }
        }
    }

    /// How many times `revalidate` was called.
    pub fn revalidate_count(&self) -> (r: u64)
        ensures
            r == self.revalidations_spec(),
    {
        self.revalidations
    }

    fn advance(&mut self) -> (r: Option<IndexResult>)
        requires
            old(self).inv(),
        ensures
            final(self).inv(),
            final(self).ids == old(self).ids,
            final(self).mode == old(self).mode,
            final(self).revalidations == old(self).revalidations,
            r matches Some(x) ==> {
                &&& x.doc_id > old(self).last_doc_id_spec()
                &&& final(self).last_doc_id_spec() == x.doc_id
                &&& final(self).current_spec() == Some(x)
            },
            r is None ==> final(self).at_eof_spec() && *final(self) == *old(self),
            r matches Some(x) ==> {
                &&& old(self).yields(x.doc_id)
                &&& forall|i: u64|
                    old(self).yields(i) && i > old(self).last_doc_id_spec() ==> i >= x.doc_id
            },
            r is None ==> forall|i: u64| old(self).yields(i) ==> i <= old(self).last_doc_id_spec(),
    {
        proof {
            self.lemma_ids_around_next();
        }
        if self.next < self.ids.len() {
            let id = self.ids[self.next];
            assert(self.ids@.contains(self.ids@[self.next as int]));
            self.next = self.next + 1;
            self.last = id;
            Some(Self::make(id))
        } else {
            None
        }
    }
}

impl RQEIterator for IdListIterator {
    closed spec fn inv(&self) -> bool {
        &&& ascending_ids(self.ids@)
        &&& self.next <= self.ids@.len()
        &&& self.last == (if self.next == 0 { 0 } else { self.ids@[self.next - 1] })
    }

    closed spec fn last_doc_id_spec(&self) -> u64 {
        self.last
    }

    closed spec fn current_spec(&self) -> Option<IndexResult> {
        if self.next == 0 {
            None
        } else {
            Some(listed_at(self.last))
        }
    }

    closed spec fn at_eof_spec(&self) -> bool {
        self.next >= self.ids@.len()
    }

    closed spec fn never_yields(&self) -> bool {
        self.ids@.len() == 0
    }

    closed spec fn yields(&self, id: u64) -> bool {
        self.ids@.contains(id)
    }

    closed spec fn never_fails(&self) -> bool {
        true
    }

    closed spec fn revalidate_reply(&self) -> Option<ValidateKind> {
        Some(reply_of(self.mode))
    }

    fn current(&self) -> (r: Option<IndexResult>) {
        if self.next == 0 {
            None
        } else {
            Some(Self::make(self.last))
        }
    }

    fn read(&mut self) -> (r: Result<Option<IndexResult>, RQEIteratorError>) {
        Ok(self.advance())
    }

    fn skip_to(&mut self, doc_id: u64) -> (r: Result<Option<SkipToOutcome>, RQEIteratorError>) {
        proof {
            self.lemma_ids_around_next();
        }
        let n = self.ids.len();
        let mut i: usize = self.next;
        while i < n && self.ids[i] < doc_id
            invariant
                n == self.ids@.len(),
                self.next <= i <= n,
                forall|j: int| self.next <= j < i ==> self.ids@[j] < doc_id,
            decreases n - i,
        {
            i += 1;
        }
        proof {
            assert forall|v: u64| self.ids@.contains(v) && v >= doc_id implies exists|j: int|
                i <= j < n && self.ids@[j] == v by {
                assert(v > self.last);
            }
        }
        if i == n {
            proof {
                if n > 0 {
                    assert(self.ids@.contains(self.ids@[n - 1]));
                }
                assert forall|v: u64| self.ids@.contains(v) implies v <= (if n > 0 {
                    self.ids@[n - 1]
                } else {
                    0
                }) by {
                    let j = choose|j: int| 0 <= j < n && self.ids@[j] == v;
                }
            }
            self.next = n;
            if n > 0 {
                self.last = self.ids[n - 1];
            }
            return Ok(None);
        }
        let id = self.ids[i];
        assert(self.ids@.contains(self.ids@[i as int]));
        proof {
            if self.next > 0 {
                assert(self.ids@[self.next - 1] < self.ids@[i as int]);
            }
        }
        self.next = i + 1;
        self.last = id;
        if id == doc_id {
            Ok(Some(SkipToOutcome::Found(Self::make(id))))
        } else {
            Ok(Some(SkipToOutcome::NotFound(Self::make(id))))
        }
    }

    fn revalidate(&mut self) -> (r: Result<RQEValidateStatus, RQEIteratorError>) {
        if self.revalidations < u64::MAX {
            self.revalidations = self.revalidations + 1;
        }
        match self.mode {
            RevalidateMode::Keep => Ok(RQEValidateStatus::Valid),
            RevalidateMode::Abort => Ok(RQEValidateStatus::Aborted),
            RevalidateMode::Move => {
                let moved = self.advance();
                match moved {
                    Some(x) => Ok(RQEValidateStatus::Moved { current: Some(x) }),
                    None => Ok(RQEValidateStatus::Moved { current: self.current() }),
                }
            },
        }
    }

    fn rewind(&mut self) {
        self.next = 0;
        self.last = 0;
    }

    fn num_estimated(&self) -> usize {
        self.ids.len()
    }

    fn last_doc_id(&self) -> (r: u64) {
        self.last
    }

    fn at_eof(&self) -> (r: bool) {
        self.next >= self.ids.len()
    }
}

} // verus!
