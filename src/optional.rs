use vstd::prelude::*;
use crate::iterator::{
    kind_of, positioned, virtual_at, with_weight, IndexResult, RQEIterator, RQEIteratorError,
    RQEValidateStatus, SkipToOutcome, ValidateKind,
};

verus! {

/// The id of an optional result, if there is one.
pub open spec fn doc_id_of(o: Option<IndexResult>) -> Option<u64> {
    match o {
        Some(x) => Some(x.doc_id),
        None => None,
    }
}

/// How one `read` moves an optional cursor bounded by `max`: from a position before
/// the bound, exactly one step ahead, returning that id; at the bound, nowhere, returning
/// nothing.
pub open spec fn read_moves(max: u64, pre: u64, post: u64, out: Option<u64>) -> bool {
    if pre >= max {
        post == pre && out is None
    } else {
        post == pre + 1 && out == Some(post)
    }
}

/// What to do with the child after it answered a revalidation.
#[derive(Clone, Copy, Debug, PartialEq, Eq, Structural)]
pub struct RevalidateStep {
    /// Whether the child stays; an aborted child is dropped for good.
    pub keep_child: bool,
    /// Whether the position must be read again and reported as moved.
    pub reread: bool,
}

/// Decides, from the child's reply and from whether the position held the child's result,
/// what a revalidation does: an aborted child is dropped, and the position is read again
/// exactly where it held the child's result and the child did not stay valid.
pub fn revalidate_step(reply: RQEValidateStatus, position_real: bool) -> (r: RevalidateStep)
    ensures
        r.keep_child == (kind_of(reply) != ValidateKind::Aborted),
        r.reread == (position_real && kind_of(reply) != ValidateKind::Valid),
{
    match reply {
        RQEValidateStatus::Valid => RevalidateStep { keep_child: true, reread: false },
        RQEValidateStatus::Moved { .. } => RevalidateStep { keep_child: true, reread: position_real },
        RQEValidateStatus::Aborted => RevalidateStep { keep_child: false, reread: position_real },
    }
}

/// A cursor that widens its child to every id in `1..=max_doc_id`: ids that the child
/// produces come back as the child's results with `weight` applied, every other id as a
/// virtual placeholder. Successive reads return 1, 2, ... with no gap.
pub struct Optional<I> {
    max_doc_id: u64,
    weight: u64,
    result: IndexResult,
    child: Option<I>,
    child_result_shelved: Option<u64>,
}

impl<I: RQEIterator> Optional<I> {
    /// Inclusive upper bound of the ids covered.
    pub closed spec fn max_doc_id_spec(&self) -> u64 {
        self.max_doc_id
    }

    /// The weight given to the child's results.
    pub closed spec fn weight_spec(&self) -> u64 {
        self.weight
    }

    /// The last position handed out, `0` before the first.
    pub closed spec fn position(&self) -> u64 {
        self.result.doc_id
    }

    /// The wrapped child; `None` once it has aborted.
    pub closed spec fn child_spec(&self) -> Option<I> {
        self.child
    }

    /// The id of a child result that was read ahead of the position, if any.
    pub closed spec fn shelved_spec(&self) -> Option<u64> {
        self.child_result_shelved
    }

    /// The placeholder record sits at the position, which never passes the bound, and the
    /// child keeps the cursor protocol.
    pub closed spec fn wf(&self) -> bool {
        &&& self.result == virtual_at(self.result.doc_id)
        &&& self.result.doc_id <= self.max_doc_id
        &&& (self.child matches Some(c) ==> positioned(c))
    }

    /// No real result can come from the child: it is gone, or has no document.
    pub open spec fn child_silent(&self) -> bool {
        match self.child_spec() {
            None => true,
            Some(c) => c.never_yields(),
        }
    }

    /// The child is gone or never returns an error.
    pub open spec fn child_never_fails(&self) -> bool {
        match self.child_spec() {
            None => true,
            Some(c) => c.never_fails(),
        }
    }

    /// The child is there and the kind of its revalidation reply is known to be `k`.
    pub open spec fn child_replies(&self, k: ValidateKind) -> bool {
        self.child_spec() matches Some(c) && c.revalidate_reply() == Some(k)
    }

    /// The position has reached the bound: nothing more comes until a rewind.
    pub open spec fn at_eof_view(&self) -> bool {
        self.position() >= self.max_doc_id_spec()
    }

    /// The position holds the child's result: the child stands there and holds one.
    pub open spec fn real_at_position(&self) -> bool {
        self.child_spec() matches Some(c) && c.last_doc_id_spec() == self.position()
            && c.current_spec() is Some
    }

    /// What `current` returns: the child's result with the weight applied where the
    /// position holds it, the placeholder otherwise.
    pub open spec fn current_view(&self) -> IndexResult {
        if self.real_at_position() {
            with_weight(self.child_spec().unwrap().current_spec().unwrap(), self.weight_spec())
        } else {
            virtual_at(self.position())
        }
    }

    /// The child has not passed, unseen, any of its ids after the position: where it stands
    /// at or before the position, its next id lies past the position; where it stands ahead,
    /// it has no id between the position and where it stands. Always so at the bound.
    pub open spec fn in_step(&self) -> bool {
        ||| self.at_eof_view()
        ||| match self.child_spec() {
            None => true,
            Some(c) => if c.last_doc_id_spec() <= self.position() {
                forall|i: u64| #[trigger] c.yields(i) && i > c.last_doc_id_spec() ==> i > self.position()
            } else {
                forall|i: u64| #[trigger] c.yields(i) && i > self.position() ==> i >= c.last_doc_id_spec()
            },
        }
    }

    /// Same bound and weight, and a child that stays gone, silent or infallible, and keeps
    /// its ids and its reply; what `read`, `skip_to` and `rewind` keep.
    pub open spec fn keeps_frame(&self, pre: &Self) -> bool {
        &&& self.max_doc_id_spec() == pre.max_doc_id_spec()
        &&& self.weight_spec() == pre.weight_spec()
        &&& (self.child_spec() is Some <==> pre.child_spec() is Some)
        &&& (pre.child_silent() ==> self.child_silent())
        &&& (pre.child_never_fails() ==> self.child_never_fails())
        &&& (self.child_spec() matches Some(c) ==> pre.child_spec() matches Some(d) && (
        forall|i: u64| #[trigger] c.yields(i) == d.yields(i)) && c.revalidate_reply()
            == d.revalidate_reply())
    }

    /// One successful `skip_to(t)` within the bound, as far as whether hits are real goes:
    /// the frame is kept, the cursor stands on `t`, stays in step, and holds the child's
    /// result there exactly when the child has `t`.
    pub open spec fn skip_step(pre: Self, post: Self, t: u64) -> bool {
        &&& post.keeps_frame(&pre)
        &&& post.position() == t
        &&& (pre.in_step() ==> post.in_step())
        &&& (pre.in_step() ==> (post.real_at_position() <==> (pre.child_spec() matches Some(c)
            && c.yields(t))))
    }

    /// A cursor over `1..=max_id` around `child`, before its first read.
    pub fn new(max_id: u64, weight: u64, child: I) -> (r: Optional<I>)
        requires
            positioned(child),
        ensures
            r.wf(),
            r.child_spec() matches Some(c) ==> positioned(c),
            child.last_doc_id_spec() == 0 ==> r.in_step(),
            r.max_doc_id_spec() == max_id,
            r.weight_spec() == weight,
            r.position() == 0,
            r.child_spec() == Some(child),
            r.shelved_spec() is None,
    {
        Optional {
            max_doc_id: max_id,
            weight,
            result: IndexResult::virt(0),
            child: Some(child),
            child_result_shelved: None,
        }
    }

    /// The wrapped child, while it has not aborted.
    pub fn child(&self) -> (r: Option<&I>)
        ensures
            match r {
                Some(c) => self.child_spec() == Some(*c),
                None => self.child_spec() is None,
            },
    {
        match &self.child {
            Some(c) => Some(c),
            None => None,
        }
    }

    pub fn current(&self) -> (r: Option<IndexResult>)
        requires
            self.wf(),
        ensures
            r == Some(self.current_view()),
            self.current_view().doc_id == self.position(),
    {
        match &self.child {
            Some(c) => {
                if c.last_doc_id() == self.result.doc_id {
                    match c.current() {
                        Some(y) => {
                            return Some(IndexResult { weight: self.weight, ..y });
                        },
                        None => {},
                    }
                }
                Some(self.result)
            },
            None => Some(self.result),
        }
    }

    pub fn last_doc_id(&self) -> (r: u64)
        ensures
            r == self.position(),
    {
        self.result.doc_id
    }

    pub fn at_eof(&self) -> (r: bool)
        ensures
            r == self.at_eof_view(),
    {
        self.result.doc_id >= self.max_doc_id
    }

    /// Every id in range is a hit, so the estimate is the bound itself.
    pub fn num_estimated(&self) -> (r: usize)
        ensures
            r == self.max_doc_id_spec() as usize,
    {
        self.max_doc_id as usize
    }

    /// Advances by exactly one id and returns the result there, or `None` at the bound.
    ///
    /// Where the child stands on the next id, its result is taken; where it stands further
    /// ahead, the step is a placeholder and the child is left alone; otherwise the child is
    /// read, and a result that lands further ahead is shelved and the step is a placeholder.
    /// Errors come only from that read.
    pub fn read(&mut self) -> (r: Result<Option<IndexResult>, RQEIteratorError>)
        requires
            old(self).wf(),
        ensures
            final(self).wf(),
            final(self).child_spec() matches Some(c) ==> positioned(c),
            final(self).keeps_frame(old(self)),
            old(self).at_eof_view() ==> r == Ok::<Option<IndexResult>, RQEIteratorError>(None)
                && *final(self) == *old(self),
            r matches Ok(o) ==> read_moves(
                old(self).max_doc_id_spec(),
                old(self).position(),
                final(self).position(),
                doc_id_of(o),
            ),
            r matches Ok(Some(x)) ==> x == final(self).current_view(),
            final(self).current_view().doc_id == final(self).position(),
            old(self).child_never_fails() ==> r is Ok,
            old(self).child_spec() matches Some(c) && c.last_doc_id_spec() > old(self).position()
                ==> r is Ok,
            r is Err ==> {
                &&& old(self).child_spec() is Some
                &&& final(self).child_spec() is Some
                &&& final(self).position() == old(self).position()
            },
            old(self).child_spec() matches Some(c) && c.last_doc_id_spec() > old(self).position()
                ==> final(self).child_spec() == old(self).child_spec(),
            r is Ok && (old(self).child_spec() matches Some(c) && c.last_doc_id_spec()
                <= old(self).position()) ==> (final(self).child_spec() is Some && final(
                self).child_spec().unwrap().last_doc_id_spec() > final(self).position()
                ==> final(self).shelved_spec() == Some(final(self).child_spec().unwrap().last_doc_id_spec())),
            old(self).child_silent() ==> (r matches Ok(Some(x)) ==> x == virtual_at(x.doc_id)),
            old(self).in_step() && r is Ok ==> final(self).in_step(),
            old(self).in_step() && !old(self).at_eof_view() && r is Ok && final(self).child_spec() is Some ==> final(
                self).child_spec().unwrap().last_doc_id_spec() >= final(self).position() || final(
                self).child_spec().unwrap().at_eof_spec(),
            old(self).in_step() && !old(self).at_eof_view() && r is Ok ==> (
            final(self).real_at_position() <==> (old(self).child_spec() matches Some(c)
                && c.yields(final(self).position()))),
    {
        if self.at_eof() {
            return Ok(None);
        }
        let pos = self.result.doc_id;
        let next = pos + 1;
        match self.child_result_shelved {
            Some(at_doc_id) => {
                if at_doc_id <= next {
                    self.child_result_shelved = None;
                }
            },
            None => {},
        }
        let mut from_child: Option<IndexResult> = None;
        let taken = self.child.take();
        match taken {
            Some(mut child) => {
                let last = child.last_doc_id();
                if last == next {
                    from_child = child.current();
                } else if last < next {
                    match child.read() {
                        Ok(o) => {
                            from_child = o;
                        },
                        Err(e) => {
                            self.child = Some(child);
                            return Err(e);
                        },
                    }
                    proof {
                        if self.in_step() {
                            assert(forall|i: u64| #[trigger] child.yields(i) ==> old(self).child_spec().unwrap().yields(i));
                        }
                    }
                }
                self.child = Some(child);
            },
            None => {},
        }
        self.result.doc_id = next;
        match from_child {
            Some(x) => {
                if x.doc_id == next {
                    return Ok(Some(IndexResult { weight: self.weight, ..x }));
                }
                if x.doc_id > next {
                    self.child_result_shelved = Some(x.doc_id);
                }
                Ok(Some(self.result))
            },
            None => Ok(Some(self.result)),
        }
    }

    /// Moves to `doc_id` and returns the child's result there when the child has one, the
    /// placeholder otherwise; past the bound, or at it, stops at the bound and returns
    /// `None`. The child is asked to skip to `doc_id` only when it stands before it.
    pub fn skip_to(&mut self, doc_id: u64) -> (r: Result<Option<SkipToOutcome>, RQEIteratorError>)
        requires
            old(self).wf(),
            doc_id > old(self).position(),
        ensures
            final(self).wf(),
            final(self).child_spec() matches Some(c) ==> positioned(c),
            final(self).keeps_frame(old(self)),
            final(self).shelved_spec() == old(self).shelved_spec(),
            doc_id > old(self).max_doc_id_spec() || old(self).at_eof_view() ==> {
                &&& r == Ok::<Option<SkipToOutcome>, RQEIteratorError>(None)
                &&& final(self).position() == old(self).max_doc_id_spec()
                &&& final(self).child_spec() == old(self).child_spec()
            },
            old(self).at_eof_view() ==> *final(self) == *old(self),
            doc_id <= old(self).max_doc_id_spec() && !old(self).at_eof_view() && r is Ok ==> {
                &&& r == Ok::<Option<SkipToOutcome>, RQEIteratorError>(
                    Some(SkipToOutcome::Found(final(self).current_view())),
                )
                &&& final(self).position() == doc_id
                &&& final(self).current_view().doc_id == doc_id
                &&& (final(self).child_spec() matches Some(c) ==> c.last_doc_id_spec() >= doc_id
                    || c.at_eof_spec())
            },
            old(self).child_never_fails() ==> r is Ok,
            r is Err ==> {
                &&& old(self).child_spec() is Some
                &&& final(self).child_spec() is Some
                &&& final(self).position() == old(self).position()
            },
            old(self).child_spec() matches Some(c) && c.last_doc_id_spec() >= doc_id
                ==> final(self).child_spec() == old(self).child_spec() && r is Ok,
            old(self).child_silent() ==> (r matches Ok(Some(SkipToOutcome::Found(x))) ==> x
                == virtual_at(doc_id)),
            old(self).in_step() && r is Ok ==> final(self).in_step(),
            old(self).in_step() && doc_id <= old(self).max_doc_id_spec() && !old(self).at_eof_view()
                && r is Ok ==> (final(self).real_at_position() <==> (old(self).child_spec() matches Some(c)
                && c.yields(doc_id))),
            doc_id <= old(self).max_doc_id_spec() && !old(self).at_eof_view() && r is Ok
                ==> Self::skip_step(*old(self), *final(self), doc_id),
    {
        if doc_id > self.max_doc_id || self.at_eof() {
            self.result.doc_id = self.max_doc_id;
            return Ok(None);
        }
        let taken = self.child.take();
        match taken {
            Some(mut child) => {
                let last = child.last_doc_id();
                if last < doc_id {
                    match child.skip_to(doc_id) {
                        Err(e) => {
                            self.child = Some(child);
                            return Err(e);
                        },
                        Ok(_) => {},
                    }
                    proof {
                        assert(forall|i: u64| #[trigger] child.yields(i) ==> old(self).child_spec().unwrap().yields(i));
                    }
                }
                self.child = Some(child);
            },
            None => {},
        }
        self.result.doc_id = doc_id;
        Ok(Some(SkipToOutcome::Found(self.current_result())))
    }

    /// The result at the position: the child's, weighted, where the position holds it.
    fn current_result(&self) -> (r: IndexResult)
        requires
            self.wf(),
        ensures
            r == self.current_view(),
    {
        match self.current() {
            Some(x) => x,
            None => self.result,
        }
    }

    /// Revalidates the child and acts on its reply as `revalidate_step` decides: an
    /// aborted child is dropped for good, and a position that held the child's result is
    /// read again and reported as `Moved` unless the child stayed valid.
    pub fn revalidate(&mut self) -> (r: Result<RQEValidateStatus, RQEIteratorError>)
        requires
            old(self).wf(),
        ensures
            final(self).wf(),
            final(self).child_spec() matches Some(c) ==> positioned(c),
            final(self).max_doc_id_spec() == old(self).max_doc_id_spec(),
            final(self).weight_spec() == old(self).weight_spec(),
            old(self).child_spec() is None ==> r == Ok::<RQEValidateStatus, RQEIteratorError>(
                RQEValidateStatus::Valid,
            ) && *final(self) == *old(self),
            old(self).child_spec() is None ==> final(self).child_spec() is None,
            final(self).child_spec() is Some ==> old(self).child_spec() is Some,
            old(self).child_silent() ==> final(self).child_silent(),
            old(self).child_never_fails() ==> r is Ok && final(self).child_never_fails(),
            !(r matches Ok(RQEValidateStatus::Aborted)),
            old(self).at_eof_view() ==> final(self).at_eof_view() && final(self).position()
                == old(self).position(),
            r is Err ==> {
                &&& final(self).child_spec() is Some
                &&& final(self).position() == old(self).position()
            },
            r matches Ok(RQEValidateStatus::Valid) ==> final(self).position() == old(self).position(),
            r matches Ok(RQEValidateStatus::Moved { current }) ==> {
                &&& read_moves(
                    old(self).max_doc_id_spec(),
                    old(self).position(),
                    final(self).position(),
                    doc_id_of(current),
                )
                &&& (current matches Some(x) ==> x == final(self).current_view())
            },
            old(self).child_spec() matches Some(c) && c.last_doc_id_spec() != old(self).position()
                && r is Ok ==> r == Ok::<RQEValidateStatus, RQEIteratorError>(RQEValidateStatus::Valid),
            old(self).child_spec() matches Some(c) && c.last_doc_id_spec() == old(self).position()
                && r is Ok && (old(self).child_replies(ValidateKind::Moved) || old(self).child_replies(
                ValidateKind::Aborted)) ==> r matches Ok(
                RQEValidateStatus::Moved { .. },
            ),
            old(self).child_spec() matches Some(c) && c.revalidate_reply() is Some
                && c.last_doc_id_spec() != old(self).position() ==> r == Ok::<
                RQEValidateStatus,
                RQEIteratorError,
            >(RQEValidateStatus::Valid) && final(self).position() == old(self).position(),
            old(self).child_spec() is Some && final(self).child_spec() is None ==> {
                &&& r is Ok
                &&& (old(self).child_spec().unwrap().last_doc_id_spec() != old(self).position()
                    ==> r == Ok::<RQEValidateStatus, RQEIteratorError>(RQEValidateStatus::Valid)
                    && final(self).position() == old(self).position())
                &&& (old(self).child_spec().unwrap().last_doc_id_spec() == old(self).position()
                    ==> r == Ok::<RQEValidateStatus, RQEIteratorError>(
                    RQEValidateStatus::Moved {
                        current: if old(self).at_eof_view() {
                            None
                        } else {
                            Some(virtual_at((old(self).position() + 1) as u64))
                        },
                    },
                ))
            },
            old(self).child_replies(ValidateKind::Valid) ==> {
                &&& r == Ok::<RQEValidateStatus, RQEIteratorError>(RQEValidateStatus::Valid)
                &&& final(self).child_replies(ValidateKind::Valid)
                &&& final(self).position() == old(self).position()
                &&& final(self).child_spec().unwrap().last_doc_id_spec() == old(self).child_spec().unwrap().last_doc_id_spec()
                &&& forall|i: u64| #[trigger] final(self).child_spec().unwrap().yields(i)
                    == old(self).child_spec().unwrap().yields(i)
                &&& (old(self).in_step() ==> final(self).in_step())
            },
            old(self).child_replies(ValidateKind::Moved) && r is Ok ==> final(self).child_replies(
                ValidateKind::Moved,
            ),
            old(self).child_replies(ValidateKind::Aborted) ==> {
                &&& final(self).child_spec() is None
                &&& r is Ok
                &&& (old(self).child_spec().unwrap().last_doc_id_spec() == old(self).position()
                    ==> r == Ok::<RQEValidateStatus, RQEIteratorError>(
                    RQEValidateStatus::Moved {
                        current: if old(self).at_eof_view() {
                            None
                        } else {
                            Some(virtual_at((old(self).position() + 1) as u64))
                        },
                    },
                ))
            },
    {
        let taken = self.child.take();
        let mut child = match taken {
            None => {
                return Ok(RQEValidateStatus::Valid);
            },
            Some(c) => c,
        };
        let last_child_doc_id = child.last_doc_id();
        let reply = match child.revalidate() {
            Ok(s) => s,
            Err(e) => {
                self.child = Some(child);
                return Err(e);
            },
        };
        let step = revalidate_step(reply, last_child_doc_id == self.result.doc_id);
        if step.keep_child {
            proof {
                if kind_of(reply) == ValidateKind::Valid {
                    assert(forall|i: u64| #[trigger] child.yields(i) ==> old(self).child_spec().unwrap().yields(i));
                }
            }
            self.child = Some(child);
        }
        if step.reread {
            match self.read() {
                Ok(current) => Ok(RQEValidateStatus::Moved { current }),
                Err(e) => Err(e),
            }
        } else {
            Ok(RQEValidateStatus::Valid)
        }
    }

    /// Goes back to the state before the first read, and rewinds the child.
    pub fn rewind(&mut self)
        requires
            old(self).wf(),
        ensures
            final(self).wf(),
            final(self).child_spec() matches Some(c) ==> positioned(c),
            final(self).keeps_frame(old(self)),
            final(self).position() == 0,
            final(self).shelved_spec() is None,
            final(self).child_spec() matches Some(c) ==> c.last_doc_id_spec() == 0,
            final(self).in_step(),
            final(self).current_view().doc_id == 0,
    {
        self.result.doc_id = 0;
        self.child_result_shelved = None;
        let taken = self.child.take();
        match taken {
            Some(mut child) => {
                child.rewind();
                self.child = Some(child);
            },
            None => {},
        }
    }
}

/// The wrapped child keeps the cursor protocol: its position is one of its ids, or `0`,
/// and the result it holds sits there.
pub proof fn lemma_child_positioned<I: RQEIterator>(s: Optional<I>)
    requires
        s.wf(),
    ensures
        s.child_spec() matches Some(c) ==> positioned(c),
{
}

/// The position never passes the bound.
pub proof fn lemma_position_within_bound<I: RQEIterator>(s: Optional<I>)
    requires
        s.wf(),
    ensures
        s.position() <= s.max_doc_id_spec(),
{
}

impl<I: RQEIterator> RQEIterator for Optional<I> {
    open spec fn inv(&self) -> bool {
        self.wf()
    }

    open spec fn yields(&self, id: u64) -> bool {
        1 <= id <= self.max_doc_id_spec()
    }

    open spec fn last_doc_id_spec(&self) -> u64 {
        self.position()
    }

    open spec fn current_spec(&self) -> Option<IndexResult> {
        Some(self.current_view())
    }

    open spec fn at_eof_spec(&self) -> bool {
        self.at_eof_view()
    }

    open spec fn never_yields(&self) -> bool {
        false
    }

    open spec fn never_fails(&self) -> bool {
        self.child_never_fails()
    }

    open spec fn revalidate_reply(&self) -> Option<ValidateKind> {
        None
    }

    fn current(&self) -> (r: Option<IndexResult>) {
        Self::current(self)
    }

    fn read(&mut self) -> (r: Result<Option<IndexResult>, RQEIteratorError>) {
        Self::read(self)
    }

    fn skip_to(&mut self, doc_id: u64) -> (r: Result<Option<SkipToOutcome>, RQEIteratorError>) {
        Self::skip_to(self, doc_id)
    }

    fn revalidate(&mut self) -> (r: Result<RQEValidateStatus, RQEIteratorError>) {
        Self::revalidate(self)
    }

    fn rewind(&mut self) {
        Self::rewind(self)
    }

    fn num_estimated(&self) -> usize {
        Self::num_estimated(self)
    }

    fn last_doc_id(&self) -> (r: u64) {
        Self::last_doc_id(self)
    }

    fn at_eof(&self) -> (r: bool) {
        Self::at_eof(self)
    }
}

/// `outs` are the ids returned by a run of reads on a cursor bounded by `max`, started
/// at position 0, and `positions` the position before each read and after the last.
pub open spec fn read_run(max: u64, positions: Seq<u64>, outs: Seq<Option<u64>>) -> bool {
    &&& positions.len() == outs.len() + 1
    &&& positions[0] == 0
    &&& forall|i: int|
        0 <= i < outs.len() ==> read_moves(max, positions[i], positions[i + 1], #[trigger] outs[i])
}

proof fn lemma_run_position(max: u64, positions: Seq<u64>, outs: Seq<Option<u64>>, k: int)
    requires
        read_run(max, positions, outs),
        0 <= k <= outs.len(),
    ensures
        positions[k] == (if k <= max { k } else { max as int }),
    decreases k,
{
    if k > 0 {
        lemma_run_position(max, positions, outs, k - 1);
        assert(read_moves(max, positions[k - 1], positions[k], outs[k - 1]));
    }
}

/// Reads from the start are gap-free and ascending: the `n`-th read returns `n` for every
/// `n` in `1..=max`, every later read returns nothing, and the cursor then stays at the bound.
pub proof fn lemma_reads_gap_free(max: u64, positions: Seq<u64>, outs: Seq<Option<u64>>)
    requires
        read_run(max, positions, outs),
    ensures
        forall|k: int|
            0 <= k < outs.len() ==> #[trigger] outs[k] == (if k < max {
                Some((k + 1) as u64)
            } else {
                None
            }),
        forall|k: int| max <= k < positions.len() ==> #[trigger] positions[k] == max,
{
    assert forall|k: int| 0 <= k < outs.len() implies #[trigger] outs[k] == (if k < max {
        Some((k + 1) as u64)
    } else {
        None
    }) by {
        lemma_run_position(max, positions, outs, k);
        assert(read_moves(max, positions[k], positions[k + 1], outs[k]));
    }
    assert forall|k: int| max <= k < positions.len() implies #[trigger] positions[k] == max by {
        lemma_run_position(max, positions, outs, k);
    }
}

/// After a rewind, a cursor with a nonzero bound is not at its end, and the next read
/// returns id 1.
pub proof fn lemma_rewind_then_read<I: RQEIterator>(
    rewound: Optional<I>,
    after: Optional<I>,
    out: Option<u64>,
)
    requires
        rewound.wf(),
        rewound.position() == 0,
        rewound.max_doc_id_spec() > 0,
        read_moves(rewound.max_doc_id_spec(), rewound.position(), after.position(), out),
    ensures
        !rewound.at_eof_view(),
        out == Some(1u64),
        after.position() == 1,
{
}

/// Without a child, the position holds a placeholder, with weight `0`.
pub proof fn lemma_no_child_only_placeholders<I: RQEIterator>(s: Optional<I>)
    requires
        s.child_spec() is None,
    ensures
        s.current_view() == virtual_at(s.position()),
        s.current_view().weight == 0,
{
}

/// A run of reads whose every result is a placeholder, as it is around a child that has
/// no document or has aborted, returns the placeholders at `1..=max` in order and then
/// nothing else.
pub proof fn lemma_silent_run(max: u64, positions: Seq<u64>, outs: Seq<Option<IndexResult>>)
    requires
        read_run(max, positions, outs.map_values(|o: Option<IndexResult>| doc_id_of(o))),
        forall|i: int|
            0 <= i < outs.len() ==> (#[trigger] outs[i] matches Some(x) ==> x == virtual_at(
                x.doc_id,
            )),
    ensures
        forall|k: int|
            0 <= k < outs.len() ==> #[trigger] outs[k] == (if k < max {
                Some(virtual_at((k + 1) as u64))
            } else {
                None
            }),
{
    let ids = outs.map_values(|o: Option<IndexResult>| doc_id_of(o));
    lemma_reads_gap_free(max, positions, ids);
    assert forall|k: int| 0 <= k < outs.len() implies #[trigger] outs[k] == (if k < max {
        Some(virtual_at((k + 1) as u64))
    } else {
        None
    }) by {
        assert(ids[k] == doc_id_of(outs[k]));
    }
}

proof fn lemma_skip_run_prefix<I: RQEIterator>(
    states: Seq<Optional<I>>,
    targets: Seq<u64>,
    k: int,
)
    requires
        states.len() == targets.len() + 1,
        states[0].in_step(),
        states[0].child_spec() is Some,
        forall|j: int|
            0 <= j < targets.len() ==> Optional::<I>::skip_step(
                #[trigger] states[j],
                states[j + 1],
                targets[j],
            ),
        0 <= k <= targets.len(),
    ensures
        states[k].in_step(),
        states[k].child_spec() is Some,
        forall|i: u64| #[trigger] states[k].child_spec().unwrap().yields(i)
            == states[0].child_spec().unwrap().yields(i),
    decreases k,
{
    if k > 0 {
        lemma_skip_run_prefix(states, targets, k - 1);
        assert(Optional::<I>::skip_step(states[k - 1], states[k], targets[k - 1]));
    }
}

/// In a run of successful skips within the bound from a cursor in step with its child,
/// each target comes back as the child's weighted result exactly when the child has it,
/// and as the placeholder otherwise.
pub proof fn lemma_skip_run<I: RQEIterator>(states: Seq<Optional<I>>, targets: Seq<u64>)
    requires
        states.len() == targets.len() + 1,
        states[0].in_step(),
        states[0].child_spec() is Some,
        forall|j: int|
            0 <= j < targets.len() ==> Optional::<I>::skip_step(
                #[trigger] states[j],
                states[j + 1],
                targets[j],
            ),
    ensures
        forall|k: int|
            0 <= k < targets.len() ==> (#[trigger] states[k + 1].real_at_position() <==> states[0].child_spec().unwrap().yields(
                targets[k],
            )),
{
    assert forall|k: int| 0 <= k < targets.len() implies (#[trigger] states[k
        + 1].real_at_position() <==> states[0].child_spec().unwrap().yields(targets[k])) by {
        lemma_skip_run_prefix(states, targets, k);
        assert(Optional::<I>::skip_step(states[k], states[k + 1], targets[k]));
    }
}

} // verus!
