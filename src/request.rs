use vstd::prelude::*;
use crate::object_path::ObjectRef;

verus! {

/// The terminal result that the broker reports for a request.
#[derive(Clone, Copy, Debug, PartialEq, Eq, Structural)]
pub enum Outcome {
    /// The request succeeded; its payload comes with it.
    Success,
    /// The user dismissed the dialog.
    Cancelled,
    /// Another failure, with the broker's response code.
    Other(u32),
}

/// The outcome that a broker response code stands for: 0 success, 1 cancelled,
/// anything else another failure.
pub open spec fn outcome_of(code: u32) -> Outcome {
    if code == 0 {
        Outcome::Success
    } else if code == 1 {
        Outcome::Cancelled
    } else {
        Outcome::Other(code)
    }
}

impl Outcome {
    /// The outcome of a broker response code.
    pub fn from_code(code: u32) -> (r: Outcome)
        ensures
            r == outcome_of(code),
    {
        if code == 0 {
            Outcome::Success
        } else if code == 1 {
            Outcome::Cancelled
        } else {
            Outcome::Other(code)
        }
    }
}

/// The call that a pending request belongs to.
#[derive(Clone, Copy, Debug, PartialEq, Eq, Structural)]
pub enum RequestKind {
    /// Creating a remote desktop session.
    CreateSession,
    /// Selecting the devices to control.
    SelectDevices,
    /// Starting the session.
    Start,
    /// A one-shot request outside any session.
    Other,
}

/// A terminal result handed to the owner of a request.
#[derive(Clone, Copy, Debug, PartialEq, Eq, Structural)]
pub struct Delivery {
    /// The call that the request belonged to.
    pub kind: RequestKind,
    /// What the broker reported.
    pub outcome: Outcome,
}

/// The pending requests after a result for `path` arrives, and the kind of the
/// request that the result is delivered to, if any is pending there.
pub open spec fn delivery(pending: Map<Seq<char>, RequestKind>, path: Seq<char>) -> (Map<
    Seq<char>,
    RequestKind,
>, Option<RequestKind>) {
    if pending.contains_key(path) {
        (pending.remove(path), Some(pending[path]))
    } else {
        (pending, None)
    }
}

/// Once a result for a request has been delivered, a second result for the same
/// path is delivered to nobody, unless a new request is registered there.
pub proof fn lemma_single_delivery(pending: Map<Seq<char>, RequestKind>, path: Seq<char>)
    requires
        pending.contains_key(path),
    ensures
        delivery(pending, path).1 == Some(pending[path]),
        delivery(delivery(pending, path).0, path).1 is None,
        delivery(delivery(pending, path).0, path).0 == delivery(pending, path).0,
{
}

/// The requests in flight, each keyed by its object path, to each of which at
/// most one terminal result is delivered.
#[derive(Debug)]
pub struct Correlator {
    entries: Vec<(ObjectRef, RequestKind)>,
}

impl Correlator {
    /// The paths are pairwise distinct.
    pub closed spec fn wf(&self) -> bool {
        forall|i: int, j: int|
            0 <= i < self.entries@.len() && 0 <= j < self.entries@.len() && i != j
                ==> #[trigger] self.entries@[i].0@ != #[trigger] self.entries@[j].0@
    }

    /// The pending requests: the kind of call waiting on each path.
    pub closed spec fn view(&self) -> Map<Seq<char>, RequestKind> {
        Map::new(
            |p: Seq<char>| exists|i: int| 0 <= i < self.entries@.len() && self.entries@[i].0@ == p,
            |p: Seq<char>|
                self.entries@[choose|i: int|
                    0 <= i < self.entries@.len() && self.entries@[i].0@ == p].1,
        )
    }

    proof fn lemma_view_at(&self, i: int)
        requires
            self.wf(),
            0 <= i < self.entries@.len(),
        ensures
            self.view().contains_key(self.entries@[i].0@),
            self.view()[self.entries@[i].0@] == self.entries@[i].1,
    {
        let p = self.entries@[i].0@;
        assert(self.view().contains_key(p));
        let k = choose|k: int| 0 <= k < self.entries@.len() && self.entries@[k].0@ == p;
        assert(k == i);
    }

    /// No request is pending.
    pub fn new() -> (r: Correlator)
        ensures
            r.wf(),
            r.view() == Map::<Seq<char>, RequestKind>::empty(),
    {
        let r = Correlator { entries: Vec::new() };
        assert(r.view() =~= Map::<Seq<char>, RequestKind>::empty());
        r
    }

    fn find(&self, path: &ObjectRef) -> (r: Option<usize>)
        requires
            self.wf(),
        ensures
            r is None <==> !self.view().contains_key(path@),
            r matches Some(i) ==> i < self.entries@.len() && self.entries@[i as int].0@ == path@,
    {
        let mut i: usize = 0;
        while i < self.entries.len()
            invariant
                i <= self.entries@.len(),
                forall|j: int| 0 <= j < i ==> self.entries@[j].0@ != path@,
            decreases self.entries@.len() - i,
        {
            if self.entries[i].0.same_as(path) {
                return Some(i);
            }
            i = i + 1;
        }
        None
    }

    /// Whether a request is pending on `path`.
    pub fn is_pending(&self, path: &ObjectRef) -> (r: bool)
        requires
            self.wf(),
        ensures
            r == self.view().contains_key(path@),
    {
        self.find(path).is_some()
    }

    /// How many requests are pending.
    pub fn len(&self) -> (r: usize)
        requires
            self.wf(),
        ensures
            r == self.view().len(),
    {
        proof {
            self.lemma_len();
        }
        self.entries.len()
    }

    proof fn lemma_len(&self)
        requires
            self.wf(),
        ensures
            self.view().len() == self.entries@.len(),
        decreases self.entries@.len(),
    {
        let idx = vstd::set_lib::set_int_range(0, self.entries@.len() as int);
        let keys = idx.map(|i: int| self.entries@[i].0@);
        vstd::set_lib::lemma_int_range(0, self.entries@.len() as int);
        assert forall|q: Seq<char>| #[trigger] self.view().dom().contains(q) <==> keys.contains(q) by {
            if self.view().dom().contains(q) {
                let i = choose|i: int| 0 <= i < self.entries@.len() && self.entries@[i].0@ == q;
                assert(idx.contains(i));
            }
            if keys.contains(q) {
                let i = choose|i: int| idx.contains(i) && self.entries@[i].0@ == q;
                assert(0 <= i < self.entries@.len() && self.entries@[i].0@ == q);
            }
        }
        assert(self.view().dom() =~= keys);
        assert(vstd::relations::injective_on(|i: int| self.entries@[i].0@, idx)) by {
            assert forall|a: int, b: int|
                idx.contains(a) && idx.contains(b) && #[trigger] self.entries@[a].0@
                    == #[trigger] self.entries@[b].0@ implies a == b by {}
        }
        vstd::set_lib::lemma_map_size(idx, keys, |i: int| self.entries@[i].0@);
    }

    /// Registers a request that the broker returned on `path`. Refused (`false`,
    /// nothing changes) if a request is already pending on that path.
    pub fn register(&mut self, path: ObjectRef, kind: RequestKind) -> (r: bool)
        requires
            old(self).wf(),
        ensures
            final(self).wf(),
            r == !old(self).view().contains_key(path@),
            r ==> final(self).view() == old(self).view().insert(path@, kind),
            !r ==> final(self).view() == old(self).view(),
    {
        if self.find(&path).is_some() {
            return false;
        }
        let ghost p = path@;
        let ghost before = *self;
        self.entries.push((path, kind));
        assert(self.wf());
        assert forall|q: Seq<char>| #[trigger] self.view().contains_key(q) <==> before.view().insert(
            p,
            kind,
        ).contains_key(q) by {
            if before.view().contains_key(q) {
                let i = choose|i: int| 0 <= i < before.entries@.len() && before.entries@[i].0@ == q;
                assert(self.entries@[i] == before.entries@[i]);
            }
            if q == p {
                assert(self.entries@[self.entries@.len() - 1].0@ == p);
            }
        }
        assert forall|q: Seq<char>| #[trigger] self.view().contains_key(q) implies self.view()[q]
            == before.view().insert(p, kind)[q] by {
            let i = choose|i: int| 0 <= i < self.entries@.len() && self.entries@[i].0@ == q;
            self.lemma_view_at(i);
            if i < before.entries@.len() {
                assert(self.entries@[i] == before.entries@[i]);
                before.lemma_view_at(i);
            }
        }
        assert(self.view() =~= before.view().insert(p, kind));
        true
    }

    /// Hands the result for `path` to its request, once: the request stops being
    /// pending, and a later result for the same path is delivered to nobody.
    pub fn deliver(&mut self, path: &ObjectRef, code: u32) -> (r: Option<Delivery>)
        requires
            old(self).wf(),
        ensures
            final(self).wf(),
            final(self).view() == delivery(old(self).view(), path@).0,
            delivery(old(self).view(), path@).1 matches Some(kind) ==> r == Some(
                Delivery { kind, outcome: outcome_of(code) },
            ),
            delivery(old(self).view(), path@).1 is None ==> r is None,
    {
        match self.remove(path) {
            Some(kind) => Some(Delivery { kind, outcome: Outcome::from_code(code) }),
            None => None,
        }
    }

    /// Forgets the request on `path` without a result, as when its owner gives it
    /// up; `true` if one was pending, in which case the broker should be asked to
    /// close it.
    pub fn abandon(&mut self, path: &ObjectRef) -> (r: bool)
        requires
            old(self).wf(),
        ensures
            final(self).wf(),
            r == old(self).view().contains_key(path@),
            final(self).view() == old(self).view().remove(path@),
    {
        let r = self.remove(path);
        assert(old(self).view().remove(path@) =~= delivery(old(self).view(), path@).0);
        r.is_some()
    }

    fn remove(&mut self, path: &ObjectRef) -> (r: Option<RequestKind>)
        requires
            old(self).wf(),
        ensures
            final(self).wf(),
            (final(self).view(), r) == delivery(old(self).view(), path@),
    {
        match self.find(path) {
            None => {
                None
            },
            Some(i) => {
                let ghost before = *self;
                proof {
                    before.lemma_view_at(i as int);
                }
                let (_, kind) = self.entries.swap_remove(i);
                let ghost p = path@;
                assert(self.wf()) by {
                    assert forall|a: int, b: int|
                        0 <= a < self.entries@.len() && 0 <= b < self.entries@.len() && a != b
                            implies #[trigger] self.entries@[a].0@
                        != #[trigger] self.entries@[b].0@ by {
                        let ia = if a == i { before.entries@.len() - 1 } else { a };
                        let ib = if b == i { before.entries@.len() - 1 } else { b };
                        assert(self.entries@[a] == before.entries@[ia]);
                        assert(self.entries@[b] == before.entries@[ib]);
                    }
                }
                assert forall|q: Seq<char>| #[trigger] self.view().contains_key(q)
                    <==> before.view().remove(p).contains_key(q) by {
                    if self.view().contains_key(q) {
                        let a = choose|a: int|
                            0 <= a < self.entries@.len() && self.entries@[a].0@ == q;
                        let ia = if a == i { before.entries@.len() - 1 } else { a };
                        assert(self.entries@[a] == before.entries@[ia]);
                        assert(ia != i);
                        before.lemma_view_at(ia);
                    }
                    if before.view().remove(p).contains_key(q) {
                        let b = choose|b: int|
                            0 <= b < before.entries@.len() && before.entries@[b].0@ == q;
                        assert(b != i);
                        if b == before.entries@.len() - 1 {
                            assert(self.entries@[i as int] == before.entries@[b]);
                        } else {
                            assert(self.entries@[b] == before.entries@[b]);
                        }
                    }
                }
                assert forall|q: Seq<char>| #[trigger] self.view().contains_key(q) implies self.view()[q]
                    == before.view().remove(p)[q] by {
                    let a = choose|a: int| 0 <= a < self.entries@.len() && self.entries@[a].0@ == q;
                    self.lemma_view_at(a);
                    let ia = if a == i { before.entries@.len() - 1 } else { a };
                    assert(self.entries@[a] == before.entries@[ia]);
                    before.lemma_view_at(ia);
                }
                assert(self.view() =~= before.view().remove(p));
                Some(kind)
            },
        }
    }
}

} // verus!
