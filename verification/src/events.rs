//! The record of what happened, by kind.
//!
//! Tests and replays ask how many events of a kind were reported — "exactly
//! one destruction", not "the fourth event was a destruction" — and whether
//! any were. Those questions read only each event's kind, so that is what
//! this log holds, in the order the events were reported.

use vstd::prelude::*;
use crate::text::same_text;
use crate::types::EventKind;

verus! {

/// How many of `kinds` carry the label `label`.
pub open spec fn labelled(kinds: Seq<EventKind>, label: Seq<char>) -> nat
    decreases kinds.len(),
{
    if kinds.len() == 0 {
        0
    } else {
        labelled(kinds.drop_last(), label) + if kinds.last().label_text() == label {
            1nat
        } else {
            0nat
        }
    }
}

/// The kinds of the events reported so far, in order.
#[derive(Debug, Clone)]
pub struct KindLog {
    kinds: Vec<EventKind>,
}

impl View for KindLog {
    type V = Seq<EventKind>;

    closed spec fn view(&self) -> Seq<EventKind> {
        self.kinds@
    }
}

impl KindLog {
    pub fn new() -> (r: Self)
        ensures
            r@ == Seq::<EventKind>::empty(),
    {
        KindLog { kinds: Vec::new() }
    }

    /// Note one more event.
    pub fn record(&mut self, kind: EventKind)
        ensures
            final(self)@ == old(self)@.push(kind),
    {
        self.kinds.push(kind);
    }

    pub fn len(&self) -> (n: usize)
        ensures
            n == self@.len(),
    {
        self.kinds.len()
    }

    /// How many events with the label `kind` were recorded.
    pub fn count(&self, kind: &str) -> (n: usize)
        ensures
            n == labelled(self@, kind@),
    {
        let mut n: usize = 0;
        let mut i: usize = 0;
        while i < self.kinds.len()
            invariant
                i <= self@.len(),
                n == labelled(self@.subrange(0, i as int), kind@),
                n <= i,
            decreases self@.len() - i,
        {
            proof {
                assert(self@.subrange(0, i + 1).drop_last() =~= self@.subrange(0, i as int));
            }
            if same_text(self.kinds[i].label(), kind) {
                n = n + 1;
            }
            i = i + 1;
        }
        assert(self@.subrange(0, self@.len() as int) =~= self@);
        n
    }

    /// Whether any event with the label `kind` was recorded.
    pub fn any(&self, kind: &str) -> (r: bool)
        ensures
            r <==> exists|i: int| 0 <= i < self@.len() && self@[i].label_text() == kind@,
    {
        let mut i: usize = 0;
        while i < self.kinds.len()
            invariant
                i <= self@.len(),
                forall|j: int| 0 <= j < i ==> self@[j].label_text() != kind@,
            decreases self@.len() - i,
        {
            if same_text(self.kinds[i].label(), kind) {
                return true;
            }
            i = i + 1;
        }
        false
    }

    /// Forget everything.
    pub fn clear(&mut self)
        ensures
            final(self)@ == Seq::<EventKind>::empty(),
    {
        self.kinds.clear();
    }
}

/// Some event carries a label exactly when the label's count is not zero.
pub proof fn lemma_any_iff_counted(kinds: Seq<EventKind>, label: Seq<char>)
    ensures
        (labelled(kinds, label) > 0) <==> exists|i: int|
            0 <= i < kinds.len() && kinds[i].label_text() == label,
    decreases kinds.len(),
{
    if kinds.len() > 0 {
        let rest = kinds.drop_last();
        lemma_any_iff_counted(rest, label);
        if exists|i: int| 0 <= i < rest.len() && rest[i].label_text() == label {
            let i = choose|i: int| 0 <= i < rest.len() && rest[i].label_text() == label;
            assert(kinds[i] == rest[i]);
        }
        if exists|i: int| 0 <= i < kinds.len() && kinds[i].label_text() == label {
            let i = choose|i: int| 0 <= i < kinds.len() && kinds[i].label_text() == label;
            if i < kinds.len() - 1 {
                assert(rest[i] == kinds[i]);
            }
        }
    }
}

/// Recording an event adds one to its own kind's count and leaves every
/// other kind's count alone.
pub proof fn lemma_record_counts_once(kinds: Seq<EventKind>, kind: EventKind, other: EventKind)
    ensures
        labelled(kinds.push(kind), kind.label_text()) == labelled(kinds, kind.label_text()) + 1,
        other != kind ==> labelled(kinds.push(kind), other.label_text()) == labelled(
            kinds,
            other.label_text(),
        ),
{
    assert(kinds.push(kind).drop_last() =~= kinds);
    crate::types::lemma_event_labels_are_distinct(kind, other);
}

} // verus!
