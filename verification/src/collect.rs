//! The fan-in join of the engine: completed case results arrive keyed by
//! their input index, in any order, and are assembled into the input-order
//! result list. Identity is carried by the index, never by completion
//! order, so out-of-order completion cannot corrupt any case's result.

use vstd::prelude::*;

use crate::types::{CaseResult, CaseResultModel};

verus! {

/// The models of the filled slots of a collector.
pub open spec fn slot_models(slots: Seq<Option<CaseResult>>) -> Seq<Option<CaseResultModel>> {
    Seq::new(
        slots.len(),
        |i: int|
            match slots[i] {
                Option::Some(cr) => Option::Some(cr@),
                Option::None => Option::None,
            },
    )
}

/// Collects case results as they complete, keyed by input index.
pub struct ResultCollector {
    slots: Vec<Option<CaseResult>>,
}

impl View for ResultCollector {
    type V = Seq<Option<CaseResultModel>>;

    closed spec fn view(&self) -> Seq<Option<CaseResultModel>> {
        slot_models(self.slots@)
    }
}

impl ResultCollector {
    /// A collector expecting one result for each of `n` cases.
    pub fn new(n: usize) -> (c: ResultCollector)
        ensures
            c@.len() == n,
            forall|i: int| 0 <= i < n ==> (#[trigger] c@[i]) is None,
    {
        let mut slots: Vec<Option<CaseResult>> = Vec::new();
        let mut i: usize = 0;
        while i < n
            invariant
                i <= n,
                slots@.len() == i,
                forall|j: int| 0 <= j < i ==> (#[trigger] slots@[j]) is None,
            decreases n - i,
        {
            slots.push(None);
            i += 1;
        }
        ResultCollector { slots }
    }

    /// How many results are still awaited.
    pub fn pending(&self) -> (n: usize)
        ensures
            n == self@.len() - seq_filled_count(self@),
    {
        let total = self.slots.len();
        let mut filled: usize = 0;
        let mut i: usize = 0;
        proof {
            assert(self@.take(0) =~= Seq::<Option<CaseResultModel>>::empty());
        }
        while i < total
            invariant
                total == self.slots@.len(),
                self@.len() == total,
                i <= total,
                filled == seq_filled_count(self@.take(i as int)),
                filled <= i,
            decreases total - i,
        {
            proof {
                lemma_filled_count_take_step(self@, i as int);
            }
            if self.slots[i].is_some() {
                filled += 1;
            }
            i += 1;
        }
        proof {
            assert(self@.take(total as int) =~= self@);
            lemma_filled_count_bounded(self@);
        }
        total - filled
    }

    /// Joins one completed result into its slot. The slot is chosen by the
    /// case's input index alone; when the result arrives has no bearing on
    /// where it lands.
    pub fn insert(&mut self, index: usize, result: CaseResult)
        requires
            index < old(self)@.len(),
            old(self)@[index as int] is None,
        ensures
            final(self)@ == old(self)@.update(index as int, Option::Some(result@)),
    {
        let ghost prev = self@;
        self.slots.set(index, Some(result));
        proof {
            assert(self@ =~= prev.update(index as int, Option::Some(self.slots@[index as int]->0@)));
        }
    }

    /// Whether every slot is filled.
    pub fn is_complete(&self) -> (r: bool)
        ensures
            r == forall|i: int| 0 <= i < self@.len() ==> (#[trigger] self@[i]) is Some,
    {
        let n = self.slots.len();
        let mut i: usize = 0;
        while i < n
            invariant
                n == self.slots@.len(),
                self@.len() == n,
                i <= n,
                forall|j: int| 0 <= j < i ==> (#[trigger] self@[j]) is Some,
            decreases n - i,
        {
            if self.slots[i].is_none() {
                proof {
                    assert(!(self@[i as int] is Some));
                }
                return false;
            }
            i += 1;
        }
        true
    }

    /// Surrenders the assembled results in input order. The output is a
    /// function of the slot contents alone: any two completion orders that
    /// filled the slots alike yield the same list.
    pub fn finish(self) -> (r: Vec<CaseResult>)
        requires
            forall|i: int| 0 <= i < self@.len() ==> (#[trigger] self@[i]) is Some,
        ensures
            r@.len() == self@.len(),
            forall|i: int| 0 <= i < r@.len() ==> Option::Some((#[trigger] r@[i])@) == self@[i],
    {
        let ghost assembled = self@;
        let mut slots = self.slots;
        let n = slots.len();
        let mut out: Vec<CaseResult> = Vec::new();
        let mut i: usize = 0;
        while i < n
            invariant
                assembled.len() == n,
                slots@.len() + i == n,
                out@.len() == i,
                forall|j: int| 0 <= j < i ==> Option::Some((#[trigger] out@[j])@) == assembled[j],
                forall|j: int| 0 <= j < slots@.len() ==> match #[trigger] slots@[j] {
                    Option::Some(cr) => assembled[i + j] == Option::Some(cr@),
                    Option::None => assembled[i + j] is None,
                },
                forall|j: int| 0 <= j < assembled.len() ==> (#[trigger] assembled[j]) is Some,
            decreases n - i,
        {
            let slot = slots.remove(0);
            proof {
                assert(assembled[i as int] is Some);
            }
            let cr = slot.unwrap();
            out.push(cr);
            i += 1;
        }
        out
    }
}

/// How many slots of the sequence are filled.
pub open spec fn seq_filled_count(slots: Seq<Option<CaseResultModel>>) -> nat
    decreases slots,
{
    if slots.len() == 0 {
        0
    } else {
        seq_filled_count(slots.drop_last()) + if slots.last() is Some {
            1nat
        } else {
            0nat
        }
    }
}

proof fn lemma_filled_count_take_step(slots: Seq<Option<CaseResultModel>>, i: int)
    requires
        0 <= i < slots.len(),
    ensures
        seq_filled_count(slots.take(i + 1)) == seq_filled_count(slots.take(i)) + if slots[i]
            is Some {
            1nat
        } else {
            0nat
        },
{
    assert(slots.take(i + 1).drop_last() =~= slots.take(i));
    assert(slots.take(i + 1).last() == slots[i]);
}

proof fn lemma_filled_count_bounded(slots: Seq<Option<CaseResultModel>>)
    ensures
        seq_filled_count(slots) <= slots.len(),
    decreases slots,
{
    if slots.len() != 0 {
        lemma_filled_count_bounded(slots.drop_last());
    }
}

/// Joining results commutes: two completions landing in different slots
/// leave the collector in the same state whichever arrives first. With
/// [`ResultCollector::finish`] assembling from the slots alone, the final
/// result list is independent of completion order.
pub proof fn lemma_insert_commutes(
    slots: Seq<Option<CaseResultModel>>,
    i: int,
    x: CaseResultModel,
    j: int,
    y: CaseResultModel,
)
    requires
        0 <= i < slots.len(),
        0 <= j < slots.len(),
        i != j,
    ensures
        slots.update(i, Option::Some(x)).update(j, Option::Some(y)) == slots.update(
            j,
            Option::Some(y),
        ).update(i, Option::Some(x)),
{
    assert(slots.update(i, Option::Some(x)).update(j, Option::Some(y)) =~= slots.update(
        j,
        Option::Some(y),
    ).update(i, Option::Some(x)));
}

} // verus!
