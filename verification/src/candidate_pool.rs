use vstd::prelude::*;

verus! {

/// A finite candidate set from which a sequential design selects, one at a
/// time and at most `budget` times, the candidates it evaluates.
///
/// The pool keeps the candidates not yet selected, in their original relative
/// order, and accounts for every selection: the selected candidates and the
/// remaining candidates together are always exactly the candidates the pool
/// was created with.
pub struct CandidatePool<T> {
    remaining: Vec<T>,
    selections: usize,
    budget: usize,
    selected: Ghost<Seq<T>>,
    candidates: Ghost<Seq<T>>,
    remaining_at: Ghost<Seq<int>>,
    selected_at: Ghost<Seq<int>>,
}

impl<T> CandidatePool<T> {
    /// The candidates not selected so far, in their original relative order.
    pub closed spec fn remaining_seq(self) -> Seq<T> {
        self.remaining@
    }

    /// The candidates selected so far, in the order in which they were selected.
    pub closed spec fn selected_seq(self) -> Seq<T> {
        self.selected@
    }

    /// The candidates the pool was created with.
    pub closed spec fn candidate_seq(self) -> Seq<T> {
        self.candidates@
    }

    /// The maximal number of selections.
    pub closed spec fn selection_budget(self) -> nat {
        self.budget as nat
    }

    /// The positions, among the initial candidates, of the remaining candidates.
    pub closed spec fn remaining_positions(self) -> Seq<int> {
        self.remaining_at@
    }

    /// The positions, among the initial candidates, of the selected candidates,
    /// in the order in which they were selected.
    pub closed spec fn selected_positions(self) -> Seq<int> {
        self.selected_at@
    }

    /// The remaining candidates are the initial candidates at strictly
    /// increasing positions, that is, in their original relative order; the
    /// selected candidates are the initial candidates at the other positions,
    /// each position used once.
    pub open spec fn order_kept(self) -> bool {
        let candidates = self.candidate_seq();
        let remaining = self.remaining_seq();
        let selected = self.selected_seq();
        let kept = self.remaining_positions();
        let taken = self.selected_positions();
        &&& kept.len() == remaining.len()
        &&& taken.len() == selected.len()
        &&& remaining.len() + selected.len() == candidates.len()
        &&& forall|i: int|
            0 <= i < kept.len() ==> 0 <= #[trigger] kept[i] < candidates.len() && remaining[i]
                == candidates[kept[i]]
        &&& forall|i: int, j: int| 0 <= i < j < kept.len() ==> kept[i] < kept[j]
        &&& forall|j: int|
            0 <= j < taken.len() ==> 0 <= #[trigger] taken[j] < candidates.len() && selected[j]
                == candidates[taken[j]]
        &&& forall|i: int, j: int| 0 <= i < j < taken.len() ==> taken[i] != taken[j]
        &&& forall|i: int, j: int|
            0 <= i < kept.len() && 0 <= j < taken.len() ==> kept[i] != taken[j]
    }

    /// The pool's accounting invariant.
    pub open spec fn wf(self) -> bool {
        &&& self.counter_agrees()
        &&& self.order_kept()
        &&& self.selected_seq().len() <= self.selection_budget()
        &&& self.selected_seq().to_multiset().add(self.remaining_seq().to_multiset())
            == self.candidate_seq().to_multiset()
    }

    /// The stored count of selections agrees with the selections made.
    pub closed spec fn counter_agrees(self) -> bool {
        self.selections as nat == self.selected@.len()
    }

    /// Create a pool over `candidates` that allows at most `budget` selections.
    pub fn new(candidates: Vec<T>, budget: usize) -> (pool: Self)
        ensures
            pool.wf(),
            pool.remaining_seq() == candidates@,
            pool.candidate_seq() == candidates@,
            pool.selected_seq() == Seq::<T>::empty(),
            pool.selection_budget() == budget,
    {
        let ghost initial = candidates@;
        let ghost kept = Seq::new(initial.len(), |i: int| i);
        let pool = CandidatePool {
            remaining: candidates,
            selections: 0,
            budget,
            selected: Ghost(Seq::empty()),
            candidates: Ghost(initial),
            remaining_at: Ghost(kept),
            selected_at: Ghost(Seq::empty()),
        };
        proof {
            assert(Seq::<T>::empty().to_multiset() =~= vstd::multiset::Multiset::<T>::empty()) by {
                broadcast use vstd::seq_lib::group_to_multiset_ensures;
            }
            assert(pool.selected@.to_multiset().add(pool.remaining@.to_multiset())
                =~= initial.to_multiset());
        }
        pool
    }

    /// Return the candidates not selected so far.
    pub fn remaining(&self) -> (remaining: &[T])
        ensures
            remaining@ == self.remaining_seq(),
    {
        self.remaining.as_slice()
    }

    /// Return the number of candidates not selected so far.
    pub fn remaining_count(&self) -> (count: usize)
        ensures
            count == self.remaining_seq().len(),
    {
        self.remaining.len()
    }

    /// Return the number of selections made so far.
    pub fn selections(&self) -> (count: usize)
        requires
            self.wf(),
        ensures
            count == self.selected_seq().len(),
    {
        self.selections
    }

    /// Return the maximal number of selections.
    pub fn budget(&self) -> (budget: usize)
        ensures
            budget == self.selection_budget(),
    {
        self.budget
    }

    /// Select the remaining candidate at position `index`: it leaves the
    /// remaining candidates, is appended to the selected ones, and is returned.
    pub fn take(&mut self, index: usize) -> (candidate: T)
        requires
            old(self).wf(),
            index < old(self).remaining_seq().len(),
            old(self).selected_seq().len() < old(self).selection_budget(),
        ensures
            final(self).wf(),
            candidate == old(self).remaining_seq()[index as int],
            final(self).remaining_seq() == old(self).remaining_seq().remove(index as int),
            final(self).selected_seq() == old(self).selected_seq().push(candidate),
            final(self).candidate_seq() == old(self).candidate_seq(),
            final(self).selection_budget() == old(self).selection_budget(),
    {
        let ghost before = self.remaining@;
        let ghost selected_before = self.selected@;
        let ghost kept_before = self.remaining_at@;
        let ghost taken_before = self.selected_at@;
        let candidate = self.remaining.remove(index);
        self.selections = self.selections + 1;
        self.selected = Ghost(selected_before.push(candidate));
        self.remaining_at = Ghost(kept_before.remove(index as int));
        self.selected_at = Ghost(taken_before.push(kept_before[index as int]));
        proof {
            let kept = self.remaining_at@;
            let taken = self.selected_at@;
            assert forall|i: int, j: int| 0 <= i < j < kept.len() implies kept[i] < kept[j] by {
                if i < index {
                    if j < index {
                    } else {
                        assert(kept[j] == kept_before[j + 1]);
                    }
                } else {
                    assert(kept[i] == kept_before[i + 1]);
                    assert(kept[j] == kept_before[j + 1]);
                }
            }
            assert forall|i: int| 0 <= i < kept.len() implies 0 <= #[trigger] kept[i]
                < self.candidates@.len() && self.remaining@[i] == self.candidates@[kept[i]] by {
                if i < index {
                } else {
                    assert(kept[i] == kept_before[i + 1]);
                    assert(self.remaining@[i] == before[i + 1]);
                }
            }
            assert forall|j: int| 0 <= j < taken.len() implies 0 <= #[trigger] taken[j]
                < self.candidates@.len() && self.selected@[j] == self.candidates@[taken[j]] by {
                if j < taken_before.len() {
                    assert(taken[j] == taken_before[j]);
                } else {
                    assert(taken[j] == kept_before[index as int]);
                }
            }
            assert forall|i: int, j: int| 0 <= i < j < taken.len() implies taken[i] != taken[j] by {
                if j == taken_before.len() {
                    assert(taken[j] == kept_before[index as int]);
                    assert(taken[i] == taken_before[i]);
                }
            }
            assert forall|i: int, j: int|
                0 <= i < kept.len() && 0 <= j < taken.len() implies kept[i] != taken[j] by {
                let original_i = if i < index { i } else { i + 1 };
                assert(kept[i] == kept_before[original_i]);
                if j == taken_before.len() {
                    assert(taken[j] == kept_before[index as int]);
                    if original_i < index {
                        assert(kept_before[original_i] < kept_before[index as int]);
                    } else {
                        assert(kept_before[index as int] < kept_before[original_i]);
                    }
                } else {
                    assert(taken[j] == taken_before[j]);
                }
            }
        }
        proof {
            broadcast use vstd::seq_lib::group_to_multiset_ensures;

            assert(before[index as int] == candidate);
            assert(self.remaining@.to_multiset() =~= before.to_multiset().remove(candidate));
            assert(self.selected@.to_multiset() =~= selected_before.to_multiset().insert(candidate));
            assert(before.to_multiset().count(candidate) > 0) by {
                assert(before.contains(candidate));
            }
            assert(self.selected@.to_multiset().add(self.remaining@.to_multiset())
                =~= selected_before.to_multiset().add(before.to_multiset()));
        }
        candidate
    }

    /// Select the remaining candidate at position `index`, as [`Self::take`]
    /// does, and append it to `destination`.
    pub fn take_into(&mut self, index: usize, destination: &mut Vec<T>)
        requires
            old(self).wf(),
            index < old(self).remaining_seq().len(),
            old(self).selected_seq().len() < old(self).selection_budget(),
        ensures
            final(self).wf(),
            final(destination)@ == old(destination)@.push(old(self).remaining_seq()[index as int]),
            final(self).remaining_seq() == old(self).remaining_seq().remove(index as int),
            final(self).selected_seq() == old(self).selected_seq().push(
                old(self).remaining_seq()[index as int],
            ),
            final(self).candidate_seq() == old(self).candidate_seq(),
            final(self).selection_budget() == old(self).selection_budget(),
    {
        let candidate = self.take(index);
        destination.push(candidate);
    }

    /// Give up the pool and return the candidates not selected.
    pub fn into_remaining(self) -> (remaining: Vec<T>)
        ensures
            remaining@ == self.remaining_seq(),
    {
        self.remaining
    }
}

/// Every well-formed pool has made at most `budget` selections, and the
/// selected and the remaining candidates together number exactly as many as
/// the candidates the pool was created with; every selected or remaining
/// candidate is one of those candidates.
pub proof fn lemma_pool_accounting<T>(pool: CandidatePool<T>)
    requires
        pool.wf(),
    ensures
        pool.selected_seq().len() <= pool.selection_budget(),
        pool.selected_seq().len() + pool.remaining_seq().len() == pool.candidate_seq().len(),
        forall|x: T| pool.selected_seq().contains(x) ==> pool.candidate_seq().contains(x),
        forall|x: T| pool.remaining_seq().contains(x) ==> pool.candidate_seq().contains(x),
{
    broadcast use vstd::seq_lib::group_to_multiset_ensures;
    broadcast use vstd::multiset::group_multiset_axioms;

    assert(pool.selected_seq().to_multiset().add(pool.remaining_seq().to_multiset()).len()
        == pool.candidate_seq().to_multiset().len());
    assert forall|x: T| pool.selected_seq().contains(x) implies pool.candidate_seq().contains(x) by {
        assert(pool.selected_seq().to_multiset().count(x) > 0);
        assert(pool.candidate_seq().to_multiset().count(x) > 0);
    }
    assert forall|x: T| pool.remaining_seq().contains(x) implies pool.candidate_seq().contains(
        x,
    ) by {
        assert(pool.remaining_seq().to_multiset().count(x) > 0);
        assert(pool.candidate_seq().to_multiset().count(x) > 0);
    }
}

/// When the candidates are pairwise distinct, a selected candidate is no longer
/// among the remaining ones, and neither the selected nor the remaining
/// candidates repeat.
pub proof fn lemma_selected_candidates_leave_the_pool<T>(pool: CandidatePool<T>)
    requires
        pool.wf(),
        pool.candidate_seq().no_duplicates(),
    ensures
        forall|x: T| pool.selected_seq().contains(x) ==> !pool.remaining_seq().contains(x),
        pool.selected_seq().no_duplicates(),
        pool.remaining_seq().no_duplicates(),
{
    broadcast use vstd::seq_lib::group_to_multiset_ensures;
    broadcast use vstd::multiset::group_multiset_axioms;

    pool.candidate_seq().lemma_multiset_has_no_duplicates();
    let selected = pool.selected_seq().to_multiset();
    let remaining = pool.remaining_seq().to_multiset();
    let candidates = pool.candidate_seq().to_multiset();
    assert forall|x: T| selected.count(x) + remaining.count(x) <= 1 by {
        assert(selected.add(remaining).count(x) == candidates.count(x));
        if candidates.count(x) > 0 {
            assert(candidates.contains(x));
        }
    }
    assert forall|x: T| pool.selected_seq().contains(x) implies !pool.remaining_seq().contains(x) by {
        assert(selected.count(x) > 0);
        assert(selected.count(x) + remaining.count(x) <= 1);
    }
    assert forall|x: T| selected.contains(x) implies selected.count(x) == 1 by {
        assert(selected.count(x) + remaining.count(x) <= 1);
    }
    pool.selected_seq().lemma_multiset_has_no_duplicates_conv();
    assert forall|x: T| remaining.contains(x) implies remaining.count(x) == 1 by {
        assert(selected.count(x) + remaining.count(x) <= 1);
    }
    pool.remaining_seq().lemma_multiset_has_no_duplicates_conv();
}

/// When the candidates are pairwise distinct, the remaining candidates appear
/// in the order in which they stood among the initial candidates.
pub proof fn lemma_remaining_keep_original_order<T>(pool: CandidatePool<T>)
    requires
        pool.wf(),
        pool.candidate_seq().no_duplicates(),
    ensures
        forall|i: int, j: int|
            0 <= i < j < pool.remaining_seq().len() ==> pool.candidate_seq().index_of(
                #[trigger] pool.remaining_seq()[i],
            ) < pool.candidate_seq().index_of(#[trigger] pool.remaining_seq()[j]),
{
    let candidates = pool.candidate_seq();
    let remaining = pool.remaining_seq();
    let kept = pool.remaining_positions();
    assert forall|i: int| 0 <= i < remaining.len() implies candidates.index_of(
        #[trigger] remaining[i],
    ) == kept[i] by {
        assert(candidates[kept[i]] == remaining[i]);
        let k = candidates.index_of(remaining[i]);
        assert(0 <= k < candidates.len() && candidates[k] == remaining[i]);
    }
}

/// A record of selections that starts as `initial` and receives, by
/// [`CandidatePool::take_into`], each candidate the pool gives out, is always
/// `initial` followed by the selected candidates in the order of selection.
pub proof fn lemma_take_into_records_selections<T>(
    initial: Seq<T>,
    before: CandidatePool<T>,
    after: CandidatePool<T>,
    record_before: Seq<T>,
    record_after: Seq<T>,
    index: int,
)
    requires
        0 <= index < before.remaining_seq().len(),
        record_before == initial + before.selected_seq(),
        after.selected_seq() == before.selected_seq().push(before.remaining_seq()[index]),
        record_after == record_before.push(before.remaining_seq()[index]),
    ensures
        record_after == initial + after.selected_seq(),
{
    assert(record_after =~= initial + after.selected_seq());
}

} // verus!
