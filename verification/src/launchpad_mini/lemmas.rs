//! What holds of the canvas of a Launchpad Mini and of its flushes.
use vstd::prelude::*;
use crate::launchpad_mini::model::{
    button_cell, cell_button, cell_index, is_cell, light_first_control, rapid_cell,
    rapid_position, spec_is_valid, CanvasView, DIRECT_LIMIT,
};
use crate::launchpad_mini::output::Command;
use crate::protocols::Button80 as Button;

verus! {

/// The cell at a place is an LED of the button at that place.
pub proof fn lemma_cell_button(i: int)
    requires
        is_cell(i),
    ensures
        cell_button(i).is_valid(),
        button_cell(cell_button(i)) == Some(i),
        spec_is_valid(i % 9, i / 9),
        cell_index(i % 9, i / 9) == i,
{
}

/// Every turn of a sweep falls to a cell, and to no other turn's cell.
pub proof fn lemma_rapid_cell(k: int)
    requires
        0 <= k < 80,
    ensures
        is_cell(rapid_cell(k)),
        rapid_position(rapid_cell(k)) == k,
{
}

/// Every cell has its turn in a sweep.
pub proof fn lemma_rapid_position(i: int)
    requires
        is_cell(i),
    ensures
        0 <= rapid_position(i) < 80,
        rapid_cell(rapid_position(i)) == i,
{
}

impl CanvasView {
    /// Commands that are sent one list after the other act as the one list
    /// and then the other.
    pub proof fn lemma_after_append(self, first: Seq<Command>, second: Seq<Command>, count: int)
        requires
            0 <= count <= first.len() + second.len(),
        ensures
            count <= first.len() ==> self.after(first + second, count) == self.after(first, count),
            count >= first.len() ==> self.after(first + second, count) == self.after(
                first,
                first.len() as int,
            ).after(second, count - first.len()),
        decreases count,
    {
        if count > 0 {
            self.lemma_after_append(first, second, count - 1);
            if count <= first.len() {
                assert((first + second)[count - 1] == first[count - 1]);
            } else {
                assert((first + second)[count - 1] == second[count - 1 - first.len()]);
            }
        }
    }

    /// Ending a sweep changes no color.
    pub proof fn lemma_reset(self)
        requires
            self.wf(),
        ensures
            self.after(self.reset_commands(), self.reset_commands().len() as int) == self.rested(),
            self.after(self.reset_commands(), 0) == self,
    {
        if self.mode is RapidUpdate {
            let reset = self.reset_commands();
            assert(self.after(reset, 0) == self);
            assert(button_cell(Button::ControlButton { index: 0 }) == Some(0int));
            assert(self.flushed.update(0, self.flushed[0]) =~= self.flushed);
            assert(self.after(reset, 1) == self.step(reset[0]));
        } else {
            assert(self.rested() == self);
        }
    }

    /// After the first `k` lightings, the cells that these name show what
    /// is wanted, and all others show what they showed.
    pub proof fn lemma_direct_prefix(self, k: int)
        requires
            self.wf(),
            0 <= k <= self.changes().len(),
        ensures
            ({
                let w = self.rested().after(self.direct_commands(), k);
                &&& w.wf()
                &&& w.pending == self.pending
                &&& w.mode is Normal
                &&& forall|i: int|
                    0 <= i < 81 ==> #[trigger] w.flushed[i] == if Self::listed(
                        self.changes(),
                        k,
                        i,
                    ) {
                        self.pending[i]
                    } else {
                        self.flushed[i]
                    }
            }),
        decreases k,
    {
        let places = self.changes();
        let direct = self.direct_commands();
        if k > 0 {
            self.lemma_direct_prefix(k - 1);
            self.lemma_changes_below(81);
            let before = self.rested().after(direct, k - 1);
            let w = self.rested().after(direct, k);
            let place = places[k - 1];
            assert(is_cell(place));
            lemma_cell_button(place);
            assert(direct[k - 1] == Command::Light {
                button: cell_button(place),
                color: self.pending[place],
            });
            assert(w == before.step(direct[k - 1]));
            assert(w.flushed == before.flushed.update(place, self.pending[place]));
            assert forall|i: int| 0 <= i < 81 implies #[trigger] w.flushed[i] == if Self::listed(
                places,
                k,
                i,
            ) {
                self.pending[i]
            } else {
                self.flushed[i]
            } by {
                if i == place {
                    assert(places[k - 1] == i);
                } else if Self::listed(places, k - 1, i) {
                    let j = choose|j: int| 0 <= j < k - 1 && #[trigger] places[j] == i;
                    assert(0 <= j < k && places[j] == i);
                } else if Self::listed(places, k, i) {
                    let j = choose|j: int| 0 <= j < k && #[trigger] places[j] == i;
                    assert(j < k - 1);
                }
            }
        }
    }

    /// After the first `k` rapid updates of a sweep, the cells of the
    /// first `2 * k` turns show what is wanted, and all others show what
    /// they showed.
    pub proof fn lemma_rapid_prefix(self, k: int)
        requires
            self.wf(),
            0 <= k <= 40,
        ensures
            ({
                let w = self.rested().after(self.rapid_commands(), k);
                &&& w.wf()
                &&& w.pending == self.pending
                &&& w.cursor == if k == 40 {
                    0
                } else {
                    k
                }
                &&& w.mode is RapidUpdate <==> k > 0
                &&& forall|i: int|
                    0 <= i < 81 ==> #[trigger] w.flushed[i] == if is_cell(i) && rapid_position(i)
                        < 2 * k {
                        self.pending[i]
                    } else {
                        self.flushed[i]
                    }
            }),
        decreases k,
    {
        let rapid = self.rapid_commands();
        if k > 0 {
            self.lemma_rapid_prefix(k - 1);
            let before = self.rested().after(rapid, k - 1);
            let w = self.rested().after(rapid, k);
            let a = rapid_cell(2 * (k - 1));
            let b = rapid_cell(2 * (k - 1) + 1);
            lemma_rapid_cell(2 * (k - 1));
            lemma_rapid_cell(2 * (k - 1) + 1);
            assert(rapid[k - 1] == Command::Rapid {
                first: self.pending[a],
                second: self.pending[b],
            });
            assert(w == before.step(rapid[k - 1]));
            assert(w.flushed == before.flushed.update(a, self.pending[a]).update(
                b,
                self.pending[b],
            ));
            assert forall|i: int| 0 <= i < 81 implies #[trigger] w.flushed[i] == if is_cell(i)
                && rapid_position(i) < 2 * k {
                self.pending[i]
            } else {
                self.flushed[i]
            } by {
                if i != a && i != b && is_cell(i) {
                    lemma_rapid_position(i);
                }
            }
        }
    }

    /// Every command of a flush can be sent.
    pub proof fn lemma_plan_can_be_sent(self)
        requires
            self.wf(),
        ensures
            forall|j: int| 0 <= j < self.plan().len() ==> (#[trigger] self.plan()[j]).can_be_sent(),
    {
        self.lemma_changes_below(81);
        assert forall|j: int| 0 <= j < self.plan().len() implies (
        #[trigger] self.plan()[j]).can_be_sent() by {
            let reset = self.reset_commands();
            if j >= reset.len() && 0 < self.changes().len() <= DIRECT_LIMIT {
                lemma_cell_button(self.changes()[j - reset.len()]);
            }
        }
    }

    /// The commands of a flush, all taken, leave the device showing what
    /// is wanted and in no sweep. What is wanted is not touched.
    pub proof fn lemma_plan_brings_in_sync(self)
        requires
            self.wf(),
        ensures
            self.after(self.plan(), self.plan().len() as int).wf(),
            self.after(self.plan(), self.plan().len() as int).in_sync(),
            self.after(self.plan(), self.plan().len() as int).pending == self.pending,
    {
        let reset = self.reset_commands();
        let repaint = self.repaint_commands();
        let n = self.changes().len() as int;
        let w = self.after(self.plan(), self.plan().len() as int);
        self.lemma_after_append(reset, repaint, (reset.len() + repaint.len()) as int);
        self.lemma_reset();
        self.lemma_changes_below(81);
        assert(w == self.rested().after(repaint, repaint.len() as int));
        if n == 0 {
            assert(w == self.rested());
            assert forall|i: int| is_cell(i) implies w.flushed[i] == w.pending[i] by {
                if self.dirty(i) {
                    let j = choose|j: int|
                        0 <= j < self.changes_below(81).len() && #[trigger] self.changes_below(
                            81,
                        )[j] == i;
                }
            }
        } else if n <= DIRECT_LIMIT {
            self.lemma_direct_prefix(n);
            assert forall|i: int| is_cell(i) implies w.flushed[i] == w.pending[i] by {
                if self.dirty(i) {
                    let j = choose|j: int|
                        0 <= j < self.changes_below(81).len() && #[trigger] self.changes_below(
                            81,
                        )[j] == i;
                    assert(Self::listed(self.changes(), n, i));
                }
            }
        } else {
            let rapid = self.rapid_commands();
            let last = seq![light_first_control(self.pending)];
            assert(repaint =~= rapid + last);
            self.rested().lemma_after_append(rapid, last, 41);
            self.lemma_rapid_prefix(40);
            let swept = self.rested().after(rapid, 40);
            assert(swept.after(last, 0) == swept);
            assert(swept.after(last, 1) == swept.step(last[0]));
            assert(button_cell(Button::ControlButton { index: 0 }) == Some(0int));
            assert forall|i: int| is_cell(i) implies w.flushed[i] == w.pending[i] by {
                lemma_rapid_position(i);
            }
        }
    }

    /// Where the device shows what is wanted and stands in no sweep, a
    /// flush has nothing to send.
    pub proof fn lemma_in_sync_plans_nothing(self)
        requires
            self.wf(),
            self.in_sync(),
        ensures
            self.plan() == Seq::<Command>::empty(),
    {
        self.lemma_changes_below(81);
        if self.changes().len() > 0 {
            assert(self.dirty(self.changes_below(81)[0]));
        }
        assert(self.plan() =~= Seq::<Command>::empty());
    }

    /// How many commands a flush has: one to end a sweep that the device
    /// was left in; then none where nothing changed, one for each changed
    /// cell up to forty of them, and forty-one for more.
    pub proof fn lemma_plan_length(self)
        ensures
            self.plan().len() == (if self.mode is RapidUpdate {
                1int
            } else {
                0int
            }) + (if self.changes().len() == 0 {
                0int
            } else if self.changes().len() <= 40 {
                self.changes().len() as int
            } else {
                41int
            }),
    {
    }

    /// A flush of up to forty changes that is cut short after `sent`
    /// commands: the changed cells whose lighting went out show what is
    /// wanted, the other changed cells are as dirty as they were, and no
    /// other cell is touched.
    pub proof fn lemma_cut_short_direct(self, sent: int)
        requires
            self.wf(),
            0 < self.changes().len() <= 40,
            0 <= sent <= self.plan().len(),
        ensures
            ({
                let w = self.after(self.plan(), sent);
                let lit = sent - self.reset_commands().len();
                &&& w.wf()
                &&& w.pending == self.pending
                &&& forall|j: int|
                    0 <= j < lit ==> !w.dirty(#[trigger] self.changes()[j])
                &&& forall|j: int|
                    0 <= j < self.changes().len() && lit <= j ==> w.dirty(
                        #[trigger] self.changes()[j],
                    )
                &&& forall|i: int|
                    0 <= i < 81 && !self.dirty(i) ==> #[trigger] w.flushed[i] == self.flushed[i]
            }),
    {
        let reset = self.reset_commands();
        let direct = self.direct_commands();
        let places = self.changes();
        let w = self.after(self.plan(), sent);
        let lit = sent - reset.len();
        self.lemma_after_append(reset, direct, sent);
        self.lemma_reset();
        self.lemma_changes_below(81);
        if lit <= 0 {
            assert(w.flushed == self.flushed);
        } else {
            self.lemma_direct_prefix(lit);
            assert(w == self.rested().after(direct, lit));
            assert forall|j: int| 0 <= j < lit implies !w.dirty(#[trigger] places[j]) by {
                assert(Self::listed(places, lit, places[j]));
            }
            assert forall|j: int| 0 <= j < places.len() && lit <= j implies w.dirty(
                #[trigger] places[j],
            ) by {
                if Self::listed(places, lit, places[j]) {
                    let m = choose|m: int| 0 <= m < lit && #[trigger] places[m] == places[j];
                    assert(m < j);
                    assert(places[m] < places[j]);
                }
            }
            assert forall|i: int| 0 <= i < 81 && !self.dirty(i) implies #[trigger] w.flushed[i]
                == self.flushed[i] by {
                if Self::listed(places, lit, i) {
                    let m = choose|m: int| 0 <= m < lit && #[trigger] places[m] == i;
                    assert(self.dirty(places[m]));
                }
            }
        }
    }

    /// A sweep that is cut short after `sent` commands: the cells whose
    /// turn came show what is wanted, and all others show what they showed.
    pub proof fn lemma_cut_short_sweep(self, sent: int)
        requires
            self.wf(),
            self.changes().len() > 40,
            0 <= sent <= self.plan().len(),
        ensures
            ({
                let w = self.after(self.plan(), sent);
                let rapid = sent - self.reset_commands().len();
                let pairs = if rapid < 0 {
                    0
                } else if rapid > 40 {
                    40
                } else {
                    rapid
                };
                &&& w.wf()
                &&& w.pending == self.pending
                &&& forall|i: int|
                    0 <= i < 81 ==> #[trigger] w.flushed[i] == if is_cell(i) && rapid_position(i)
                        < 2 * pairs {
                        self.pending[i]
                    } else {
                        self.flushed[i]
                    }
            }),
    {
        let reset = self.reset_commands();
        let sweep = self.sweep_commands();
        let rapid = self.rapid_commands();
        let last = seq![light_first_control(self.pending)];
        let w = self.after(self.plan(), sent);
        let taken = sent - reset.len();
        self.lemma_after_append(reset, sweep, sent);
        self.lemma_reset();
        assert(sweep =~= rapid + last);
        if taken <= 0 {
            self.lemma_rapid_prefix(0);
            assert(w.flushed == self.flushed);
        } else {
            self.rested().lemma_after_append(rapid, last, taken);
            if taken <= 40 {
                self.lemma_rapid_prefix(taken);
            } else {
                self.lemma_rapid_prefix(40);
                let swept = self.rested().after(rapid, 40);
                assert(swept.after(last, 0) == swept);
                assert(swept.after(last, 1) == swept.step(last[0]));
                assert(button_cell(Button::ControlButton { index: 0 }) == Some(0int));
                assert(rapid_position(0) == 72);
                assert(w.flushed =~= swept.flushed);
            }
        }
    }

    /// The list of changes below `n` names dirty cells below `n`, names
    /// each of them, and names them in rising order.
    pub proof fn lemma_changes_below(self, n: int)
        requires
            0 <= n <= 81,
        ensures
            self.changes_below(n).len() <= n,
            forall|j: int|
                0 <= j < self.changes_below(n).len() ==> 0 <= #[trigger] self.changes_below(n)[j]
                    < n && self.dirty(self.changes_below(n)[j]),
            forall|i: int|
                0 <= i < n && self.dirty(i) ==> exists|j: int|
                    0 <= j < self.changes_below(n).len() && #[trigger] self.changes_below(n)[j]
                        == i,
            forall|a: int, b: int|
                0 <= a < b < self.changes_below(n).len() ==> #[trigger] self.changes_below(n)[a]
                    < #[trigger] self.changes_below(n)[b],
        decreases n,
    {
        if n > 0 {
            self.lemma_changes_below(n - 1);
            let before = self.changes_below(n - 1);
            let now = self.changes_below(n);
            if self.dirty(n - 1) {
                assert(now[before.len() as int] == n - 1);
                assert forall|i: int| 0 <= i < n && self.dirty(i) implies exists|j: int|
                    0 <= j < now.len() && #[trigger] now[j] == i by {
                    if i < n - 1 {
                        let j = choose|j: int| 0 <= j < before.len() && #[trigger] before[j] == i;
                        assert(now[j] == i);
                    }
                }
            } else {
                assert forall|i: int| 0 <= i < n && self.dirty(i) implies exists|j: int|
                    0 <= j < now.len() && #[trigger] now[j] == i by {
                    let j = choose|j: int| 0 <= j < before.len() && #[trigger] before[j] == i;
                    assert(now[j] == i);
                }
            }
        }
    }
}

} // verus!
