//! Branch predictors: static not-taken and a bimodal two-bit counter table.

use vstd::prelude::*;

verus! {

/// Prediction output consumed by the front end.
#[derive(Debug, Clone, Copy, PartialEq, Eq, Structural)]
pub struct BranchPrediction {
    pub taken: bool,
    pub target: u32,
}

/// Shared interface of branch predictors.
pub trait BranchPredictor {
    /// A prediction always redirects to `target` when taken and falls through otherwise.
    fn predict(&self, pc: u32, fallthrough: u32, target: u32) -> (p: BranchPrediction)
        ensures
            p.target == (if p.taken { target } else { fallthrough }),
    ;

    fn update(&mut self, pc: u32, taken: bool);
}

/// Always predict not-taken.
#[derive(Debug, Clone, Copy, Default, PartialEq, Eq)]
pub struct AlwaysNotTaken;

impl BranchPredictor for AlwaysNotTaken {
    fn predict(&self, pc: u32, fallthrough: u32, target: u32) -> (p: BranchPrediction)
        ensures
            p == (BranchPrediction { taken: false, target: fallthrough }),
    {
        BranchPrediction { taken: false, target: fallthrough }
    }

    fn update(&mut self, pc: u32, taken: bool) {
    }
}

/// The next value of a two-bit saturating counter after a branch outcome.
pub open spec fn counter_step(counter: u8, taken: bool) -> u8 {
    if counter > 3 {
        1
    } else if taken {
        if counter == 3 { 3 } else { (counter + 1) as u8 }
    } else {
        if counter == 0 { 0 } else { (counter - 1) as u8 }
    }
}

/// A direct-mapped table of two-bit saturating counters indexed by `pc / 4`.
#[derive(Debug, PartialEq, Eq)]
pub struct BimodalPredictor {
    table: Vec<u8>,
}

impl View for BimodalPredictor {
    type V = Seq<u8>;

    closed spec fn view(&self) -> Seq<u8> {
        self.table@
    }
}

/// The counter slot that predicts the branch at `pc`.
pub open spec fn slot_of(pc: u32, len: nat) -> int {
    ((pc >> 2) as int) % (len as int)
}

impl BimodalPredictor {
    #[verifier::type_invariant]
    spec fn inv(self) -> bool {
        &&& self.table@.len() > 0
        &&& forall|i: int| 0 <= i < self.table@.len() ==> #[trigger] self.table@[i] <= 3
    }

    /// A table of `entries` counters (at least one), each weakly not-taken.
    pub fn new(entries: usize) -> (p: Self)
        ensures
            p@ == Seq::new(if entries == 0 { 1 } else { entries as nat }, |i: int| 1u8),
    {
        let n = if entries == 0 { 1 } else { entries };
        let mut table: Vec<u8> = Vec::new();
        let mut i: usize = 0;
        while i < n
            invariant
                i <= n,
                table@ == Seq::new(i as nat, |k: int| 1u8),
            decreases n - i,
        {
            table.push(1);
            i = i + 1;
        }
        assert(table@ =~= Seq::new(n as nat, |k: int| 1u8));
        BimodalPredictor { table }
    }

    fn index(&self, pc: u32) -> (i: usize)
        ensures
            i == slot_of(pc, self@.len()),
            i < self@.len(),
    {
        proof {
            use_type_invariant(self);
        }
        ((pc >> 2) as usize) % self.table.len()
    }
}

impl Default for BimodalPredictor {
    fn default() -> (p: Self)
        ensures
            p@ == Seq::new(64, |i: int| 1u8),
    {
        BimodalPredictor::new(64)
    }
}

impl BranchPredictor for BimodalPredictor {
    /// Predict taken when the branch's counter is 2 or 3.
    fn predict(&self, pc: u32, fallthrough: u32, target: u32) -> (p: BranchPrediction)
        ensures
            p.taken == (self@[slot_of(pc, self@.len())] >= 2),
            p.target == (if p.taken { target } else { fallthrough }),
    {
        let counter = self.table[self.index(pc)];
        let taken = counter >= 2;
        BranchPrediction { taken, target: if taken { target } else { fallthrough } }
    }

    /// Move the branch's counter one step towards the outcome, saturating at 0 and 3.
    fn update(&mut self, pc: u32, taken: bool)
        ensures
            final(self)@ == old(self)@.update(
                slot_of(pc, old(self)@.len()),
                counter_step(old(self)@[slot_of(pc, old(self)@.len())], taken),
            ),
    {
        proof {
            use_type_invariant(&*self);
        }
        let index = self.index(pc);
        let entry = self.table[index];
        let next = if entry > 3 {
            1
        } else if taken {
            if entry == 3 { 3 } else { entry + 1 }
        } else {
            if entry == 0 { 0 } else { entry - 1 }
        };
        let mut current = BimodalPredictor { table: vec![1u8] };
        std::mem::swap(self, &mut current);
        let BimodalPredictor { table: mut table } = current;
        table.set(index, next);
        *self = BimodalPredictor { table };
    }
}

/// Two taken outcomes in a row make any counter predict taken, and two
/// not-taken outcomes make it predict not-taken.
pub proof fn two_updates_decide_prediction(counter: u8)
    requires
        counter <= 3,
    ensures
        counter_step(counter_step(counter, true), true) >= 2,
        counter_step(counter_step(counter, false), false) < 2,
{
}

} // verus!
