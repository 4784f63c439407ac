use vstd::prelude::*;

use crate::observation::ObsModel;
use crate::observation::PriceObservation;

verus! {

/// Append-only log of validated price observations. Insertion order is
/// arrival order. One append adds exactly one entry and touches nothing
/// else, so a writer that holds exclusive access for the span of a call
/// loses no update. The surrounding process supplies that exclusion (a
/// mutex around the whole history); the log itself never drops, reorders
/// or rewrites entries.
pub struct PriceHistory {
    entries: Vec<PriceObservation>,
}

impl View for PriceHistory {
    type V = Seq<ObsModel>;

    closed spec fn view(&self) -> Seq<ObsModel> {
        self.entries@.map_values(|o: PriceObservation| o@)
    }
}

impl PriceHistory {
    /// Every recorded observation has a strictly positive price: only
    /// values that passed validation are ever appended.
    pub open spec fn wf(self) -> bool {
        forall|i: int| 0 <= i < self@.len() ==> #[trigger] self@[i].price > 0
    }

    pub fn new() -> (h: Self)
        ensures
            h@ == Seq::<ObsModel>::empty(),
            h.wf(),
    {
        let h = PriceHistory { entries: Vec::new() };
        proof {
            assert(h@ =~= Seq::<ObsModel>::empty());
        }
        h
    }

    /// Appends one observation at the end; every earlier entry is kept
    /// unchanged, so no concurrent-turned-sequential append is ever lost.
    pub fn append(&mut self, obs: PriceObservation)
        requires
            obs.valid(),
        ensures
            final(self)@ == old(self)@.push(obs@),
            old(self).wf() ==> final(self).wf(),
    {
        self.entries.push(obs);
        proof {
            assert(self@ =~= old(self)@.push(obs@));
        }
    }

    pub fn len(&self) -> (n: usize)
        ensures
            n == self@.len(),
    {
        self.entries.len()
    }

    pub fn get(&self, i: usize) -> (o: &PriceObservation)
        requires
            i < self@.len(),
        ensures
            o@ == self@[i as int],
    {
        &self.entries[i]
    }
}

} // verus!
