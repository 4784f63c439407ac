use vstd::prelude::*;

verus! {

/// Mathematical model of one price observation: the venue and pair as
/// character sequences, the price and timestamp as unbounded integers.
pub ghost struct ObsModel {
    pub venue: Seq<char>,
    pub pair: Seq<char>,
    pub price: int,
    pub observed_at: int,
}

/// One observed price from a venue. Prices are fixed-point integers in the
/// smallest currency unit; a well-formed observation has a strictly positive
/// price. The timestamp is milliseconds since the Unix epoch.
pub struct PriceObservation {
    pub venue: String,
    pub pair: String,
    pub price: i64,
    pub observed_at: i64,
}

impl View for PriceObservation {
    type V = ObsModel;

    open spec fn view(&self) -> ObsModel {
        ObsModel {
            venue: self.venue@,
            pair: self.pair@,
            price: self.price as int,
            observed_at: self.observed_at as int,
        }
    }
}

impl PriceObservation {
    /// An observation is valid when its price is strictly positive; the
    /// history never holds anything else.
    pub open spec fn valid(self) -> bool {
        self.price > 0
    }
}

/// The models of a sequence of observations, element by element.
pub open spec fn models(v: Seq<PriceObservation>) -> Seq<ObsModel> {
    v.map_values(|o: PriceObservation| o@)
}

/// The terminal state of one venue's price fetch: a raw value (not yet
/// validated) or a failure. A timeout counts as a failure.
pub enum FetchOutcome {
    Price(i64),
    Failed,
}

/// One venue's result for a polling cycle, as handed back by its client.
pub struct VenueFetch {
    pub venue: String,
    pub outcome: FetchOutcome,
}

impl FetchOutcome {
    /// A fetched value is usable only when it is strictly positive; a
    /// non-positive value is treated exactly like a failed fetch.
    pub open spec fn spec_is_valid(self) -> bool {
        match self {
            FetchOutcome::Price(p) => p > 0,
            FetchOutcome::Failed => false,
        }
    }

    pub fn is_valid(&self) -> (r: bool)
        ensures
            r == self.spec_is_valid(),
    {
        match self {
            FetchOutcome::Price(p) => *p > 0,
            FetchOutcome::Failed => false,
        }
    }
}

} // verus!
