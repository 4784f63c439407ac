use vstd::prelude::*;

use crate::observation::ObsModel;
use crate::observation::PriceObservation;
use crate::observation::models;

verus! {

/// Mathematical model of an opportunity signal.
pub ghost struct SignalModel {
    pub buy_venue: Seq<char>,
    pub sell_venue: Seq<char>,
    pub reference_price: int,
}

/// A detected arbitrage opportunity: buy on the cheapest venue, sell on the
/// most expensive one. The reference price is the minimum price of the
/// cycle; it doubles as the trade size downstream.
pub struct OpportunitySignal {
    pub buy_venue: String,
    pub sell_venue: String,
    pub reference_price: i64,
}

impl View for OpportunitySignal {
    type V = SignalModel;

    open spec fn view(&self) -> SignalModel {
        SignalModel {
            buy_venue: self.buy_venue@,
            sell_venue: self.sell_venue@,
            reference_price: self.reference_price as int,
        }
    }
}

/// At least two distinct venues appear among the observations.
pub open spec fn has_two_venues(s: Seq<ObsModel>) -> bool {
    exists|i: int, j: int| 0 <= i < s.len() && 0 <= j < s.len() && s[i].venue != s[j].venue
}

/// Index of the cheapest observation among the first `n`; a tie keeps the
/// first-encountered index (scan order is input order).
pub open spec fn first_min_idx(s: Seq<ObsModel>, n: int) -> int
    recommends
        1 <= n <= s.len(),
    decreases n,
{
    if n <= 1 {
        0
    } else if s[n - 1].price < s[first_min_idx(s, n - 1)].price {
        n - 1
    } else {
        first_min_idx(s, n - 1)
    }
}

/// Index of the most expensive observation among the first `n`; a tie keeps
/// the first-encountered index.
pub open spec fn first_max_idx(s: Seq<ObsModel>, n: int) -> int
    recommends
        1 <= n <= s.len(),
    decreases n,
{
    if n <= 1 {
        0
    } else if s[n - 1].price > s[first_max_idx(s, n - 1)].price {
        n - 1
    } else {
        first_max_idx(s, n - 1)
    }
}

/// The relative spread (max - min) / min strictly exceeds num / den, written
/// without division: (max - min) * den > min * num.
pub open spec fn margin_exceeds(min_price: int, max_price: int, num: u64, den: u64) -> bool {
    (max_price - min_price) * den > min_price * num
}

/// What detection returns: a signal exactly when at least two distinct
/// venues are present and the spread strictly exceeds the threshold; the
/// signal names the first-encountered minimum and maximum venues and carries
/// the minimum price.
pub open spec fn spec_detect(s: Seq<ObsModel>, num: u64, den: u64) -> Option<SignalModel> {
    if !has_two_venues(s) {
        None
    } else {
        let mi = first_min_idx(s, s.len() as int);
        let ma = first_max_idx(s, s.len() as int);
        if margin_exceeds(s[mi].price, s[ma].price, num, den) {
            Some(
                SignalModel {
                    buy_venue: s[mi].venue,
                    sell_venue: s[ma].venue,
                    reference_price: s[mi].price,
                },
            )
        } else {
            None
        }
    }
}

pub proof fn lemma_first_min_idx_bounds(s: Seq<ObsModel>, n: int)
    requires
        1 <= n <= s.len(),
    ensures
        0 <= first_min_idx(s, n) < n,
        forall|i: int| 0 <= i < n ==> s[first_min_idx(s, n)].price <= #[trigger] s[i].price,
    decreases n,
{
    if n > 1 {
        lemma_first_min_idx_bounds(s, n - 1);
    }
}

pub proof fn lemma_first_max_idx_bounds(s: Seq<ObsModel>, n: int)
    requires
        1 <= n <= s.len(),
    ensures
        0 <= first_max_idx(s, n) < n,
        forall|i: int| 0 <= i < n ==> s[first_max_idx(s, n)].price >= #[trigger] s[i].price,
    decreases n,
{
    if n > 1 {
        lemma_first_max_idx_bounds(s, n - 1);
    }
}

/// With a non-empty input, two distinct venues exist exactly when some later
/// observation names a venue other than the first one.
proof fn lemma_two_venues_from_first(s: Seq<ObsModel>)
    requires
        s.len() > 0,
    ensures
        has_two_venues(s) <==> exists|i: int| 0 < i < s.len() && (#[trigger] s[i]).venue != s[0].venue,
{
    if has_two_venues(s) {
        let (i, j) = choose|i: int, j: int|
            0 <= i < s.len() && 0 <= j < s.len() && s[i].venue != s[j].venue;
        if s[i].venue != s[0].venue {
            assert(0 < i < s.len() && s[i].venue != s[0].venue);
        } else {
            assert(0 < j < s.len() && s[j].venue != s[0].venue);
        }
    }
    if exists|i: int| 0 < i < s.len() && (#[trigger] s[i]).venue != s[0].venue {
        let i = choose|i: int| 0 < i < s.len() && (#[trigger] s[i]).venue != s[0].venue;
        assert(0 <= 0 < s.len() && 0 <= i < s.len() && s[0].venue != s[i].venue);
    }
}

/// Single linear scan over one cycle's observations. Returns a signal
/// exactly when at least two distinct venues are present and the relative
/// spread strictly exceeds `threshold_num / threshold_den`; the signal's buy
/// venue is the first-encountered minimum, its sell venue the
/// first-encountered maximum, and its reference price the minimum price.
/// Pure: no I/O, no shared state.
pub fn detect(observations: &Vec<PriceObservation>, threshold_num: u64, threshold_den: u64) -> (r:
    Option<OpportunitySignal>)
    requires
        threshold_den > 0,
        forall|i: int|
            0 <= i < observations@.len() ==> (#[trigger] observations@[i]).price > 0,
    ensures
        ({
            let m = spec_detect(models(observations@), threshold_num, threshold_den);
            match r {
                Some(sig) => m == Some(sig@),
                None => m is None,
            }
        }),
{
    let ghost s = models(observations@);
    proof {
        assert(forall|i: int| 0 <= i < s.len() ==> #[trigger] s[i] == observations@[i]@);
    }
    let n = observations.len();
    if n == 0 {
        return None;
    }
    let mut two = false;
    let mut k: usize = 1;
    while k < n
        invariant
            1 <= k <= n,
            n == observations@.len(),
            s == models(observations@),
            forall|i: int| 0 <= i < s.len() ==> #[trigger] s[i] == observations@[i]@,
            two == exists|i: int| 0 < i < k && (#[trigger] s[i]).venue != s[0].venue,
        decreases n - k,
    {
        if observations[k].venue != observations[0].venue {
            two = true;
            proof {
                assert(0 < k < k + 1 && s[k as int].venue != s[0].venue);
            }
        }
        k += 1;
    }
    proof {
        lemma_two_venues_from_first(s);
    }
    if !two {
        return None;
    }
    let mut mi: usize = 0;
    let mut ma: usize = 0;
    let mut j: usize = 1;
    while j < n
        invariant
            1 <= j <= n,
            n == observations@.len(),
            s == models(observations@),
            forall|i: int| 0 <= i < s.len() ==> #[trigger] s[i] == observations@[i]@,
            mi < j,
            ma < j,
            mi as int == first_min_idx(s, j as int),
            ma as int == first_max_idx(s, j as int),
        decreases n - j,
    {
        if observations[j].price < observations[mi].price {
            mi = j;
        }
        if observations[j].price > observations[ma].price {
            ma = j;
        }
        j += 1;
    }
    let min_price = observations[mi].price;
    let max_price = observations[ma].price;
    proof {
        lemma_first_min_idx_bounds(s, n as int);
        lemma_first_max_idx_bounds(s, n as int);
        assert(s[ma as int].price >= s[mi as int].price);
    }
    let diff = max_price - min_price;
    proof {
        assert((diff as int) * (threshold_den as int) < 0x8000_0000_0000_0000_0000_0000_0000_0000int)
            by (nonlinear_arith)
            requires
                0 <= (diff as int) && (diff as int) < 0x8000_0000_0000_0000int,
                0 <= (threshold_den as int) && (threshold_den as int)
                    < 0x1_0000_0000_0000_0000int,
        ;
        assert((min_price as int) * (threshold_num as int)
            < 0x8000_0000_0000_0000_0000_0000_0000_0000int) by (nonlinear_arith)
            requires
                0 < (min_price as int) && (min_price as int) < 0x8000_0000_0000_0000int,
                0 <= (threshold_num as int) && (threshold_num as int)
                    < 0x1_0000_0000_0000_0000int,
        ;
    }
    let lhs: i128 = (diff as i128) * (threshold_den as i128);
    let rhs: i128 = (min_price as i128) * (threshold_num as i128);
    if lhs > rhs {
        let sig = OpportunitySignal {
            buy_venue: observations[mi].venue.clone(),
            sell_venue: observations[ma].venue.clone(),
            reference_price: min_price,
        };
        Some(sig)
    } else {
        None
    }
}

/// Invariant of every produced signal: when the observations name pairwise
/// distinct venues (as one polling cycle does, one observation per venue),
/// the buy venue and the sell venue of any detected signal differ, and the
/// price observed at the buy venue is strictly below the one at the sell
/// venue.
pub proof fn lemma_signal_venues_differ(s: Seq<ObsModel>, num: u64, den: u64)
    requires
        den > 0,
        forall|i: int| 0 <= i < s.len() ==> (#[trigger] s[i]).price > 0,
        forall|i: int, j: int| 0 <= i < j < s.len() ==> s[i].venue != s[j].venue,
        spec_detect(s, num, den) is Some,
    ensures
        spec_detect(s, num, den).unwrap().buy_venue != spec_detect(s, num, den).unwrap().sell_venue,
        s[first_min_idx(s, s.len() as int)].price < s[first_max_idx(s, s.len() as int)].price,
{
    let mi = first_min_idx(s, s.len() as int);
    let ma = first_max_idx(s, s.len() as int);
    lemma_first_min_idx_bounds(s, s.len() as int);
    lemma_first_max_idx_bounds(s, s.len() as int);
    assert(margin_exceeds(s[mi].price, s[ma].price, num, den));
    assert(s[mi].price < s[ma].price) by (nonlinear_arith)
        requires
            (s[ma].price - s[mi].price) * den > s[mi].price * num,
            den > 0,
            num >= 0,
            s[mi].price > 0,
            s[ma].price >= s[mi].price,
    ;
    assert(mi != ma);
    if mi < ma {
        assert(s[mi].venue != s[ma].venue);
    } else {
        assert(s[ma].venue != s[mi].venue);
    }
}

} // verus!

