use vstd::prelude::*;

use crate::clock::now_millis;
use crate::detector::OpportunitySignal;
use crate::detector::detect;
use crate::detector::first_min_idx;
use crate::detector::has_two_venues;
use crate::detector::lemma_first_min_idx_bounds;
use crate::detector::spec_detect;
use crate::executor::OrderRequest;
use crate::executor::TradeExecution;
use crate::history::PriceHistory;
use crate::observation::FetchOutcome;
use crate::observation::ObsModel;
use crate::observation::PriceObservation;
use crate::observation::VenueFetch;
use crate::observation::models;
use crate::venue::DexClient;

verus! {

/// The fetches of one cycle that passed validation, in arrival order:
/// exactly those whose outcome is a strictly positive price.
pub open spec fn valid_fetches(rs: Seq<VenueFetch>) -> Seq<VenueFetch>
    decreases rs.len(),
{
    if rs.len() == 0 {
        Seq::empty()
    } else {
        let rest = valid_fetches(rs.drop_last());
        if rs.last().outcome.spec_is_valid() {
            rest.push(rs.last())
        } else {
            rest
        }
    }
}

/// How many of one cycle's fetches passed validation.
pub open spec fn valid_count(rs: Seq<VenueFetch>) -> nat
    decreases rs.len(),
{
    if rs.len() == 0 {
        0
    } else {
        valid_count(rs.drop_last()) + if rs.last().outcome.spec_is_valid() {
            1nat
        } else {
            0nat
        }
    }
}

/// The observation records this fetch for this pair: same venue, the
/// fetched price, and a price that passed validation.
pub open spec fn fetch_recorded(o: ObsModel, f: VenueFetch, pair: Seq<char>) -> bool {
    &&& o.venue == f.venue@
    &&& o.pair == pair
    &&& f.outcome matches FetchOutcome::Price(p) && o.price == p
    &&& o.price > 0
}

proof fn lemma_valid_fetches_take_step(rs: Seq<VenueFetch>, k: int)
    requires
        0 <= k < rs.len(),
    ensures
        valid_fetches(rs.take(k + 1)) == (if rs[k].outcome.spec_is_valid() {
            valid_fetches(rs.take(k)).push(rs[k])
        } else {
            valid_fetches(rs.take(k))
        }),
{
    assert(rs.take(k + 1).drop_last() =~= rs.take(k));
    assert(rs.take(k + 1).last() == rs[k]);
}

/// A cycle in which every venue failed (or returned an invalid value)
/// yields no valid fetch at all, so nothing is returned and nothing is
/// appended to the history.
pub proof fn lemma_all_failures_record_nothing(rs: Seq<VenueFetch>)
    requires
        forall|i: int| 0 <= i < rs.len() ==> !(#[trigger] rs[i]).outcome.spec_is_valid(),
    ensures
        valid_fetches(rs).len() == 0,
    decreases rs.len(),
{
    if rs.len() > 0 {
        assert(forall|i: int|
            0 <= i < rs.drop_last().len() ==> #[trigger] rs.drop_last()[i] == rs[i]);
        lemma_all_failures_record_nothing(rs.drop_last());
    }
}

/// A cycle with k valid fetches among any number of failures, in any
/// interleaving, yields exactly k observations (and so k new history
/// entries).
pub proof fn lemma_poll_counts(rs: Seq<VenueFetch>)
    ensures
        valid_fetches(rs).len() == valid_count(rs),
    decreases rs.len(),
{
    if rs.len() > 0 {
        lemma_poll_counts(rs.drop_last());
    }
}

/// The arbitrage core: the configured venue handles, the shared price
/// history, and the profit threshold as the fraction
/// `threshold_num / threshold_den`.
pub struct ArbitrageBot {
    pub venues: Vec<DexClient>,
    pub history: PriceHistory,
    pub threshold_num: u64,
    pub threshold_den: u64,
}

impl ArbitrageBot {
    pub open spec fn wf(self) -> bool {
        self.threshold_den > 0 && self.history.wf()
    }

    /// Three configured venues, an empty history, and the default
    /// half-percent profit threshold.
    pub fn new() -> (bot: Self)
        ensures
            bot.wf(),
            bot.venues@.len() == 3,
            bot.venues@[0].name@ == "DEX1"@,
            bot.venues@[1].name@ == "DEX2"@,
            bot.venues@[2].name@ == "DEX3"@,
            bot.history@ == Seq::<ObsModel>::empty(),
            bot.threshold_num == 5,
            bot.threshold_den == 1000,
    {
        let mut venues: Vec<DexClient> = Vec::new();
        venues.push(DexClient::new("DEX1"));
        venues.push(DexClient::new("DEX2"));
        venues.push(DexClient::new("DEX3"));
        ArbitrageBot {
            venues,
            history: PriceHistory::new(),
            threshold_num: 5,
            threshold_den: 1000,
        }
    }

    /// Merges one cycle's terminal fetch results: every fetch that passed
    /// validation becomes an observation, returned in arrival order and
    /// appended, in the same order, at the end of the history; failed and
    /// invalid fetches leave no trace there. Venues and threshold are
    /// untouched.
    pub fn record_poll(&mut self, pair: &str, results: &Vec<VenueFetch>) -> (obs: Vec<
        PriceObservation,
    >)
        ensures
            final(self).venues == old(self).venues,
            final(self).threshold_num == old(self).threshold_num,
            final(self).threshold_den == old(self).threshold_den,
            obs@.len() == valid_fetches(results@).len(),
            forall|i: int|
                0 <= i < obs@.len() ==> fetch_recorded(
                    (#[trigger] obs@[i])@,
                    valid_fetches(results@)[i],
                    pair@,
                ),
            final(self).history@ == old(self).history@ + models(obs@),
            obs@.len() == 0 ==> final(self).history@ == old(self).history@,
            old(self).history.wf() ==> final(self).history.wf(),
    {
        let n = results.len();
        let mut obs: Vec<PriceObservation> = Vec::new();
        let mut k: usize = 0;
        while k < n
            invariant
                k <= n,
                n == results@.len(),
                obs@.len() == valid_fetches(results@.take(k as int)).len(),
                forall|i: int|
                    0 <= i < obs@.len() ==> fetch_recorded(
                        (#[trigger] obs@[i])@,
                        valid_fetches(results@.take(k as int))[i],
                        pair@,
                    ),
                self.venues == old(self).venues,
                self.threshold_num == old(self).threshold_num,
                self.threshold_den == old(self).threshold_den,
                self.history@ == old(self).history@ + models(obs@),
                old(self).history.wf() ==> self.history.wf(),
            decreases n - k,
        {
            proof {
                lemma_valid_fetches_take_step(results@, k as int);
            }
            match results[k].outcome {
                FetchOutcome::Price(p) => {
                    if p > 0 {
                        let observed_at = now_millis();
                        let o = PriceObservation {
                            venue: results[k].venue.clone(),
                            pair: pair.to_owned(),
                            price: p,
                            observed_at,
                        };
                        let copy = PriceObservation {
                            venue: o.venue.clone(),
                            pair: o.pair.clone(),
                            price: o.price,
                            observed_at: o.observed_at,
                        };
                        proof {
                            assert(copy == o);
                        }
                        self.history.append(copy);
                        obs.push(o);
                        proof {
                            assert(models(obs@) =~= models(obs@.drop_last()).push(o@));
                            assert(self.history@ =~= old(self).history@ + models(obs@));
                        }
                    }
                },
                FetchOutcome::Failed => {},
            }
            k += 1;
        }
        proof {
            assert(results@.take(n as int) =~= results@);
            if obs@.len() == 0 {
                assert(models(obs@) =~= Seq::<ObsModel>::empty());
                assert(old(self).history@ + models(obs@) =~= old(self).history@);
            }
        }
        obs
    }

    /// Detection over one cycle's observations at the configured threshold;
    /// pure, reads nothing but its arguments.
    pub fn check_arbitrage_opportunity(&self, prices: &Vec<PriceObservation>) -> (r: Option<
        OpportunitySignal,
    >)
        requires
            self.wf(),
            forall|i: int| 0 <= i < prices@.len() ==> (#[trigger] prices@[i]).price > 0,
        ensures
            ({
                let m = spec_detect(models(prices@), self.threshold_num, self.threshold_den);
                match r {
                    Some(sig) => m == Some(sig@),
                    None => m is None,
                }
            }),
    {
        detect(prices, self.threshold_num, self.threshold_den)
    }

    /// Begins the trade pair for a detected signal against the configured
    /// venues: both identifiers are resolved first, and the buy order comes
    /// strictly before any sell.
    pub fn start_trade(
        &self,
        buy_venue: String,
        sell_venue: String,
        pair: String,
        amount: i64,
    ) -> (r: (TradeExecution, Option<OrderRequest>))
        requires
            amount > 0,
        ensures
            r.0.wf(),
            r.0.buy_venue == buy_venue,
            r.0.sell_venue == sell_venue,
            r.0.pair == pair,
            r.0.amount == amount,
            crate::venue::spec_has_venue(self.venues@, buy_venue@) && crate::venue::spec_has_venue(
                self.venues@,
                sell_venue@,
            ) ==> r.0.phase is AwaitBuy && r.1 == Some(
                (OrderRequest { venue: buy_venue, pair: pair, signed_amount: amount }),
            ),
            !(crate::venue::spec_has_venue(self.venues@, buy_venue@)
                && crate::venue::spec_has_venue(self.venues@, sell_venue@)) ==> r.0.phase
                == crate::executor::ExecPhase::Done(
                Err(crate::executor::ExecError::VenueNotFound),
            ) && r.1 is None,
    {
        TradeExecution::start(&self.venues, buy_venue, sell_venue, pair, amount)
    }

    /// One cycle's decision after polling: detect at the configured
    /// threshold and, when a signal exists, begin the trade pair, sized by
    /// the signal's reference price — the cycle's minimum, hence positive.
    /// No signal means no action this cycle; a trade-pair outcome never
    /// reaches this decision, so a failed cycle cannot stop the next one.
    pub fn plan_cycle(&self, pair: &str, prices: &Vec<PriceObservation>) -> (r: Option<
        (TradeExecution, Option<OrderRequest>),
    >)
        requires
            self.wf(),
            forall|i: int| 0 <= i < prices@.len() ==> (#[trigger] prices@[i]).price > 0,
        ensures
            ({
                let m = spec_detect(models(prices@), self.threshold_num, self.threshold_den);
                match r {
                    None => m is None,
                    Some((exec, order)) => {
                        &&& m is Some
                        &&& exec.wf()
                        &&& exec.buy_venue@ == m.unwrap().buy_venue
                        &&& exec.sell_venue@ == m.unwrap().sell_venue
                        &&& exec.pair@ == pair@
                        &&& exec.amount == m.unwrap().reference_price
                        &&& (exec.phase is AwaitBuy <==> crate::venue::spec_has_venue(
                            self.venues@,
                            exec.buy_venue@,
                        ) && crate::venue::spec_has_venue(self.venues@, exec.sell_venue@))
                        &&& (exec.phase is AwaitBuy ==> (order matches Some(o) && o.venue
                            == exec.buy_venue && o.pair == exec.pair && o.signed_amount
                            == exec.amount))
                        &&& (!(exec.phase is AwaitBuy) ==> exec.phase
                            == crate::executor::ExecPhase::Done(
                            Err(crate::executor::ExecError::VenueNotFound),
                        ) && order is None)
                    },
                }
            }),
    {
        let signal = self.check_arbitrage_opportunity(prices);
        match signal {
            Some(sig) => {
                proof {
                    let s = models(prices@);
                    assert(has_two_venues(s));
                    let (wi, wj) = choose|i: int, j: int|
                        0 <= i < s.len() && 0 <= j < s.len() && s[i].venue != s[j].venue;
                    assert(s.len() > 0);
                    lemma_first_min_idx_bounds(s, s.len() as int);
                    assert(s[first_min_idx(s, s.len() as int)]
                        == prices@[first_min_idx(s, s.len() as int)]@);
                }
                let (exec, order) = self.start_trade(
                    sig.buy_venue,
                    sig.sell_venue,
                    pair.to_owned(),
                    sig.reference_price,
                );
                Some((exec, order))
            },
            None => None,
        }
    }
}

} // verus!
