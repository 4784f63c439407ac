use vstd::prelude::*;

use crate::venue::DexClient;
use crate::venue::has_venue;
use crate::venue::spec_has_venue;

verus! {

/// Why a trade pair did not complete. SellFailed means the buy already
/// settled, so the position is unhedged; it is reported distinctly and never
/// folded into BuyFailed.
#[derive(Clone, Copy, Debug, PartialEq, Eq, Structural)]
pub enum ExecError {
    VenueNotFound,
    BuyFailed,
    SellFailed,
}

/// An order for the surrounding process to submit to a venue's client. A
/// positive signed amount is a buy, a negative one a sell.
pub struct OrderRequest {
    pub venue: String,
    pub pair: String,
    pub signed_amount: i64,
}

/// Where a trade pair stands: waiting on the buy leg, waiting on the sell
/// leg, or finished with an outcome.
#[derive(Clone, Copy, Debug)]
pub enum ExecPhase {
    AwaitBuy,
    AwaitSell,
    Done(Result<(), ExecError>),
}

/// The trade-pair state machine. The surrounding process submits each
/// requested order, awaits it, and feeds the result back through
/// `on_result`; the machine decides every step, and it alone decides whether
/// a sell may be issued.
pub struct TradeExecution {
    pub phase: ExecPhase,
    pub buy_venue: String,
    pub sell_venue: String,
    pub pair: String,
    pub amount: i64,
}

impl TradeExecution {
    /// Trade sizes are strictly positive, so the negated sell amount is
    /// representable and unambiguous.
    pub open spec fn wf(self) -> bool {
        self.amount > 0
    }

    /// Validates both venue identifiers before any network action. An
    /// unresolvable identifier finishes the machine at once with
    /// VenueNotFound and no order; otherwise the buy order is issued first,
    /// strictly before any sell.
    pub fn start(
        venues: &Vec<DexClient>,
        buy_venue: String,
        sell_venue: String,
        pair: String,
        amount: i64,
    ) -> (r: (TradeExecution, Option<OrderRequest>))
        requires
            amount > 0,
        ensures
            r.0.wf(),
            r.0.buy_venue == buy_venue,
            r.0.sell_venue == sell_venue,
            r.0.pair == pair,
            r.0.amount == amount,
            spec_has_venue(venues@, buy_venue@) && spec_has_venue(venues@, sell_venue@)
                ==> r.0.phase is AwaitBuy && r.1 == Some(
                (OrderRequest { venue: buy_venue, pair: pair, signed_amount: amount }),
            ),
            !(spec_has_venue(venues@, buy_venue@) && spec_has_venue(venues@, sell_venue@))
                ==> r.0.phase == ExecPhase::Done(Err(ExecError::VenueNotFound)) && r.1 is None,
    {
        let buy_known = has_venue(venues, &buy_venue);
        let sell_known = has_venue(venues, &sell_venue);
        if buy_known && sell_known {
            let order = OrderRequest {
                venue: buy_venue.clone(),
                pair: pair.clone(),
                signed_amount: amount,
            };
            (
                TradeExecution { phase: ExecPhase::AwaitBuy, buy_venue, sell_venue, pair, amount },
                Some(order),
            )
        } else {
            (
                TradeExecution {
                    phase: ExecPhase::Done(Err(ExecError::VenueNotFound)),
                    buy_venue,
                    sell_venue,
                    pair,
                    amount,
                },
                None,
            )
        }
    }

    /// The outcome once the machine has finished, and nothing before that.
    pub open spec fn spec_outcome(self) -> Option<Result<(), ExecError>> {
        match self.phase {
            ExecPhase::Done(res) => Some(res),
            _ => None,
        }
    }

    pub fn outcome(&self) -> (r: Option<Result<(), ExecError>>)
        ensures
            r == self.spec_outcome(),
    {
        match self.phase {
            ExecPhase::Done(res) => Some(res),
            _ => None,
        }
    }

    /// Feeds the result of the outstanding order back in; `on_result` is the
    /// executable twin of this step function.
    pub open spec fn spec_step(e: TradeExecution, ok: bool) -> (TradeExecution, Option<
        OrderRequest,
    >) {
        match e.phase {
            ExecPhase::AwaitBuy => {
                if ok {
                    (
                        TradeExecution {
                            phase: ExecPhase::AwaitSell,
                            buy_venue: e.buy_venue,
                            sell_venue: e.sell_venue,
                            pair: e.pair,
                            amount: e.amount,
                        },
                        Some(
                            OrderRequest {
                                venue: e.sell_venue,
                                pair: e.pair,
                                signed_amount: (-(e.amount as int)) as i64,
                            },
                        ),
                    )
                } else {
                    (
                        TradeExecution {
                            phase: ExecPhase::Done(Err(ExecError::BuyFailed)),
                            buy_venue: e.buy_venue,
                            sell_venue: e.sell_venue,
                            pair: e.pair,
                            amount: e.amount,
                        },
                        None,
                    )
                }
            },
            ExecPhase::AwaitSell => {
                if ok {
                    (
                        TradeExecution {
                            phase: ExecPhase::Done(Ok(())),
                            buy_venue: e.buy_venue,
                            sell_venue: e.sell_venue,
                            pair: e.pair,
                            amount: e.amount,
                        },
                        None,
                    )
                } else {
                    (
                        TradeExecution {
                            phase: ExecPhase::Done(Err(ExecError::SellFailed)),
                            buy_venue: e.buy_venue,
                            sell_venue: e.sell_venue,
                            pair: e.pair,
                            amount: e.amount,
                        },
                        None,
                    )
                }
            },
            ExecPhase::Done(_) => (e, None),
        }
    }

    /// Applies one result. A failed buy finishes the machine with BuyFailed
    /// and issues nothing — the sell is never attempted; a successful buy
    /// issues the sell order with the negated amount; a sell result finishes
    /// the machine; a finished machine ignores events and issues nothing.
    pub fn on_result(&mut self, ok: bool) -> (next: Option<OrderRequest>)
        requires
            old(self).wf(),
        ensures
            final(self).wf(),
            (*final(self), next) == TradeExecution::spec_step(*old(self), ok),
    {
        match self.phase {
            ExecPhase::AwaitBuy => {
                if ok {
                    self.phase = ExecPhase::AwaitSell;
                    Some(
                        OrderRequest {
                            venue: self.sell_venue.clone(),
                            pair: self.pair.clone(),
                            signed_amount: -self.amount,
                        },
                    )
                } else {
                    self.phase = ExecPhase::Done(Err(ExecError::BuyFailed));
                    None
                }
            },
            ExecPhase::AwaitSell => {
                if ok {
                    self.phase = ExecPhase::Done(Ok(()));
                } else {
                    self.phase = ExecPhase::Done(Err(ExecError::SellFailed));
                }
                None
            },
            ExecPhase::Done(_) => None,
        }
    }
}

/// Every order the machine issues when fed this sequence of results, in
/// order of issue.
pub open spec fn emitted_orders(e: TradeExecution, rs: Seq<bool>) -> Seq<OrderRequest>
    decreases rs.len(),
{
    if rs.len() == 0 {
        Seq::empty()
    } else {
        let step = TradeExecution::spec_step(e, rs[0]);
        let head = match step.1 {
            Some(o) => seq![o],
            None => Seq::<OrderRequest>::empty(),
        };
        head + emitted_orders(step.0, rs.drop_first())
    }
}

/// A finished machine never issues another order, whatever results arrive.
pub proof fn lemma_done_emits_nothing(e: TradeExecution, rs: Seq<bool>)
    requires
        e.phase is Done,
    ensures
        emitted_orders(e, rs).len() == 0,
    decreases rs.len(),
{
    if rs.len() > 0 {
        lemma_done_emits_nothing(e, rs.drop_first());
    }
}

/// If the buy leg fails, the sell is never attempted: a machine awaiting its
/// buy result that receives a failure issues no order then, and none later,
/// whatever results still arrive.
pub proof fn lemma_no_order_after_buy_failure(e: TradeExecution, rs: Seq<bool>)
    requires
        e.phase is AwaitBuy,
        rs.len() > 0,
        rs[0] == false,
    ensures
        emitted_orders(e, rs).len() == 0,
{
    let step = TradeExecution::spec_step(e, rs[0]);
    lemma_done_emits_nothing(step.0, rs.drop_first());
}

} // verus!
