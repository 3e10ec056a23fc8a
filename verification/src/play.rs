use crate::bar::{dataset_all_finite, dataset_prices_wf, DatasetRef, Bar, MAX_PRICE};
use crate::config::{IterationConfig, MAX_FEE, MAX_MULTIPLIER, MAX_PENALTY_BPS};
use crate::model_type::{ModelAction, ModelSide, ModelType};
use crate::ratio::Ratio;
use crate::utility::Utility;
use vstd::prelude::*;

verus! {

/// A request for one model prediction: which bar to evaluate and with
/// which model variant.
#[derive(Debug, Clone, Copy, PartialEq, Eq, Structural)]
pub struct InferenceRequest {
    pub bar_index: usize,
    pub model_type: ModelType,
}

/// One simulated trade episode against the shared historical dataset.
///
/// The episode starts at a random bar, repeatedly asks its side's closing
/// model whether carrying on is still favorable, and finishes on an
/// unfavorable or invalid prediction, at the horizon, or at the dataset
/// end. A play that received an invalid prediction, or that found no
/// valid start bar, is `failed`: it yields no training sample.
pub struct Play {
    pub fee: i64,
    pub multiplier: i64,
    pub utility_penalty_bps: i64,
    pub max_play_duration_in_bars: usize,
    pub dataset: DatasetRef,
    pub trained_model_type: ModelType,
    pub closing_model_type: ModelType,
    pub start_index: usize,
    pub current_index: usize,
    pub finished: bool,
    pub failed: bool,
}

/// Index of the first bar at or after `i` whose feature point is finite,
/// or the dataset length if no such bar exists.
pub open spec fn next_finite_index(bars: Seq<Bar>, i: int) -> int
    decreases bars.len() - i,
{
    if i >= bars.len() {
        bars.len() as int
    } else if bars[i].point_is_finite {
        i
    } else {
        next_finite_index(bars, i + 1)
    }
}

impl Play {
    /// Episode invariant. The bound on the elapsed length holds on datasets
    /// without missing data; runs of non-finite bars are skipped without a
    /// horizon check, exactly as the episode semantics demand.
    pub open spec fn wf(self) -> bool {
        &&& self.dataset@.len() >= 11
        &&& dataset_prices_wf(self.dataset@)
        &&& 1 <= self.multiplier <= MAX_MULTIPLIER
        &&& 0 <= self.fee <= MAX_FEE
        &&& -MAX_PENALTY_BPS <= self.utility_penalty_bps <= MAX_PENALTY_BPS
        &&& self.start_index < self.dataset@.len()
        &&& self.start_index < self.current_index <= self.dataset@.len()
        &&& self.closing_model_type == ModelType {
            side: self.trained_model_type.side,
            action: ModelAction::Closing,
        }
        &&& (dataset_all_finite(self.dataset@) ==> self.current_index - self.start_index
            <= self.max_play_duration_in_bars + 1)
    }

    /// The fields fixed at creation agree between the two states.
    pub open spec fn same_setup(self, t: Play) -> bool {
        &&& t.fee == self.fee
        &&& t.multiplier == self.multiplier
        &&& t.utility_penalty_bps == self.utility_penalty_bps
        &&& t.max_play_duration_in_bars == self.max_play_duration_in_bars
        &&& t.dataset == self.dataset
        &&& t.trained_model_type == self.trained_model_type
        &&& t.closing_model_type == self.closing_model_type
        &&& t.start_index == self.start_index
    }

    /// Create an episode for one model variant. The start bar is drawn
    /// uniformly from the first `len - 10` bars, then moved forward past
    /// bars with non-finite feature points; if that scan reaches the
    /// dataset end the episode is created already finished (a failed play
    /// that yields no sample).
    pub fn new(config: &IterationConfig, dataset: DatasetRef, trained_model_type: ModelType) -> (r:
        Play)
        requires
            config.wf(),
            dataset@.len() >= 11,
            dataset_prices_wf(dataset@),
        ensures
            r.wf(),
            r.dataset == dataset,
            r.fee == config.fee_per_contract_usd,
            r.multiplier == config.multiplier,
            r.utility_penalty_bps == config.utility_penalty_bps,
            r.max_play_duration_in_bars == config.max_play_duration_in_bars,
            r.trained_model_type == trained_model_type,
            r.closing_model_type == (ModelType {
                side: trained_model_type.side,
                action: ModelAction::Closing,
            }),
            r.current_index == r.start_index + 1,
            r.failed == r.finished,
            !r.finished ==> dataset@[r.start_index as int].point_is_finite,
            r.finished ==> (forall|i: int|
                r.start_index <= i < dataset@.len() ==> !(#[trigger] dataset@[i]).point_is_finite),
            (exists|s0: int|
                0 <= s0 < dataset@.len() - 10 && (r.finished <==> next_finite_index(dataset@, s0)
                    == dataset@.len()) && (r.finished ==> r.start_index == s0) && (!r.finished
                    ==> r.start_index == next_finite_index(dataset@, s0))),
    {
        let dlen: usize = dataset.len();
        let s0: usize = crate::rng::random_below(dlen - 10);
        let mut idx: usize = s0;
        loop
            invariant_except_break
                s0 <= idx <= dlen,
                dlen == dataset@.len(),
                s0 < dlen,
                forall|i: int| s0 <= i < idx ==> !(#[trigger] dataset@[i]).point_is_finite,
                next_finite_index(dataset@, s0 as int) == next_finite_index(dataset@, idx as int),
            ensures
                s0 <= idx <= dlen,
                idx < dlen ==> dataset@[idx as int].point_is_finite,
                forall|i: int| s0 <= i < idx ==> !(#[trigger] dataset@[i]).point_is_finite,
                idx == next_finite_index(dataset@, s0 as int),
            decreases dlen - idx,
        {
            if idx >= dlen {
                proof {
                    assert(next_finite_index(dataset@, idx as int) == dlen);
                }
                break ;
            }
            let finite: bool = {
                let bars: &Vec<Bar> = &dataset;
                bars[idx].point_is_finite
            };
            if finite {
                proof {
                    assert(next_finite_index(dataset@, idx as int) == idx);
                }
                break ;
            }
            proof {
                assert(next_finite_index(dataset@, idx as int) == next_finite_index(
                    dataset@,
                    idx as int + 1,
                ));
            }
            idx = idx + 1;
        }
        let start_index: usize = if idx < dlen {
            idx
        } else {
            s0
        };
        let finished: bool = idx >= dlen;
        let result = Play {
            fee: config.fee_per_contract_usd,
            multiplier: config.multiplier,
            utility_penalty_bps: config.utility_penalty_bps,
            max_play_duration_in_bars: config.max_play_duration_in_bars as usize,
            dataset,
            trained_model_type,
            closing_model_type: trained_model_type.closing(),
            start_index,
            current_index: start_index + 1,
            finished,
            failed: finished,
        };
        proof {
            assert((s0 as int) < result.dataset@.len() - 10);
            assert(result.finished <==> next_finite_index(result.dataset@, s0 as int)
                == result.dataset@.len());
        }
        result
    }

    /// Elapsed length of the episode in bars.
    pub fn len(&self) -> (r: usize)
        requires
            self.wf(),
        ensures
            r == self.current_index - self.start_index,
    {
        self.current_index - self.start_index
    }

    pub fn is_finished(&self) -> (r: bool)
        ensures
            r == self.finished,
    {
        self.finished
    }

    /// The episode was discarded: it found no valid start bar or received
    /// a not-a-number prediction, and must yield no training sample.
    pub fn is_failed(&self) -> (r: bool)
        ensures
            r == self.failed,
    {
        self.failed
    }

    pub fn start_bar_index(&self) -> (r: usize)
        ensures
            r == self.start_index,
    {
        self.start_index
    }

    pub fn trained_model_type(&self) -> (r: ModelType)
        ensures
            r == self.trained_model_type,
    {
        self.trained_model_type
    }

    /// Move to the next bar that needs a prediction, or finish.
    ///
    /// Returns `None` and finishes when the play was already finished, when
    /// its elapsed length exceeds the horizon, or when the dataset is
    /// exhausted; bars with non-finite feature points are skipped, never
    /// handed to a model. Otherwise returns the pending request for the
    /// closing model of the trained side.
    pub fn advance_to_inference(&mut self) -> (r: Option<InferenceRequest>)
        requires
            old(self).wf(),
        ensures
            final(self).wf(),
            old(self).same_setup(*final(self)),
            final(self).failed == old(self).failed,
            final(self).current_index >= old(self).current_index,
            old(self).finished ==> r is None && *final(self) == *old(self),
            !old(self).finished && old(self).current_index - old(self).start_index > old(self).max_play_duration_in_bars ==> r is None && final(self).finished && final(self).current_index == old(self).current_index,
            !old(self).finished && old(self).current_index - old(self).start_index <= old(self).max_play_duration_in_bars ==> {
                let j = next_finite_index(old(self).dataset@, old(self).current_index as int);
                &&& final(self).current_index == j
                &&& (j < old(self).dataset@.len() ==> r == Some(
                    InferenceRequest {
                        bar_index: j as usize,
                        model_type: old(self).closing_model_type,
                    },
                ) && !final(self).finished)
                &&& (j == old(self).dataset@.len() ==> r is None && final(self).finished)
            },
            r matches Some(req) ==> {
                &&& !final(self).finished
                &&& final(self).current_index < final(self).dataset@.len()
                &&& final(self).dataset@[final(self).current_index as int].point_is_finite
                &&& (dataset_all_finite(final(self).dataset@) ==> final(self).current_index
                    - final(self).start_index <= final(self).max_play_duration_in_bars)
                &&& req.bar_index == final(self).current_index
                &&& req.model_type == final(self).closing_model_type
            },
    {
        if self.finished {
            return None;
        }
        let elapsed: usize = self.current_index - self.start_index;
        if elapsed > self.max_play_duration_in_bars {
            self.finished = true;
            return None;
        }
        let dlen: usize = self.dataset.len();
        let c0: usize = self.current_index;
        let mut cur: usize = c0;
        loop
            invariant_except_break
                c0 <= cur <= dlen,
                dlen == self.dataset@.len(),
                next_finite_index(self.dataset@, c0 as int) == next_finite_index(
                    self.dataset@,
                    cur as int,
                ),
            ensures
                c0 <= cur <= dlen,
                dlen == self.dataset@.len(),
                cur == next_finite_index(self.dataset@, c0 as int),
                cur < dlen ==> self.dataset@[cur as int].point_is_finite,
            decreases dlen - cur,
        {
            if cur >= dlen {
                proof {
                    assert(next_finite_index(self.dataset@, cur as int) == dlen);
                }
                break ;
            }
            let finite: bool = {
                let bars: &Vec<Bar> = &self.dataset;
                bars[cur].point_is_finite
            };
            if finite {
                proof {
                    assert(next_finite_index(self.dataset@, cur as int) == cur);
                }
                break ;
            }
            proof {
                assert(next_finite_index(self.dataset@, cur as int) == next_finite_index(
                    self.dataset@,
                    cur as int + 1,
                ));
            }
            cur = cur + 1;
        }
        self.current_index = cur;
        if cur >= dlen {
            self.finished = true;
            None
        } else {
            proof {
                if dataset_all_finite(self.dataset@) {
                    assert(self.dataset@[c0 as int].point_is_finite);
                    assert(next_finite_index(self.dataset@, c0 as int) == c0);
                }
            }
            Some(
                InferenceRequest { bar_index: cur, model_type: self.closing_model_type },
            )
        }
    }
}

/// Effect of feeding one prediction to a running play: a not-a-number
/// prediction finishes it at once; a favorable (positive) utility of doing
/// nothing lets it run one bar further; anything else finishes it.
pub open spec fn advance_with_spec(p: Play, utility: Utility) -> Play {
    match utility {
        Utility::NotANumber => Play { finished: true, failed: true, ..p },
        Utility::Value(v) => if v > 0 {
            Play { current_index: (p.current_index + 1) as usize, ..p }
        } else {
            Play { finished: true, ..p }
        },
    }
}

/// Once a play receives a not-a-number prediction it is finished and
/// failed, whatever its state was; `advance_to_inference` then never
/// again returns a request, and the play yields no training sample.
pub proof fn lemma_nan_finishes(p: Play, utility: Utility)
    requires
        utility is NotANumber,
    ensures
        advance_with_spec(p, utility).finished,
        advance_with_spec(p, utility).failed,
{
}

impl Play {
    /// Consume the prediction obtained for the pending request returned by
    /// `advance_to_inference`.
    pub fn advance_with_inference(&mut self, utility: Utility)
        requires
            old(self).wf(),
            !old(self).finished,
            old(self).current_index < old(self).dataset@.len(),
            dataset_all_finite(old(self).dataset@) ==> old(self).current_index - old(
                self).start_index <= old(self).max_play_duration_in_bars,
        ensures
            final(self).wf(),
            *final(self) == advance_with_spec(*old(self), utility),
            final(self).current_index >= old(self).current_index,
            (utility matches Utility::Value(v) && v > 0) ==> final(self).current_index == old(
                self).current_index + 1 && final(self).finished == old(self).finished,
            !(utility matches Utility::Value(v) && v > 0) ==> final(self).finished && final(
                self).current_index == old(self).current_index,
    {
        match utility {
            Utility::NotANumber => {
                self.finished = true;
                self.failed = true;
            },
            Utility::Value(v) => {
                if v > 0 {
                    let dlen: usize = self.dataset.len();
                    assert(self.current_index < dlen);
                    self.current_index = self.current_index + 1;
                } else {
                    self.finished = true;
                }
            },
        }
    }
}

/// On a dataset without missing data a play's elapsed length can never
/// pass one bar beyond the horizon: the bar that received the final,
/// horizon-expiring prediction is the last one counted. Runs of
/// non-finite bars are skipped without a horizon check, so only the
/// all-finite bound holds.
pub proof fn lemma_horizon_bound(p: Play)
    requires
        p.wf(),
        dataset_all_finite(p.dataset@),
    ensures
        p.current_index - p.start_index <= p.max_play_duration_in_bars + 1,
{
}

/// Index of the bar the episode is valued against: the current bar, or the
/// last bar when the dataset was exhausted.
pub open spec fn closing_bar_index(p: Play) -> int {
    if p.current_index < p.dataset@.len() {
        p.current_index as int
    } else {
        p.dataset@.len() - 1
    }
}

/// Mid price of the start bar.
pub open spec fn start_price(p: Play) -> int {
    p.dataset@[p.start_index as int].mid_price as int
}

/// Price move from the start bar to the closing bar.
pub open spec fn price_return(p: Play) -> int {
    p.dataset@[closing_bar_index(p)].mid_price - start_price(p)
}

/// `+1` for a Long-side play, `-1` for Short.
pub open spec fn side_sign(p: Play) -> int {
    if p.trained_model_type.side == ModelSide::Long {
        1
    } else {
        -1
    }
}

/// Round-trip fee charged to opening-model episodes; closing-model
/// episodes pay none.
pub open spec fn round_trip_fee(p: Play) -> int {
    if p.trained_model_type.action == ModelAction::Opening {
        2 * p.fee
    } else {
        0
    }
}

/// Denominator of the utility: the start bar's notional.
pub open spec fn utility_den(p: Play) -> int {
    start_price(p) * p.multiplier
}

/// Numerator of the utility over `utility_den`: round-trip economics in
/// basis points of the start notional, less the constant penalty.
pub open spec fn utility_num(p: Play) -> int {
    ((price_return(p) * side_sign(p)) * p.multiplier - round_trip_fee(p)) * 10000
        - p.utility_penalty_bps * utility_den(p)
}

/// `|a| <= hi_a` and `|b| <= hi_b` bound the product by `hi_a * hi_b`.
proof fn lemma_mul_abs_bound(a: int, b: int, hi_a: int, hi_b: int)
    requires
        -hi_a <= a <= hi_a,
        -hi_b <= b <= hi_b,
        0 <= hi_a,
        0 <= hi_b,
    ensures
        -(hi_a * hi_b) <= a * b <= hi_a * hi_b,
{
    assert(-(hi_a * hi_b) <= a * b <= hi_a * hi_b) by (nonlinear_arith)
        requires
            -hi_a <= a <= hi_a,
            -hi_b <= b <= hi_b,
            0 <= hi_a,
            0 <= hi_b,
    ;
}

/// Positive factors within bounds give a positive bounded product.
proof fn lemma_mul_pos_range(a: int, b: int, hi_a: int, hi_b: int)
    requires
        1 <= a <= hi_a,
        1 <= b <= hi_b,
    ensures
        1 <= a * b <= hi_a * hi_b,
{
    assert(1 <= a * b <= hi_a * hi_b) by (nonlinear_arith)
        requires
            1 <= a <= hi_a,
            1 <= b <= hi_b,
    ;
}

impl Play {
    /// The episode's exact utility in basis points of the start notional:
    /// `((price_return * sign) * multiplier - fee) * 10000
    ///  / (start_price * multiplier) - penalty`, with the round-trip fee
    /// charged only to opening-model episodes.
    pub fn utility(&self) -> (r: Ratio)
        requires
            self.wf(),
        ensures
            r.wf(),
            r.num == utility_num(*self),
            r.den == utility_den(*self),
    {
        let dlen: usize = self.dataset.len();
        let bars: &Vec<Bar> = &self.dataset;
        let start_bar_price: i64 = bars[self.start_index].mid_price;
        let cur_idx: usize = if self.current_index < dlen {
            self.current_index
        } else {
            dlen - 1
        };
        let cur_price: i64 = bars[cur_idx].mid_price;
        proof {
            assert(1 <= self.dataset@[self.start_index as int].mid_price <= MAX_PRICE);
            assert(1 <= self.dataset@[cur_idx as int].mid_price <= MAX_PRICE);
        }
        let pr: i128 = (cur_price as i128) - (start_bar_price as i128);
        let long_side: bool = match self.trained_model_type.side {
            ModelSide::Long => true,
            ModelSide::Short => false,
        };
        let x1: i128 = if long_side {
            pr
        } else {
            -pr
        };
        let m128: i128 = self.multiplier as i128;
        proof {
            lemma_mul_abs_bound(x1 as int, m128 as int, 2 * MAX_PRICE as int, MAX_MULTIPLIER as int);
        }
        let x2: i128 = x1 * m128;
        let fee2: i128 = match self.trained_model_type.action {
            ModelAction::Opening => 2 * (self.fee as i128),
            ModelAction::Closing => 0,
        };
        let x3: i128 = x2 - fee2;
        let x4: i128 = x3 * 10000;
        proof {
            lemma_mul_pos_range(
                start_bar_price as int,
                m128 as int,
                MAX_PRICE as int,
                MAX_MULTIPLIER as int,
            );
        }
        let den: i128 = (start_bar_price as i128) * m128;
        proof {
            lemma_mul_abs_bound(
                self.utility_penalty_bps as int,
                den as int,
                MAX_PENALTY_BPS as int,
                MAX_PRICE as int * MAX_MULTIPLIER as int,
            );
        }
        let x5: i128 = (self.utility_penalty_bps as i128) * den;
        let num: i128 = x4 - x5;
        Ratio { num, den }
    }
}

/// For two plays that differ only in their realized price return, the play
/// whose return is strictly more favorable for its side has strictly
/// higher utility; in particular a positive return on a Long-side play
/// (or a negative one on a Short-side play) beats a zero return.
pub proof fn lemma_utility_return_monotone(p1: Play, p2: Play)
    requires
        p1.wf(),
        p2.wf(),
        p1.trained_model_type == p2.trained_model_type,
        p1.fee == p2.fee,
        p1.multiplier == p2.multiplier,
        p1.utility_penalty_bps == p2.utility_penalty_bps,
        start_price(p1) == start_price(p2),
        p1.trained_model_type.side == ModelSide::Long ==> price_return(p1) > price_return(p2),
        p1.trained_model_type.side == ModelSide::Short ==> price_return(p1) < price_return(p2),
    ensures
        utility_den(p1) == utility_den(p2),
        utility_num(p2) * utility_den(p1) < utility_num(p1) * utility_den(p2),
{
    let d = utility_den(p1);
    let sp = start_price(p1);
    assert(1 <= sp) by {
        assert(1 <= p1.dataset@[p1.start_index as int].mid_price);
    }
    assert(1 <= d) by {
        vstd::arithmetic::mul::lemma_mul_strictly_positive(sp, p1.multiplier as int);
    }
    assert(utility_den(p2) == d);
    let g1 = price_return(p1) * side_sign(p1);
    let g2 = price_return(p2) * side_sign(p2);
    assert(g1 > g2) by (nonlinear_arith)
        requires
            g1 == price_return(p1) * side_sign(p1),
            g2 == price_return(p2) * side_sign(p2),
            side_sign(p1) == side_sign(p2),
            side_sign(p1) == 1 || side_sign(p1) == -1,
            side_sign(p1) == 1 ==> price_return(p1) > price_return(p2),
            side_sign(p1) == -1 ==> price_return(p1) < price_return(p2),
    ;
    assert(g1 * p1.multiplier > g2 * p1.multiplier) by (nonlinear_arith)
        requires
            g1 > g2,
            p1.multiplier >= 1,
    ;
    assert(utility_num(p1) > utility_num(p2));
    assert(utility_num(p2) * d < utility_num(p1) * d) by (nonlinear_arith)
        requires
            utility_num(p2) < utility_num(p1),
            d >= 1,
    ;
}

} // verus!
