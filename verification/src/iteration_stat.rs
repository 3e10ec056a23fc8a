use crate::ratio::Ratio;
use crate::utility::Utility;
use vstd::prelude::*;

verus! {

/// Saturating sum of two unsigned machine integers.
pub open spec fn sat_add_usize(a: int, b: int) -> int {
    if a + b <= usize::MAX {
        a + b
    } else {
        usize::MAX as int
    }
}

/// Saturating sum of two signed machine integers.
pub open spec fn sat_add_i64(a: int, b: int) -> int {
    if a + b > i64::MAX {
        i64::MAX as int
    } else if a + b < i64::MIN {
        i64::MIN as int
    } else {
        a + b
    }
}

/// Cross-thread diagnostic counters of one iteration run: sums and counts
/// of play lengths and of predictions seen. Sums saturate instead of
/// wrapping; the derived means are exact ratios of whatever the counters
/// hold. The counters also serve as the run's best-effort termination
/// gate.
#[derive(Debug, Clone, Copy, PartialEq, Eq, Structural)]
pub struct IterationStat {
    pub play_length_sum: usize,
    pub n_plays: usize,
    pub prediction_sum: i64,
    pub n_predictions: usize,
}

impl IterationStat {
    /// The all-zero counters.
    pub open spec fn new_spec() -> IterationStat {
        IterationStat { play_length_sum: 0, n_plays: 0, prediction_sum: 0, n_predictions: 0 }
    }

    pub fn new() -> (r: IterationStat)
        ensures
            r == IterationStat::new_spec(),
            r.play_length_sum == 0,
            r.n_plays == 0,
            r.prediction_sum == 0,
            r.n_predictions == 0,
    {
        IterationStat { play_length_sum: 0, n_plays: 0, prediction_sum: 0, n_predictions: 0 }
    }

    /// How many plays have completed so far.
    pub fn n_plays(&self) -> (r: usize)
        ensures
            r == self.n_plays,
    {
        self.n_plays
    }

    /// Record one completed play of the given length.
    pub fn update_play_lengths(&mut self, play_length: usize)
        ensures
            final(self).play_length_sum == sat_add_usize(
                old(self).play_length_sum as int,
                play_length as int,
            ),
            final(self).n_plays == sat_add_usize(old(self).n_plays as int, 1),
            final(self).prediction_sum == old(self).prediction_sum,
            final(self).n_predictions == old(self).n_predictions,
    {
        self.play_length_sum = if self.play_length_sum <= usize::MAX - play_length {
            self.play_length_sum + play_length
        } else {
            usize::MAX
        };
        self.n_plays = if self.n_plays < usize::MAX {
            self.n_plays + 1
        } else {
            usize::MAX
        };
    }

    /// Mean completed-play length as an exact ratio, zero before any play
    /// completed.
    pub open spec fn spec_mean_play_length(self) -> Ratio {
        if self.n_plays == 0 {
            Ratio { num: 0, den: 1 }
        } else {
            Ratio { num: self.play_length_sum as i128, den: self.n_plays as i128 }
        }
    }

    /// Mean prediction value as an exact ratio, zero before any
    /// prediction was seen.
    pub open spec fn spec_mean_prediction(self) -> Ratio {
        if self.n_predictions == 0 {
            Ratio { num: 0, den: 1 }
        } else {
            Ratio { num: self.prediction_sum as i128, den: self.n_predictions as i128 }
        }
    }

    /// Mean completed-play length, or zero before any play completed.
    pub fn mean_play_length(&self) -> (r: Ratio)
        ensures
            r == self.spec_mean_play_length(),
            r.wf(),
            self.n_plays == 0 ==> r.num == 0 && r.den == 1,
            self.n_plays > 0 ==> r.num == self.play_length_sum && r.den == self.n_plays,
    {
        if self.n_plays == 0 {
            Ratio { num: 0, den: 1 }
        } else {
            Ratio { num: self.play_length_sum as i128, den: self.n_plays as i128 }
        }
    }

    /// Record one prediction. Every prediction counts; a not-a-number
    /// prediction adds nothing to the sum.
    pub fn update_predictions(&mut self, prediction: Utility)
        ensures
            final(self).n_predictions == sat_add_usize(old(self).n_predictions as int, 1),
            final(self).prediction_sum == (match prediction {
                Utility::NotANumber => old(self).prediction_sum as int,
                Utility::Value(v) => sat_add_i64(old(self).prediction_sum as int, v as int),
            }),
            final(self).play_length_sum == old(self).play_length_sum,
            final(self).n_plays == old(self).n_plays,
    {
        match prediction {
            Utility::NotANumber => {
            },
            Utility::Value(v) => {
                self.prediction_sum = if v >= 0 {
                    if self.prediction_sum <= i64::MAX - v {
                        self.prediction_sum + v
                    } else {
                        i64::MAX
                    }
                } else {
                    if self.prediction_sum >= i64::MIN - v {
                        self.prediction_sum + v
                    } else {
                        i64::MIN
                    }
                };
            },
        }
        self.n_predictions = if self.n_predictions < usize::MAX {
            self.n_predictions + 1
        } else {
            usize::MAX
        };
    }

    /// Mean prediction value, or zero before any prediction was seen.
    pub fn mean_prediction(&self) -> (r: Ratio)
        ensures
            r == self.spec_mean_prediction(),
            r.wf(),
            self.n_predictions == 0 ==> r.num == 0 && r.den == 1,
            self.n_predictions > 0 ==> r.num == self.prediction_sum && r.den == self.n_predictions,
    {
        if self.n_predictions == 0 {
            Ratio { num: 0, den: 1 }
        } else {
            Ratio { num: self.prediction_sum as i128, den: self.n_predictions as i128 }
        }
    }
}

} // verus!
