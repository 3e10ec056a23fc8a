use crate::bar::{dataset_all_finite, dataset_prices_wf, Bar, DatasetRef};
use crate::config::IterationConfig;
use crate::errors::ModelError;
use crate::inferrer::{Inference, Inferrer};
use crate::iteration_stat::IterationStat;
use crate::model::Model;
use crate::model_set::ModelSet;
use crate::model_type::{ModelType, N_MODEL_TYPES};
use crate::play::Play;
use crate::ratio::Ratio;
use crate::sample::Sample;
use std::sync::Arc;
use vstd::prelude::*;
use vstd::string::StringExecFns;

verus! {

/// Work left in one play: zero once finished, else how far the current
/// index can still move.
pub open spec fn play_measure(p: Play) -> nat {
    if p.finished {
        0
    } else {
        (p.dataset@.len() + 1 - p.current_index) as nat
    }
}

/// Samples per model variant, summed over the four buffers.
pub open spec fn sample_total(s: Seq<Vec<Sample>>) -> int {
    s[0]@.len() + s[1]@.len() + s[2]@.len() + s[3]@.len() as int
}

/// Every sample's utility is well formed and its bar index names a bar of
/// the dataset whose feature point is finite.
pub open spec fn samples_wf(s: Seq<Vec<Sample>>, bars: Seq<Bar>) -> bool {
    forall|k: int, i: int|
        0 <= k < s.len() && 0 <= i < s[k]@.len() ==> (#[trigger] s[k]@[i]).utility.wf()
            && s[k]@[i].bar_index < bars.len() && bars[s[k]@[i].bar_index as int].point_is_finite
}

/// The sample is exactly what some play produced: a well-formed, finished,
/// unfailed play of the bucket's variant, configured by this run's
/// configuration over this dataset, whose finite start bar is the sample's
/// bar and whose exact utility is the sample's label.
pub open spec fn sample_from_play(
    s: Sample,
    k: int,
    bars: Seq<Bar>,
    config: IterationConfig,
) -> bool {
    exists|p: Play|
        {
            &&& #[trigger] p.wf()
            &&& p.dataset@ == bars
            &&& p.finished
            &&& !p.failed
            &&& p.trained_model_type.as_index() == k
            &&& p.fee == config.fee_per_contract_usd
            &&& p.multiplier == config.multiplier
            &&& p.utility_penalty_bps == config.utility_penalty_bps
            &&& p.max_play_duration_in_bars == config.max_play_duration_in_bars
            &&& s.bar_index == p.start_index
            &&& bars[p.start_index as int].point_is_finite
            &&& s.utility.num == crate::play::utility_num(p)
            &&& s.utility.den == crate::play::utility_den(p)
        }
}

/// Every sample of every bucket has the provenance above.
pub open spec fn samples_from_plays(
    s: Seq<Vec<Sample>>,
    bars: Seq<Bar>,
    config: IterationConfig,
) -> bool {
    forall|k: int, i: int|
        0 <= k < s.len() && 0 <= i < s[k]@.len() ==> sample_from_play(
            #[trigger] s[k]@[i],
            k,
            bars,
            config,
        )
}

/// Four empty per-variant sample buffers.
pub fn empty_sample_buffers() -> (r: Vec<Vec<Sample>>)
    ensures
        r@.len() == N_MODEL_TYPES,
        forall|k: int| 0 <= k < N_MODEL_TYPES ==> (#[trigger] r@[k])@.len() == 0,
{
    let mut r: Vec<Vec<Sample>> = Vec::new();
    r.push(Vec::new());
    r.push(Vec::new());
    r.push(Vec::new());
    r.push(Vec::new());
    r
}

/// Append one worker's locally-owned sample buffers onto an aggregate,
/// variant by variant; counts add up. This is how per-thread results merge
/// after all workers have finished, with no lock anywhere.
pub fn merge_samples(into: &mut Vec<Vec<Sample>>, from: &mut Vec<Vec<Sample>>)
    requires
        old(into)@.len() == N_MODEL_TYPES,
        old(from)@.len() == N_MODEL_TYPES,
    ensures
        final(into)@.len() == N_MODEL_TYPES,
        forall|k: int|
            0 <= k < N_MODEL_TYPES ==> (#[trigger] final(into)@[k])@ == old(into)@[k]@ + old(
                from,
            )@[k]@,
        sample_total(final(into)@) == sample_total(old(into)@) + sample_total(old(from)@),
{
    let mut k: usize = 0;
    while k < N_MODEL_TYPES
        invariant
            k <= N_MODEL_TYPES,
            into@.len() == N_MODEL_TYPES,
            from@.len() == N_MODEL_TYPES,
            forall|j: int|
                0 <= j < k ==> (#[trigger] into@[j])@ == old(into)@[j]@ + old(from)@[j]@,
            forall|j: int| k <= j < N_MODEL_TYPES ==> (#[trigger] into@[j])@ == old(into)@[j]@,
            forall|j: int| k <= j < N_MODEL_TYPES ==> (#[trigger] from@[j])@ == old(from)@[j]@,
        decreases N_MODEL_TYPES - k,
    {
        let taken: &mut Vec<Sample> = &mut from[k];
        into[k].append(taken);
        k = k + 1;
    }
}

/// Drive one play to completion with the synchronous per-request path: ask
/// where to infer, query the model, feed the prediction back, until the
/// play finishes. Every prediction is recorded in the counters.
pub fn drive_play<M: Model>(play: &mut Play, inferrer: &Inferrer<M>, stat: &mut IterationStat)
    requires
        old(play).wf(),
        inferrer.wf(),
    ensures
        final(play).wf(),
        final(play).finished,
        old(play).same_setup(*final(play)),
        old(play).failed ==> final(play).failed,
        final(play).current_index >= old(play).current_index,
        final(stat).play_length_sum == old(stat).play_length_sum,
        final(stat).n_plays == old(stat).n_plays,
{
    let ghost p0 = *play;
    loop
        invariant
            play.wf(),
            inferrer.wf(),
            p0.same_setup(*play),
            p0.failed ==> play.failed,
            play.current_index >= p0.current_index,
            stat.play_length_sum == old(stat).play_length_sum,
            stat.n_plays == old(stat).n_plays,
        ensures
            play.wf(),
            play.finished,
            p0.same_setup(*play),
            p0.failed ==> play.failed,
            play.current_index >= p0.current_index,
            stat.play_length_sum == old(stat).play_length_sum,
            stat.n_plays == old(stat).n_plays,
        decreases play_measure(*play),
    {
        if play.is_finished() {
            break ;
        }
        match play.advance_to_inference() {
            Some(request) => {
                let utility = inferrer.infer(request.model_type, request.bar_index);
                stat.update_predictions(utility);
                play.advance_with_inference(utility);
            },
            None => { break },
        }
    }
}

/// Run whole plays one at a time until the shared play counter reaches the
/// target, collecting one sample per play that started on a finite
/// feature point and did not fail on an invalid prediction. Each worker of a run executes this loop; the counters
/// are the shared gate, so a single worker stops exactly at the target.
pub fn run_plays_sequentially<M: Model>(
    config: &IterationConfig,
    dataset: &DatasetRef,
    models: &Arc<ModelSet<M>>,
    n_plays: usize,
    stat: &mut IterationStat,
) -> (samples: Vec<Vec<Sample>>)
    requires
        config.wf(),
        dataset@.len() >= 11,
        dataset_prices_wf(dataset@),
        models.wf(),
    ensures
        samples@.len() == N_MODEL_TYPES,
        final(stat).n_plays == vstd::math::max(old(stat).n_plays as int, n_plays as int),
        sample_total(samples@) <= final(stat).n_plays - old(stat).n_plays,
        samples_wf(samples@, dataset@),
        samples_from_plays(samples@, dataset@, *config),
{
    let inferrer: Inferrer<M> = Inferrer::new(models.clone(), n_plays);
    let mut samples: Vec<Vec<Sample>> = empty_sample_buffers();
    let ghost n0 = stat.n_plays;
    while stat.n_plays() < n_plays
        invariant
            config.wf(),
            dataset@.len() >= 11,
            dataset_prices_wf(dataset@),
            inferrer.wf(),
            samples@.len() == N_MODEL_TYPES,
            n0 <= stat.n_plays,
            stat.n_plays <= vstd::math::max(n0 as int, n_plays as int),
            sample_total(samples@) <= stat.n_plays - n0,
            samples_wf(samples@, dataset@),
            samples_from_plays(samples@, dataset@, *config),
        decreases n_plays - stat.n_plays,
    {
        let variants: Vec<ModelType> = ModelType::all();
        let mti: usize = crate::rng::random_below(N_MODEL_TYPES);
        let trained_model_type: ModelType = variants[mti];
        let mut play: Play = Play::new(config, dataset.clone(), trained_model_type);
        drive_play(&mut play, &inferrer, stat);
        stat.update_play_lengths(play.len());
        let finite: bool = {
            let bars: &Vec<Bar> = dataset;
            bars[play.start_bar_index()].point_is_finite
        };
        if finite && !play.is_failed() {
            let mi: usize = play.trained_model_type().index();
            let utility: Ratio = play.utility();
            let bar_index: usize = play.start_bar_index();
            let sample = Sample { bar_index, utility };
            let ghost samples_before = samples@;
            samples[mi].push(sample);
            proof {
                assert(sample_from_play(sample, mi as int, dataset@, *config)) by {
                    assert(play.wf() && play.dataset@ == dataset@ && play.finished && !play.failed
                        && play.trained_model_type.as_index() == mi && play.fee
                        == config.fee_per_contract_usd && play.multiplier == config.multiplier
                        && play.utility_penalty_bps == config.utility_penalty_bps
                        && play.max_play_duration_in_bars == config.max_play_duration_in_bars
                        && sample.bar_index == play.start_index
                        && dataset@[play.start_index as int].point_is_finite
                        && sample.utility.num == crate::play::utility_num(play)
                        && sample.utility.den == crate::play::utility_den(play));
                }
                assert forall|k: int, i: int|
                    0 <= k < samples@.len() && 0 <= i < samples@[k]@.len() implies sample_from_play(
                    #[trigger] samples@[k]@[i],
                    k,
                    dataset@,
                    *config,
                ) by {
                    if k == mi && i == samples_before[k as int]@.len() {
                    } else {
                        assert(samples@[k]@[i] == samples_before[k]@[i]);
                    }
                }
            }
        }
    }
    samples
}

/// Total work left across a vector of plays.
pub open spec fn plays_measure(s: Seq<Play>) -> nat
    decreases s.len(),
{
    if s.len() == 0 {
        0
    } else {
        play_measure(s[0]) + plays_measure(s.drop_first())
    }
}

/// Pointwise non-increase of play measures bounds the total.
proof fn lemma_plays_measure_le(s1: Seq<Play>, s2: Seq<Play>)
    requires
        s1.len() == s2.len(),
        forall|l: int| 0 <= l < s1.len() ==> play_measure(s2[l]) <= play_measure(s1[l]),
    ensures
        plays_measure(s2) <= plays_measure(s1),
    decreases s1.len(),
{
    if s1.len() > 0 {
        assert(play_measure(s2[0]) <= play_measure(s1[0]));
        assert forall|l: int| 0 <= l < s1.drop_first().len() implies play_measure(
            s2.drop_first()[l],
        ) <= play_measure(s1.drop_first()[l]) by {
            assert(play_measure(s2[l + 1]) <= play_measure(s1[l + 1]));
        }
        lemma_plays_measure_le(s1.drop_first(), s2.drop_first());
    }
}

/// Pointwise non-increase with one strict decrease shrinks the total.
proof fn lemma_plays_measure_lt(s1: Seq<Play>, s2: Seq<Play>, w: int)
    requires
        s1.len() == s2.len(),
        forall|l: int| 0 <= l < s1.len() ==> play_measure(s2[l]) <= play_measure(s1[l]),
        0 <= w < s1.len(),
        play_measure(s2[w]) < play_measure(s1[w]),
    ensures
        plays_measure(s2) < plays_measure(s1),
    decreases s1.len(),
{
    assert forall|l: int| 0 <= l < s1.drop_first().len() implies play_measure(s2.drop_first()[l])
        <= play_measure(s1.drop_first()[l]) by {
        assert(play_measure(s2[l + 1]) <= play_measure(s1[l + 1]));
    }
    if w == 0 {
        lemma_plays_measure_le(s1.drop_first(), s2.drop_first());
    } else {
        assert(play_measure(s2.drop_first()[w - 1]) < play_measure(s1.drop_first()[w - 1]));
        lemma_plays_measure_lt(s1.drop_first(), s2.drop_first(), w - 1);
    }
}

/// The play has an outstanding inference request: exactly the state that
/// `advance_to_inference` leaves behind when it returns one.
pub open spec fn awaiting_inference(p: Play) -> bool {
    &&& p.wf()
    &&& !p.finished
    &&& p.current_index < p.dataset@.len()
    &&& (dataset_all_finite(p.dataset@) ==> p.current_index - p.start_index
        <= p.max_play_duration_in_bars)
}

/// Every play of the vector is well formed over this dataset.
pub open spec fn plays_ok(s: Seq<Play>, bars: Seq<Bar>) -> bool {
    forall|l: int| 0 <= l < s.len() ==> (#[trigger] s[l]).wf() && s[l].dataset@ == bars
}

/// Every play of the vector carries this run's configuration.
pub open spec fn plays_configured(s: Seq<Play>, config: IterationConfig) -> bool {
    forall|l: int|
        0 <= l < s.len() ==> (#[trigger] s[l]).fee == config.fee_per_contract_usd && s[l].multiplier
            == config.multiplier && s[l].utility_penalty_bps == config.utility_penalty_bps
            && s[l].max_play_duration_in_bars == config.max_play_duration_in_bars
}

/// How many plays of the vector are trained for variant `k`.
pub open spec fn count_variant(s: Seq<Play>, k: int) -> int
    decreases s.len(),
{
    if s.len() == 0 {
        0
    } else {
        count_variant(s.drop_last(), k) + if s.last().trained_model_type.as_index() == k {
            1int
        } else {
            0int
        }
    }
}

/// Appending one play raises exactly its own variant's count.
proof fn lemma_count_variant_push(s: Seq<Play>, p: Play)
    ensures
        forall|k: int|
            #[trigger] count_variant(s.push(p), k) == count_variant(s, k) + if p.trained_model_type.as_index() == k {
                1int
            } else {
                0int
            },
{
    assert forall|k: int| #[trigger] count_variant(s.push(p), k) == count_variant(s, k)
        + if p.trained_model_type.as_index() == k {
        1int
    } else {
        0int
    } by {
        assert(s.push(p).drop_last() =~= s);
        assert(s.push(p).last() == p);
    }
}

/// Replacing a play with one of the same variant keeps every count.
proof fn lemma_count_variant_update(s: Seq<Play>, i: int, p: Play)
    requires
        0 <= i < s.len(),
        p.trained_model_type == s[i].trained_model_type,
    ensures
        forall|k: int| #[trigger] count_variant(s.update(i, p), k) == count_variant(s, k),
    decreases s.len(),
{
    assert forall|k: int| #[trigger] count_variant(s.update(i, p), k) == count_variant(s, k) by {
        if i == s.len() - 1 {
            assert(s.update(i, p).drop_last() =~= s.drop_last());
            assert(s.update(i, p).last() == p);
            assert(p.trained_model_type.as_index() == s.last().trained_model_type.as_index());
        } else {
            assert(s.update(i, p).drop_last() =~= s.drop_last().update(i, p));
            assert(s.update(i, p).last() == s.last());
            lemma_count_variant_update(s.drop_last(), i, p);
            assert(count_variant(s.drop_last().update(i, p), k) == count_variant(
                s.drop_last(),
                k,
            ));
            assert(count_variant(s.update(i, p), k) == count_variant(
                s.update(i, p).drop_last(),
                k,
            ) + if s.update(i, p).last().trained_model_type.as_index() == k {
                1int
            } else {
                0int
            });
            assert(count_variant(s, k) == count_variant(s.drop_last(), k)
                + if s.last().trained_model_type.as_index() == k {
                1int
            } else {
                0int
            });
        }
    }
}

/// Every pending request of the scheduler names a play below `bound` that
/// awaits an inference.
pub open spec fn pending_ok<M: Model>(inf: Inferrer<M>, plays: Seq<Play>, bound: int) -> bool {
    &&& inf.pending_bounded(bound)
    &&& bound <= plays.len()
    &&& forall|k: int, i: int|
        0 <= k < inf.play_indices@.len() && 0 <= i < inf.play_indices@[k]@.len()
            ==> awaiting_inference(plays[#[trigger] inf.play_indices@[k]@[i] as int])
}

/// Every value of the flattened pending list is itself pending.
proof fn lemma_pending_flat_elements<M: Model>(inf: Inferrer<M>)
    requires
        inf.wf(),
    ensures
        forall|l: int|
            0 <= l < inf.pending_flat().len() ==> inf.is_pending(
                #[trigger] inf.pending_flat()[l] as int,
            ),
{
    let p = inf.play_indices@;
    let f = inf.pending_flat();
    let n0 = p[0]@.len() as int;
    let n1 = p[1]@.len() as int;
    let n2 = p[2]@.len() as int;
    assert forall|l: int| 0 <= l < f.len() implies inf.is_pending(#[trigger] f[l] as int) by {
        let k = if l < n0 {
            0int
        } else if l < n0 + n1 {
            1int
        } else if l < n0 + n1 + n2 {
            2int
        } else {
            3int
        };
        let off = if l < n0 {
            l
        } else if l < n0 + n1 {
            l - n0
        } else if l < n0 + n1 + n2 {
            l - n0 - n1
        } else {
            l - n0 - n1 - n2
        };
        assert(f[l] == p[k]@[off]);
    }
}


/// Drive a whole cohort of plays with the batched scheduler: each round
/// collects at most one request per live play, resolves them with at most
/// one model call per variant, and feeds every prediction back; rounds
/// repeat until every play is finished. One cohort holds `n_plays` plays
/// per model variant. Samples and length counters come from the plays
/// that started on a finite feature point and did not fail on an invalid
/// prediction, one sample each.
pub fn run_plays<M: Model>(
    config: &IterationConfig,
    dataset: &DatasetRef,
    models: &Arc<ModelSet<M>>,
    n_plays: usize,
    stat: &mut IterationStat,
) -> (samples: Vec<Vec<Sample>>)
    requires
        config.wf(),
        dataset@.len() >= 11,
        dataset_prices_wf(dataset@),
        models.wf(),
        n_plays * N_MODEL_TYPES <= usize::MAX,
    ensures
        samples@.len() == N_MODEL_TYPES,
        sample_total(samples@) <= n_plays * N_MODEL_TYPES,
        forall|k: int| 0 <= k < N_MODEL_TYPES ==> (#[trigger] samples@[k])@.len() <= n_plays,
        samples_wf(samples@, dataset@),
        samples_from_plays(samples@, dataset@, *config),
        final(stat).n_plays == vstd::math::min(
            old(stat).n_plays + sample_total(samples@),
            usize::MAX as int,
        ),
{
    let total: usize = n_plays * N_MODEL_TYPES;
    let all: Vec<ModelType> = ModelType::all();
    let mut plays: Vec<Play> = Vec::new();
    let mut k: usize = 0;
    while k < N_MODEL_TYPES
        invariant
            config.wf(),
            dataset@.len() >= 11,
            dataset_prices_wf(dataset@),
            all@.len() == N_MODEL_TYPES,
            forall|i: int| 0 <= i < all@.len() ==> (#[trigger] all@[i]).as_index() == i,
            k <= N_MODEL_TYPES,
            total == n_plays * N_MODEL_TYPES,
            total <= usize::MAX,
            plays@.len() == k * n_plays,
            plays_ok(plays@, dataset@),
            plays_configured(plays@, *config),
            forall|kk: int|
                0 <= kk < N_MODEL_TYPES ==> #[trigger] count_variant(plays@, kk) == (if kk < k {
                    n_plays as int
                } else {
                    0int
                }),
        decreases N_MODEL_TYPES - k,
    {
        let trained_model_type: ModelType = all[k];
        proof {
            assert(all@[k as int].as_index() == k);
        }
        let mut j: usize = 0;
        while j < n_plays
            invariant
                config.wf(),
                dataset@.len() >= 11,
                dataset_prices_wf(dataset@),
                k < N_MODEL_TYPES,
                j <= n_plays,
                total == n_plays * N_MODEL_TYPES,
                total <= usize::MAX,
                plays@.len() == k * n_plays + j,
                plays_ok(plays@, dataset@),
                plays_configured(plays@, *config),
                trained_model_type.as_index() == k,
                forall|kk: int|
                    0 <= kk < N_MODEL_TYPES ==> #[trigger] count_variant(plays@, kk) == (if kk < k {
                        n_plays as int
                    } else if kk == k {
                        j as int
                    } else {
                        0int
                    }),
            decreases n_plays - j,
        {
            proof {
                assert(k * n_plays + j < N_MODEL_TYPES * n_plays) by (nonlinear_arith)
                    requires
                        0 <= k < N_MODEL_TYPES,
                        0 <= j < n_plays,
                ;
            }
            let play: Play = Play::new(config, dataset.clone(), trained_model_type);
            proof {
                lemma_count_variant_push(plays@, play);
            }
            plays.push(play);
            j = j + 1;
        }
        proof {
            assert(k * n_plays + n_plays == (k + 1) * n_plays) by (nonlinear_arith);
        }
        k = k + 1;
    }
    proof {
        assert(plays@.len() == N_MODEL_TYPES * n_plays);
        assert(N_MODEL_TYPES * n_plays == n_plays * N_MODEL_TYPES) by (nonlinear_arith);
    }
    let mut inferrer: Inferrer<M> = Inferrer::new(models.clone(), n_plays);
    let ghost stat0 = *stat;
    loop
        invariant_except_break
            config.wf(),
            dataset@.len() >= 11,
            dataset_prices_wf(dataset@),
            inferrer.wf(),
            plays@.len() == total,
            plays_ok(plays@, dataset@),
            plays_configured(plays@, *config),
            forall|kk: int|
                0 <= kk < N_MODEL_TYPES ==> #[trigger] count_variant(plays@, kk) == n_plays,
            stat.n_plays == stat0.n_plays,
            stat.play_length_sum == stat0.play_length_sum,
        ensures
            plays@.len() == total,
            plays_ok(plays@, dataset@),
            plays_configured(plays@, *config),
            forall|kk: int|
                0 <= kk < N_MODEL_TYPES ==> #[trigger] count_variant(plays@, kk) == n_plays,
            forall|l: int| 0 <= l < plays@.len() ==> (#[trigger] plays@[l]).finished,
            stat.n_plays == stat0.n_plays,
            stat.play_length_sum == stat0.play_length_sum,
        decreases plays_measure(plays@),
    {
        let ghost plays0 = plays@;
        inferrer.clear();
        let mut all_finished: bool = true;
        let mut pi: usize = 0;
        while pi < total
            invariant
                config.wf(),
                dataset@.len() >= 11,
                dataset_prices_wf(dataset@),
                inferrer.wf(),
                pi <= total,
                plays@.len() == total,
                plays0.len() == total,
                plays_ok(plays@, dataset@),
                plays_configured(plays@, *config),
                forall|kk: int|
                    0 <= kk < N_MODEL_TYPES ==> #[trigger] count_variant(plays@, kk) == n_plays,
                forall|l: int| pi <= l < total ==> plays@[l] == plays0[l],
                forall|l: int|
                    0 <= l < total ==> play_measure(#[trigger] plays@[l]) <= play_measure(
                        plays0[l],
                    ),
                pending_ok(inferrer, plays@, pi as int),
                all_finished ==> inferrer.pending_total() == 0,
                !all_finished ==> inferrer.pending_total() > 0,
                all_finished ==> (forall|l: int| 0 <= l < pi ==> (#[trigger] plays@[l]).finished),
            decreases total - pi,
        {
            let ghost before = plays@;
            let skip: bool = plays[pi].is_finished();
            if !skip {
                let request_opt: Option<crate::play::InferenceRequest> = {
                    let play_ref: &mut Play = &mut plays[pi];
                    play_ref.advance_to_inference()
                };
                proof {
                    assert(plays@ == before.update(pi as int, plays@[pi as int]));
                    lemma_count_variant_update(before, pi as int, plays@[pi as int]);
                    assert forall|l: int| 0 <= l < total implies play_measure(#[trigger] plays@[l])
                        <= play_measure(plays0[l]) by {
                        if l != pi {
                            assert(plays@[l] == before[l]);
                        }
                    }
                }
                match request_opt {
                    Some(request) => {
                        all_finished = false;
                        proof {
                            assert(!inferrer.is_pending(pi as int)) by {
                                if inferrer.is_pending(pi as int) {
                                    let (ka, ia): (int, int) = choose|ka: int, ia: int|
                                        0 <= ka < inferrer.play_indices@.len() && 0 <= ia
                                            < inferrer.play_indices@[ka]@.len()
                                            && #[trigger] inferrer.play_indices@[ka]@[ia] == pi;
                                    assert(inferrer.play_indices@[ka]@[ia] < pi);
                                }
                            }
                        }
                        let ghost inf_before = inferrer;
                        inferrer.put_request(pi, request.model_type, request.bar_index);
                        proof {
                            let mt = request.model_type;
                            assert forall|ka: int, ia: int|
                                0 <= ka < inferrer.play_indices@.len() && 0 <= ia
                                    < inferrer.play_indices@[ka]@.len() implies (
                            #[trigger] inferrer.play_indices@[ka]@[ia]) < pi + 1
                                && awaiting_inference(
                                plays@[inferrer.play_indices@[ka]@[ia] as int],
                            ) by {
                                if ka == mt.as_index() && ia == inf_before.play_indices@[ka]@.len() {
                                    assert(inferrer.play_indices@[ka]@[ia] == pi);
                                } else {
                                    assert(inferrer.play_indices@[ka]@[ia]
                                        == inf_before.play_indices@[ka]@[ia]);
                                    assert(inf_before.play_indices@[ka]@[ia] < pi);
                                    assert(plays@[inf_before.play_indices@[ka]@[ia] as int]
                                        == before[inf_before.play_indices@[ka]@[ia] as int]);
                                }
                            }
                        }
                    },
                    None => {
                    },
                }
            }
            pi = pi + 1;
        }
        if all_finished {
            break ;
        }
        let ghost inf_full = inferrer;
        let inferences: Vec<Inference> = inferrer.fulfill_all_requests();
        proof {
            lemma_pending_flat_elements(inf_full);
            assert forall|l: int| 0 <= l < inferences@.len() implies (
            #[trigger] inferences@[l].play_index) < total && awaiting_inference(
                plays@[inferences@[l].play_index as int],
            ) by {
                assert(crate::inferrer::inference_indices(inferences@)[l]
                    == inferences@[l].play_index);
                assert(inferences@[l].play_index == inf_full.pending_flat()[l]);
                assert(inf_full.is_pending(inf_full.pending_flat()[l] as int));
                let (ka, ia): (int, int) = choose|ka: int, ia: int|
                    0 <= ka < inf_full.play_indices@.len() && 0 <= ia
                        < inf_full.play_indices@[ka]@.len()
                        && #[trigger] inf_full.play_indices@[ka]@[ia] == inf_full.pending_flat()[l];
                assert(awaiting_inference(plays@[inf_full.play_indices@[ka]@[ia] as int]));
            }
            assert(inferences@.len() == inf_full.pending_total());
            assert(inferences@.len() >= 1);
        }
        let ghost mid = plays@;
        let ghost w = inferences@[0].play_index as int;
        let mut j: usize = 0;
        while j < inferences.len()
            invariant
                j <= inferences@.len(),
                inferences@.len() >= 1,
                plays@.len() == total,
                plays0.len() == total,
                mid.len() == total,
                plays_ok(plays@, dataset@),
                plays_configured(plays@, *config),
                forall|kk: int|
                    0 <= kk < N_MODEL_TYPES ==> #[trigger] count_variant(plays@, kk) == n_plays,
                w == inferences@[0].play_index as int,
                0 <= w < total,
                forall|l: int|
                    0 <= l < inferences@.len() ==> (#[trigger] inferences@[l].play_index) < total,
                forall|l1: int, l2: int|
                    0 <= l1 < l2 < inferences@.len() ==> (#[trigger] inferences@[l1].play_index)
                        != (#[trigger] inferences@[l2].play_index),
                forall|l: int|
                    j <= l < inferences@.len() ==> plays@[#[trigger] inferences@[l].play_index as int]
                        == mid[inferences@[l].play_index as int],
                forall|l: int|
                    0 <= l < inferences@.len() ==> awaiting_inference(
                        mid[#[trigger] inferences@[l].play_index as int],
                    ),
                forall|l: int|
                    0 <= l < total ==> play_measure(#[trigger] plays@[l]) <= play_measure(
                        plays0[l],
                    ),
                forall|l: int|
                    0 <= l < total ==> play_measure(#[trigger] mid[l]) <= play_measure(plays0[l]),
                j > 0 ==> play_measure(plays@[w]) < play_measure(plays0[w]),
                stat.n_plays == stat0.n_plays,
                stat.play_length_sum == stat0.play_length_sum,
            decreases inferences@.len() - j,
        {
            let inference: Inference = inferences[j];
            stat.update_predictions(inference.prediction);
            let ghost before = plays@;
            let target: usize = inference.play_index;
            proof {
                assert(plays@[target as int] == mid[target as int]);
                assert(awaiting_inference(mid[target as int]));
            }
            {
                let play_ref: &mut Play = &mut plays[target];
                play_ref.advance_with_inference(inference.prediction);
            }
            proof {
                assert(plays@ == before.update(target as int, plays@[target as int]));
                lemma_count_variant_update(before, target as int, plays@[target as int]);
                assert(play_measure(plays@[target as int]) < play_measure(before[target as int]));
                assert forall|l: int|
                    j + 1 <= l < inferences@.len() implies plays@[#[trigger] inferences@[
                l].play_index as int] == mid[inferences@[l].play_index as int] by {
                    assert(inferences@[l].play_index != inferences@[j as int].play_index);
                }
                if j > 0 {
                    assert(target as int != w);
                    assert(plays@[w] == before[w]);
                } else {
                    assert(target as int == w);
                    assert(play_measure(before[w]) <= play_measure(plays0[w]));
                }
            }
            j = j + 1;
        }
        proof {
            lemma_plays_measure_lt(plays0, plays@, w);
        }
    }
    let mut samples: Vec<Vec<Sample>> = empty_sample_buffers();
    let ghost n1 = stat.n_plays;
    let mut pi: usize = 0;
    while pi < total
        invariant
            config.wf(),
            dataset@.len() >= 11,
            dataset_prices_wf(dataset@),
            pi <= total,
            plays@.len() == total,
            plays_ok(plays@, dataset@),
            plays_configured(plays@, *config),
            forall|l: int| 0 <= l < total ==> (#[trigger] plays@[l]).finished,
            forall|kk: int|
                0 <= kk < N_MODEL_TYPES ==> #[trigger] count_variant(plays@, kk) == n_plays,
            samples@.len() == N_MODEL_TYPES,
            sample_total(samples@) <= pi,
            forall|kk: int|
                0 <= kk < N_MODEL_TYPES ==> (#[trigger] samples@[kk])@.len() <= count_variant(
                    plays@.take(pi as int),
                    kk,
                ),
            samples_wf(samples@, dataset@),
            samples_from_plays(samples@, dataset@, *config),
            stat.n_plays == vstd::math::min(n1 + sample_total(samples@), usize::MAX as int),
        decreases total - pi,
    {
        proof {
            assert(plays@.take(pi as int + 1) =~= plays@.take(pi as int).push(plays@[pi as int]));
            lemma_count_variant_push(plays@.take(pi as int), plays@[pi as int]);
        }
        let start_bar: usize = plays[pi].start_bar_index();
        let finite: bool = {
            let bars: &Vec<Bar> = dataset;
            bars[start_bar].point_is_finite
        };
        if finite && !plays[pi].is_failed() {
            let play_length: usize = plays[pi].len();
            stat.update_play_lengths(play_length);
            let mi: usize = plays[pi].trained_model_type().index();
            let utility: Ratio = plays[pi].utility();
            let sample = Sample { bar_index: start_bar, utility };
            let ghost samples_before = samples@;
            samples[mi].push(sample);
            proof {
                let ghost p = plays@[pi as int];
                assert(sample_from_play(sample, mi as int, dataset@, *config)) by {
                    assert(p.wf() && p.dataset@ == dataset@ && p.finished && !p.failed
                        && p.trained_model_type.as_index() == mi && p.fee
                        == config.fee_per_contract_usd && p.multiplier == config.multiplier
                        && p.utility_penalty_bps == config.utility_penalty_bps
                        && p.max_play_duration_in_bars == config.max_play_duration_in_bars
                        && sample.bar_index == p.start_index
                        && dataset@[p.start_index as int].point_is_finite
                        && sample.utility.num == crate::play::utility_num(p)
                        && sample.utility.den == crate::play::utility_den(p));
                }
                assert forall|k: int, i: int|
                    0 <= k < samples@.len() && 0 <= i < samples@[k]@.len() implies sample_from_play(
                    #[trigger] samples@[k]@[i],
                    k,
                    dataset@,
                    *config,
                ) by {
                    if k == mi && i == samples_before[k as int]@.len() {
                    } else {
                        assert(samples@[k]@[i] == samples_before[k]@[i]);
                    }
                }
            }
        }
        pi = pi + 1;
    }
    proof {
        assert(plays@.take(total as int) =~= plays@);
    }
    samples
}


/// One self-play training iteration: a dataset, a configuration, the
/// previous iteration's models as input policy, and this iteration's
/// models to be trained, plus the run's shared counters and, once run,
/// how many samples each variant's training slice received.
/// Four zeroed per-variant counters.
fn zero_counts() -> (r: Vec<usize>)
    ensures
        r@.len() == N_MODEL_TYPES,
        forall|k: int| 0 <= k < N_MODEL_TYPES ==> r@[k] == 0,
{
    let mut r: Vec<usize> = Vec::new();
    r.push(0);
    r.push(0);
    r.push(0);
    r.push(0);
    r
}

#[verifier::reject_recursive_types(M)]
pub struct Iteration<M: Model> {
    pub iteration_index: usize,
    pub dataset: DatasetRef,
    pub config: IterationConfig,
    pub input_model_set: Arc<ModelSet<M>>,
    pub output_model_set: Arc<ModelSet<M>>,
    pub stat: IterationStat,
    pub sample_counts: Vec<usize>,
}

/// Sum of the four per-variant sample counts of a finished run.
pub open spec fn counts_total(s: Seq<usize>) -> int {
    s[0] + s[1] + s[2] + s[3] as int
}

impl<M: Model> Iteration<M> {
    pub open spec fn wf(self) -> bool {
        &&& self.config.wf()
        &&& self.config.n_plays <= usize::MAX as u64
        &&& self.dataset@.len() >= 11
        &&& dataset_prices_wf(self.dataset@)
        &&& self.input_model_set.wf()
        &&& self.output_model_set.wf()
    }

    /// Assemble one iteration. The caller brings the input model set
    /// already loaded with the previous iteration's parameters (the
    /// baseline set for the first iteration) and a fresh output set.
    pub fn new(
        iteration_index: usize,
        dataset: DatasetRef,
        config: IterationConfig,
        input_model_set: Arc<ModelSet<M>>,
        output_model_set: Arc<ModelSet<M>>,
    ) -> (r: Iteration<M>)
        requires
            config.wf(),
            config.n_plays <= usize::MAX as u64,
            dataset@.len() >= 11,
            dataset_prices_wf(dataset@),
            input_model_set.wf(),
            output_model_set.wf(),
        ensures
            r.wf(),
            r.iteration_index == iteration_index,
            r.dataset == dataset,
            r.config == config,
            r.input_model_set == input_model_set,
            r.output_model_set == output_model_set,
            r.stat == IterationStat::new_spec(),
            r.sample_counts@.len() == N_MODEL_TYPES,
            counts_total(r.sample_counts@) == 0,
    {
        Iteration {
            iteration_index,
            dataset,
            config,
            input_model_set,
            output_model_set,
            stat: IterationStat::new(),
            sample_counts: zero_counts(),
        }
    }

    /// Run plays under the input models until the play counter reaches the
    /// configured target, train each output model on its variant's
    /// samples, and persist every output model.
    pub fn run(&mut self) -> (r: Result<(), ModelError>)
        requires
            old(self).wf(),
        ensures
            final(self).wf(),
            final(self).iteration_index == old(self).iteration_index,
            final(self).dataset == old(self).dataset,
            final(self).config == old(self).config,
            final(self).input_model_set == old(self).input_model_set,
            final(self).output_model_set == old(self).output_model_set,
            final(self).stat.n_plays == vstd::math::max(
                old(self).stat.n_plays as int,
                old(self).config.n_plays as int,
            ),
            final(self).sample_counts@.len() == N_MODEL_TYPES,
            counts_total(final(self).sample_counts@) <= final(self).stat.n_plays - old(
                self,
            ).stat.n_plays,
    {
        let n_plays: usize = self.config.n_plays as usize;
        let samples: Vec<Vec<Sample>> = run_plays_sequentially(
            &self.config,
            &self.dataset,
            &self.input_model_set,
            n_plays,
            &mut self.stat,
        );
        let mut counts: Vec<usize> = Vec::new();
        counts.push(samples[0].len());
        counts.push(samples[1].len());
        counts.push(samples[2].len());
        counts.push(samples[3].len());
        self.sample_counts = counts;
        self.train_models(&samples);
        self.save_models()
    }

    /// Train each output model on its variant's slice; empty slices are
    /// skipped. What training does to a model is the implementation's
    /// affair.
    pub fn train_models(&self, samples: &Vec<Vec<Sample>>)
        requires
            self.wf(),
            samples@.len() == N_MODEL_TYPES,
    {
        let all: Vec<ModelType> = ModelType::all();
        let mut k: usize = 0;
        while k < all.len()
            invariant
                self.wf(),
                samples@.len() == N_MODEL_TYPES,
                all@.len() == N_MODEL_TYPES,
                forall|i: int| 0 <= i < all@.len() ==> (#[trigger] all@[i]).as_index() == i,
            decreases all@.len() - k,
        {
            let mt: ModelType = all[k];
            let mi: usize = mt.index();
            if samples[mi].len() > 0 {
                let model: &M = self.output_model_set.model(mt);
                model.train(&samples[mi]);
            }
            k = k + 1;
        }
    }

    /// Persist every output model under
    /// `<output_dir>/<iteration_index>_<model_type>.json`, stopping at the
    /// first failure.
    pub fn save_models(&self) -> (r: Result<(), ModelError>)
        requires
            self.wf(),
    {
        let all: Vec<ModelType> = ModelType::all();
        let mut k: usize = 0;
        while k < all.len()
            invariant
                self.wf(),
                all@.len() == N_MODEL_TYPES,
                forall|i: int| 0 <= i < all@.len() ==> (#[trigger] all@[i]).as_index() == i,
            decreases all@.len() - k,
        {
            let mt: ModelType = all[k];
            let path: String = crate::paths::model_path(
                self.config.output_dir.as_str(),
                self.iteration_index,
                mt,
            );
            let model: &M = self.output_model_set.model(mt);
            match model.save(path.as_str()) {
                Ok(()) => {
                },
                Err(e) => { return Err(e) },
            }
            k = k + 1;
        }
        Ok(())
    }

    /// The exactly-pinned head of the diagnostic summary: both counter
    /// means, rendered as exact ratios.
    pub open spec fn summary_head(self) -> Seq<char> {
        "mean play length: "@ + self.stat.spec_mean_play_length().spec_text() + "\n"@
            + "mean prediction: "@ + self.stat.spec_mean_prediction().spec_text() + "\n"@
    }

    /// Human-readable diagnostics: the mean play length and mean
    /// prediction, then each output model's serialized parameters (a line
    /// per variant, whose content is the model implementation's affair).
    pub fn summary(&self) -> (r: String)
        requires
            self.wf(),
        ensures
            r@.take(self.summary_head().len() as int) == self.summary_head(),
    {
        let mut out: String = "mean play length: ".to_owned();
        let mean_len: Ratio = self.stat.mean_play_length();
        let mean_len_text: String = mean_len.to_text();
        out.append(mean_len_text.as_str());
        out.append("\n");
        out.append("mean prediction: ");
        let mean_pred: Ratio = self.stat.mean_prediction();
        let mean_pred_text: String = mean_pred.to_text();
        out.append(mean_pred_text.as_str());
        out.append("\n");
        proof {
            assert(out@ == self.summary_head());
        }
        let ghost head = out@;
        let all: Vec<ModelType> = ModelType::all();
        let mut k: usize = 0;
        while k < all.len()
            invariant
                self.wf(),
                all@.len() == N_MODEL_TYPES,
                forall|i: int| 0 <= i < all@.len() ==> (#[trigger] all@[i]).as_index() == i,
                head == self.summary_head(),
                out@.take(head.len() as int) == head,
                out@.len() >= head.len(),
            decreases all@.len() - k,
        {
            let mt: ModelType = all[k];
            out.append(mt.label());
            out.append(": ");
            let params: String = self.output_model_set.model(mt).params();
            out.append(params.as_str());
            out.append("\n");
            proof {
                assert(out@.take(head.len() as int) =~= head);
            }
            k = k + 1;
        }
        out
    }
}

} // verus!
