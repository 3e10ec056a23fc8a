use crate::model::Model;
use crate::model_set::ModelSet;
use crate::model_type::{ModelType, N_MODEL_TYPES};
use crate::utility::Utility;
use std::sync::Arc;
use vstd::prelude::*;

verus! {

/// A fulfilled request: which play asked, and what the model predicted.
#[derive(Debug, Clone, Copy, PartialEq, Eq, Structural)]
pub struct Inference {
    pub play_index: usize,
    pub prediction: Utility,
}

/// Batched prediction scheduler: pending single-bar requests are buffered
/// per model variant so that each round costs at most one model call per
/// variant instead of one per play.
#[verifier::reject_recursive_types(M)]
pub struct Inferrer<M: Model> {
    pub models: Arc<ModelSet<M>>,
    pub n_plays: usize,
    pub bar_indices: Vec<Vec<usize>>,
    pub play_indices: Vec<Vec<usize>>,
}

impl<M: Model> Inferrer<M> {
    /// No two pending requests come from the same play.
    pub open spec fn pending_distinct(self) -> bool {
        forall|k1: int, i1: int, k2: int, i2: int|
            #![trigger self.play_indices@[k1]@[i1], self.play_indices@[k2]@[i2]]
            0 <= k1 < self.play_indices@.len() && 0 <= i1 < self.play_indices@[k1]@.len() && 0 <= k2
                < self.play_indices@.len() && 0 <= i2 < self.play_indices@[k2]@.len() && (k1 != k2
                || i1 != i2) ==> self.play_indices@[k1]@[i1] != self.play_indices@[k2]@[i2]
    }

    /// One buffer pair per model variant, kept zipped, with all pending
    /// plays distinct.
    pub open spec fn wf(self) -> bool {
        &&& self.models.wf()
        &&& self.bar_indices@.len() == N_MODEL_TYPES
        &&& self.play_indices@.len() == N_MODEL_TYPES
        &&& (forall|k: int|
            0 <= k < N_MODEL_TYPES ==> (#[trigger] self.bar_indices@[k])@.len()
                == self.play_indices@[k]@.len())
        &&& self.pending_distinct()
    }

    /// The play already has a request in some buffer.
    pub open spec fn is_pending(self, play_index: int) -> bool {
        exists|k: int, i: int|
            0 <= k < self.play_indices@.len() && 0 <= i < self.play_indices@[k]@.len()
                && #[trigger] self.play_indices@[k]@[i] == play_index
    }

    /// Number of pending requests over all variants.
    pub open spec fn pending_total(self) -> int {
        self.play_indices@[0]@.len() + self.play_indices@[1]@.len() + self.play_indices@[2]@.len()
            + self.play_indices@[3]@.len() as int
    }

    /// All pending play indices, in variant order, submission order kept
    /// within a variant.
    pub open spec fn pending_flat(self) -> Seq<usize> {
        self.play_indices@[0]@ + self.play_indices@[1]@ + self.play_indices@[2]@
            + self.play_indices@[3]@
    }

    /// The first `k` variants' pending play indices, concatenated.
    pub open spec fn pending_flat_up_to(self, k: int) -> Seq<usize> {
        if k <= 0 {
            Seq::empty()
        } else if k == 1 {
            self.play_indices@[0]@
        } else if k == 2 {
            self.play_indices@[0]@ + self.play_indices@[1]@
        } else if k == 3 {
            self.play_indices@[0]@ + self.play_indices@[1]@ + self.play_indices@[2]@
        } else {
            self.pending_flat()
        }
    }

    /// Every pending play index is below `n`.
    pub open spec fn pending_bounded(self, n: int) -> bool {
        forall|k: int, i: int|
            0 <= k < self.play_indices@.len() && 0 <= i < self.play_indices@[k]@.len()
                ==> #[trigger] self.play_indices@[k]@[i] < n
    }

    /// Fresh scheduler over a shared model set; `n_plays` only sizes
    /// buffers.
    pub fn new(models: Arc<ModelSet<M>>, n_plays: usize) -> (r: Inferrer<M>)
        requires
            models.wf(),
        ensures
            r.wf(),
            r.models == models,
            r.n_plays == n_plays,
            r.pending_total() == 0,
            forall|k: int|
                0 <= k < N_MODEL_TYPES ==> (#[trigger] r.bar_indices@[k])@.len() == 0
                    && r.play_indices@[k]@.len() == 0,
    {
        Inferrer { models, n_plays, bar_indices: empty_buffers(), play_indices: empty_buffers() }
    }

    /// Drop all pending requests.
    pub fn clear(&mut self)
        requires
            old(self).wf(),
        ensures
            final(self).wf(),
            final(self).models == old(self).models,
            final(self).n_plays == old(self).n_plays,
            final(self).pending_total() == 0,
            forall|k: int|
                0 <= k < N_MODEL_TYPES ==> (#[trigger] final(self).bar_indices@[k])@.len() == 0
                    && final(self).play_indices@[k]@.len() == 0,
    {
        self.bar_indices = empty_buffers();
        self.play_indices = empty_buffers();
    }

    /// Synchronous unbatched path: one model call for one bar, resolved
    /// immediately. What the model answers is its own affair.
    pub fn infer(&self, model_type: ModelType, bar_index: usize) -> (r: Utility)
        requires
            self.wf(),
    {
        let model: &M = self.models.model(model_type);
        let mut query: Vec<usize> = Vec::new();
        query.push(bar_index);
        let predictions: Vec<Utility> = model.infer(&query);
        predictions[0]
    }

    /// Buffer one play's request for one variant's next batched call.
    pub fn put_request(&mut self, play_index: usize, model_type: ModelType, bar_index: usize)
        requires
            old(self).wf(),
            !old(self).is_pending(play_index as int),
        ensures
            final(self).wf(),
            final(self).models == old(self).models,
            final(self).n_plays == old(self).n_plays,
            final(self).bar_indices@[model_type.as_index()]@ == old(self).bar_indices@[model_type.as_index()]@.push(bar_index),
            final(self).play_indices@[model_type.as_index()]@ == old(self).play_indices@[model_type.as_index()]@.push(play_index),
            forall|k: int|
                0 <= k < N_MODEL_TYPES && k != model_type.as_index() ==> (#[trigger] final(self).bar_indices@[k])@ == old(self).bar_indices@[k]@,
            forall|k: int|
                0 <= k < N_MODEL_TYPES && k != model_type.as_index() ==> (#[trigger] final(self).play_indices@[k])@ == old(self).play_indices@[k]@,
            final(self).pending_total() == old(self).pending_total() + 1,
    {
        let k: usize = model_type.index();
        self.bar_indices[k].push(bar_index);
        self.play_indices[k].push(play_index);
        proof {
            let s = *self;
            let o = *old(self);
            let ki = model_type.as_index();
            assert forall|k1: int, i1: int, k2: int, i2: int|
                #![trigger s.play_indices@[k1]@[i1], s.play_indices@[k2]@[i2]]
                0 <= k1 < s.play_indices@.len() && 0 <= i1 < s.play_indices@[k1]@.len() && 0 <= k2
                    < s.play_indices@.len() && 0 <= i2 < s.play_indices@[k2]@.len() && (k1 != k2
                    || i1 != i2) implies s.play_indices@[k1]@[i1] != s.play_indices@[k2]@[i2] by {
                if k1 == ki && i1 == o.play_indices@[ki]@.len() {
                    assert(s.play_indices@[k1]@[i1] == play_index);
                    assert(!o.is_pending(play_index as int));
                    assert(o.play_indices@[k2]@[i2] == s.play_indices@[k2]@[i2]);
                } else if k2 == ki && i2 == o.play_indices@[ki]@.len() {
                    assert(s.play_indices@[k2]@[i2] == play_index);
                    assert(!o.is_pending(play_index as int));
                    assert(o.play_indices@[k1]@[i1] == s.play_indices@[k1]@[i1]);
                } else {
                    assert(s.play_indices@[k1]@[i1] == o.play_indices@[k1]@[i1]);
                    assert(s.play_indices@[k2]@[i2] == o.play_indices@[k2]@[i2]);
                }
            }
        }
    }
}

/// The play index of each inference, in order.
pub open spec fn inference_indices(s: Seq<Inference>) -> Seq<usize> {
    s.map_values(|inf: Inference| inf.play_index)
}

/// Four empty per-variant buffers.
fn empty_buffers() -> (r: Vec<Vec<usize>>)
    ensures
        r@.len() == N_MODEL_TYPES,
        forall|k: int| 0 <= k < N_MODEL_TYPES ==> (#[trigger] r@[k])@.len() == 0,
{
    let mut r: Vec<Vec<usize>> = Vec::new();
    r.push(Vec::new());
    r.push(Vec::new());
    r.push(Vec::new());
    r.push(Vec::new());
    r
}

impl<M: Model> Inferrer<M> {
    /// Resolve every pending request with one model call per non-empty
    /// variant buffer; empty buffers cost no call. Returns exactly one
    /// `(play_index, prediction)` pair per pending request, in variant
    /// order, submission order kept within a variant, all play indices
    /// distinct; all buffers are left empty.
    pub fn fulfill_all_requests(&mut self) -> (r: Vec<Inference>)
        requires
            old(self).wf(),
        ensures
            final(self).wf(),
            final(self).models == old(self).models,
            final(self).n_plays == old(self).n_plays,
            final(self).pending_total() == 0,
            forall|k: int|
                0 <= k < N_MODEL_TYPES ==> (#[trigger] final(self).bar_indices@[k])@.len() == 0
                    && final(self).play_indices@[k]@.len() == 0,
            r@.len() == old(self).pending_total(),
            inference_indices(r@) == old(self).pending_flat(),
            forall|i: int, j: int|
                0 <= i < j < r@.len() ==> #[trigger] r@[i].play_index != #[trigger] r@[j].play_index,
    {
        let ghost o = *old(self);
        let mut result: Vec<Inference> = Vec::new();
        let all: Vec<ModelType> = ModelType::all();
        let mut k: usize = 0;
        while k < all.len()
            invariant
                self.wf(),
                *self == o,
                all@.len() == N_MODEL_TYPES,
                forall|i: int| 0 <= i < all@.len() ==> (#[trigger] all@[i]).as_index() == i,
                k <= all@.len(),
                inference_indices(result@) == o.pending_flat_up_to(k as int),
            decreases all@.len() - k,
        {
            let mt: ModelType = all[k];
            let ki: usize = mt.index();
            if self.bar_indices[ki].len() > 0 {
                let model: &M = self.models.model(mt);
                let predictions: Vec<Utility> = model.infer(&self.bar_indices[ki]);
                let n: usize = predictions.len();
                let mut i: usize = 0;
                while i < n
                    invariant
                        self.wf(),
                        *self == o,
                        k < N_MODEL_TYPES,
                        ki == k,
                        n == self.play_indices@[k as int]@.len(),
                        n == predictions@.len(),
                        i <= n,
                        inference_indices(result@) == o.pending_flat_up_to(k as int)
                            + o.play_indices@[k as int]@.take(i as int),
                    decreases n - i,
                {
                    let inference = Inference {
                        play_index: self.play_indices[ki][i],
                        prediction: predictions[i],
                    };
                    let ghost r0 = result@;
                    result.push(inference);
                    proof {
                        assert(result@ == r0.push(inference));
                        assert(inference_indices(result@) =~= inference_indices(r0).push(
                            inference.play_index,
                        ));
                        assert(inference.play_index == o.play_indices@[k as int]@[i as int]);
                        assert(inference_indices(result@) =~= o.pending_flat_up_to(k as int)
                            + o.play_indices@[k as int]@.take(i as int + 1));
                    }
                    i = i + 1;
                }
                proof {
                    assert(o.play_indices@[k as int]@.take(n as int) =~= o.play_indices@[k as int]@);
                    assert(o.pending_flat_up_to(k as int) + o.play_indices@[k as int]@
                        =~= o.pending_flat_up_to(k as int + 1));
                }
            } else {
                proof {
                    assert(o.pending_flat_up_to(k as int) =~= o.pending_flat_up_to(k as int + 1));
                }
            }
            k = k + 1;
        }
        self.clear();
        proof {
            assert(inference_indices(result@) == o.pending_flat());
            assert(result@.len() == o.pending_flat().len());
            assert(o.pending_flat().len() == o.pending_total());
            lemma_pending_flat_distinct(o);
            assert forall|i: int, j: int| 0 <= i < j < result@.len() implies result@[i].play_index
                != result@[j].play_index by {
                assert(inference_indices(result@)[i] == result@[i].play_index);
                assert(inference_indices(result@)[j] == result@[j].play_index);
            }
        }
        result
    }
}

/// In a well-formed scheduler the flattened pending play indices are
/// pairwise distinct.
pub proof fn lemma_pending_flat_distinct<M: Model>(inf: Inferrer<M>)
    requires
        inf.wf(),
    ensures
        forall|i: int, j: int|
            0 <= i < j < inf.pending_flat().len() ==> #[trigger] inf.pending_flat()[i]
                != #[trigger] inf.pending_flat()[j],
{
    let p = inf.play_indices@;
    let f = inf.pending_flat();
    let n0 = p[0]@.len() as int;
    let n1 = p[1]@.len() as int;
    let n2 = p[2]@.len() as int;
    let n3 = p[3]@.len() as int;
    assert forall|i: int, j: int| 0 <= i < j < f.len() implies #[trigger] f[i] != #[trigger] f[j] by {
        let ki = if i < n0 {
            0int
        } else if i < n0 + n1 {
            1int
        } else if i < n0 + n1 + n2 {
            2int
        } else {
            3int
        };
        let oi = if i < n0 {
            i
        } else if i < n0 + n1 {
            i - n0
        } else if i < n0 + n1 + n2 {
            i - n0 - n1
        } else {
            i - n0 - n1 - n2
        };
        let kj = if j < n0 {
            0int
        } else if j < n0 + n1 {
            1int
        } else if j < n0 + n1 + n2 {
            2int
        } else {
            3int
        };
        let oj = if j < n0 {
            j
        } else if j < n0 + n1 {
            j - n0
        } else if j < n0 + n1 + n2 {
            j - n0 - n1
        } else {
            j - n0 - n1 - n2
        };
        assert(f[i] == p[ki]@[oi]);
        assert(f[j] == p[kj]@[oj]);
        assert(ki != kj || oi != oj);
        assert(p[ki]@[oi] != p[kj]@[oj]);
    }
}

} // verus!
