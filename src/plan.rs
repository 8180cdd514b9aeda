use vstd::prelude::*;

verus! {

// The activation vectors of a forward pass are numbered 0 for the network's
// input and `a` (a > 0) for the output of layer `a - 1`. A network's shape is
// given as, for each layer, the weight count of each of its neurons.

/// The smaller of two naturals.
pub open spec fn min_nat(a: nat, b: nat) -> nat {
    if a <= b {
        a
    } else {
        b
    }
}

/// The activation vector that updates the weights of layer `l` in a network of
/// `n_layers` layers: the vector that fed it, except for the first layer, which
/// is updated with the vector that fed the last layer.
pub open spec fn feeding_source(n_layers: nat, l: nat) -> nat {
    if l == 0 {
        (n_layers - 1) as nat
    } else {
        l
    }
}

/// The length of activation vector `a`: the input's length, or the neuron
/// count of the layer that produced it.
pub open spec fn source_len(shape: Seq<Vec<usize>>, input_len: nat, a: nat) -> nat {
    if a == 0 {
        input_len
    } else {
        shape[a - 1]@.len()
    }
}

/// How many neurons of layer `l` are updated: errors are paired with neurons
/// by position, the output error has one entry per output paired with a
/// target, and each layer passes on only as many error entries as it paired.
pub open spec fn updated_neurons(shape: Seq<Vec<usize>>, target_len: nat, l: int) -> nat
    decreases shape.len() - l,
{
    if l < 0 || l >= shape.len() - 1 {
        min_nat(shape.last()@.len(), target_len)
    } else {
        min_nat(updated_neurons(shape, target_len, l + 1), shape[l]@.len())
    }
}

/// The updates that one backpropagation step makes to one layer: neuron `k`
/// (for `k < weights.len()`) gets its bias and its first `weights[k]` weights
/// moved, using error entry `k` and activation vector `source`.
#[derive(Debug)]
pub struct LayerStep {
    pub layer: usize,
    pub source: usize,
    pub weights: Vec<usize>,
}

/// `step` is what one backpropagation step does to layer `l`.
pub open spec fn is_layer_step(
    step: LayerStep,
    shape: Seq<Vec<usize>>,
    input_len: nat,
    target_len: nat,
    l: int,
) -> bool {
    let src = feeding_source(shape.len(), l as nat);
    &&& step.layer == l
    &&& step.source == src
    &&& step.weights@.len() == updated_neurons(shape, target_len, l)
    &&& forall|k: int|
        0 <= k < step.weights@.len() ==> #[trigger] step.weights@[k] == min_nat(
            shape[l][k] as nat,
            source_len(shape, input_len, src),
        )
}

/// The updates of one backpropagation step on a network of the given shape,
/// for an input of `input_len` values and `target_len` targets, one entry per
/// layer, last layer first.
pub fn backprop_plan(shape: &Vec<Vec<usize>>, input_len: usize, target_len: usize) -> (r: Vec<LayerStep>)
    requires
        shape@.len() >= 1,
    ensures
        r@.len() == shape@.len(),
        forall|i: int|
            0 <= i < r@.len() ==> is_layer_step(
                #[trigger] r@[i],
                shape@,
                input_len as nat,
                target_len as nat,
                shape@.len() - 1 - i,
            ),
{
    let n = shape.len();
    let out_len = shape[n - 1].len();
    let mut errors: usize = if out_len <= target_len { out_len } else { target_len };
    let mut r: Vec<LayerStep> = Vec::new();
    let mut idx: usize = 0;
    while idx < n
        invariant
            n == shape@.len(),
            out_len == shape@.last()@.len(),
            idx <= n,
            r@.len() == idx,
            idx == 0 ==> errors == min_nat(out_len as nat, target_len as nat),
            idx > 0 ==> errors == updated_neurons(shape@, target_len as nat, n - idx),
            forall|i: int|
                0 <= i < idx ==> is_layer_step(
                    #[trigger] r@[i],
                    shape@,
                    input_len as nat,
                    target_len as nat,
                    n - 1 - i,
                ),
        decreases n - idx,
    {
        let l = n - 1 - idx;
        let neurons = &shape[l];
        let count = if errors <= neurons.len() { errors } else { neurons.len() };
        assert(count == updated_neurons(shape@, target_len as nat, l as int));
        let source = if l == 0 { n - 1 } else { l };
        let available = if source == 0 { input_len } else { shape[source - 1].len() };
        let mut weights: Vec<usize> = Vec::new();
        let mut k: usize = 0;
        while k < count
            invariant
                count <= neurons@.len(),
                k <= count,
                weights@.len() == k,
                forall|j: int|
                    0 <= j < k ==> #[trigger] weights@[j] == min_nat(
                        neurons@[j] as nat,
                        available as nat,
                    ),
            decreases count - k,
        {
            let w = if neurons[k] <= available { neurons[k] } else { available };
            weights.push(w);
            k = k + 1;
        }
        r.push(LayerStep { layer: l, source, weights });
        errors = count;
        idx = idx + 1;
    }
    r
}

/// In a network whose output layer takes the width of the vector that feeds
/// it, with one target per output, one backpropagation step moves every bias
/// and every weight of the output layer, each weight by the entry of that
/// feeding vector in its own position.
pub proof fn lemma_output_layer_fully_updated(shape: Seq<Vec<usize>>, input_len: nat, target_len: nat)
    requires
        shape.len() >= 1,
        target_len == shape.last()@.len(),
        forall|k: int|
            0 <= k < shape.last()@.len() ==> #[trigger] shape.last()@[k] == source_len(
                shape,
                input_len,
                (shape.len() - 1) as nat,
            ),
    ensures
        feeding_source(shape.len(), (shape.len() - 1) as nat) == shape.len() - 1,
        updated_neurons(shape, target_len, shape.len() - 1) == shape.last()@.len(),
        forall|k: int|
            0 <= k < shape.last()@.len() ==> #[trigger] min_nat(
                shape.last()@[k] as nat,
                source_len(shape, input_len, (shape.len() - 1) as nat),
            ) == shape.last()@[k],
{
}

} // verus!
