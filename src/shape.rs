use vstd::prelude::*;

verus! {

/// The error raised when an input vector does not have the width that the
/// network's first layer expects.
#[derive(Debug, Clone, Copy, PartialEq, Eq, Structural)]
pub struct ShapeMismatchError {
    pub expected: usize,
    pub found: usize,
}

/// Checks the length of an input vector against the network's input width.
pub fn check_input_len(expected: usize, found: usize) -> (r: Result<(), ShapeMismatchError>)
    ensures
        r is Ok <==> found == expected,
        found != expected ==> r == Err::<(), ShapeMismatchError>(ShapeMismatchError { expected, found }),
{
    if found == expected {
        Ok(())
    } else {
        Err(ShapeMismatchError { expected, found })
    }
}

/// The number of units that a signed size asks for: a negative size asks for none.
pub open spec fn width(x: i32) -> nat {
    if x < 0 {
        0
    } else {
        x as nat
    }
}

/// The dimensions of one fully-connected layer: how many neurons it holds, and
/// how many inputs (weights) each of them takes.
#[derive(Debug, Clone, Copy, PartialEq, Eq, Structural)]
pub struct LayerDims {
    pub neurons: usize,
    pub inputs: usize,
}

/// The number of neurons of layer `i` in a network built from these sizes: the
/// hidden sizes in order, then the output size.
pub open spec fn built_neurons(output_size: i32, hidden: Seq<i32>, i: int) -> nat {
    if i < hidden.len() {
        width(hidden[i])
    } else {
        width(output_size)
    }
}

/// The input width of layer `i` in a network built from these sizes: the
/// network's input size for the first layer, else the width of the layer before.
pub open spec fn built_inputs(input_size: i32, hidden: Seq<i32>, i: int) -> nat {
    if i == 0 {
        width(input_size)
    } else {
        width(hidden[i - 1])
    }
}

/// A stack of layers that fits together: the first takes `input` values, each
/// later one takes as many values as the one before it yields, and the last
/// yields `output` values.
pub open spec fn is_chain(dims: Seq<LayerDims>, input: nat, output: nat) -> bool {
    &&& dims.len() >= 1
    &&& dims[0].inputs == input
    &&& dims.last().neurons == output
    &&& forall|i: int| 0 < i < dims.len() ==> #[trigger] dims[i].inputs == dims[i - 1].neurons
}

/// The dimensions of the layers of a network with `input_size` inputs,
/// `output_size` outputs and the given hidden layer sizes, first layer first.
pub open spec fn built_dims(input_size: i32, output_size: i32, hidden: Seq<i32>) -> Seq<LayerDims> {
    Seq::new(
        hidden.len() + 1,
        |i: int|
            LayerDims {
                neurons: built_neurons(output_size, hidden, i) as usize,
                inputs: built_inputs(input_size, hidden, i) as usize,
            },
    )
}

fn size_of(x: i32) -> (r: usize)
    ensures
        r == width(x),
{
    if x < 0 {
        0
    } else {
        x as usize
    }
}

/// The dimensions of the layers that a network built from these sizes holds,
/// in order: one per hidden size, then the output layer.
pub fn layer_dims(input_size: i32, output_size: i32, hidden: &Vec<i32>) -> (r: Vec<LayerDims>)
    ensures
        r@ == built_dims(input_size, output_size, hidden@),
        is_chain(r@, width(input_size), width(output_size)),
{
    let mut r: Vec<LayerDims> = Vec::new();
    let mut prev: usize = size_of(input_size);
    let mut i: usize = 0;
    while i < hidden.len()
        invariant
            i <= hidden@.len(),
            r@ == built_dims(input_size, output_size, hidden@).subrange(0, i as int),
            prev == built_inputs(input_size, hidden@, i as int),
        decreases hidden@.len() - i,
    {
        let size = size_of(hidden[i]);
        r.push(LayerDims { neurons: size, inputs: prev });
        prev = size;
        i = i + 1;
        assert(r@ =~= built_dims(input_size, output_size, hidden@).subrange(0, i as int));
    }
    r.push(LayerDims { neurons: size_of(output_size), inputs: prev });
    assert(r@ =~= built_dims(input_size, output_size, hidden@));
    proof {
        lemma_built_dims_chain(input_size, output_size, hidden@);
    }
    r
}

/// A network built from any sizes fits together: its first layer takes the
/// input size, each layer takes what the one before yields, and its last layer
/// yields the output size, so a forward pass yields `output_size` values.
pub proof fn lemma_built_dims_chain(input_size: i32, output_size: i32, hidden: Seq<i32>)
    ensures
        is_chain(built_dims(input_size, output_size, hidden), width(input_size), width(output_size)),
{
}

} // verus!
