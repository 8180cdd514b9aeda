use perceptron::plan::backprop_plan;

#[test]
fn single_layer_updates_every_weight_with_the_input() {
    // two inputs, one neuron with two weights
    let p = backprop_plan(&vec![vec![2]], 2, 1);
    assert_eq!(p.len(), 1);
    assert_eq!(p[0].layer, 0);
    assert_eq!(p[0].source, 0);
    assert_eq!(p[0].weights, vec![2]);
}

#[test]
fn output_layer_is_visited_first_with_its_own_input() {
    // 2 inputs -> 8 hidden -> 1 output
    let shape = vec![vec![2; 8], vec![8]];
    let p = backprop_plan(&shape, 2, 1);
    assert_eq!(p.len(), 2);
    assert_eq!(p[0].layer, 1);
    assert_eq!(p[0].source, 1);
    assert_eq!(p[0].weights, vec![8]);
}

#[test]
fn first_layer_reuses_the_output_layers_source() {
    let shape = vec![vec![2; 8], vec![8]];
    let p = backprop_plan(&shape, 2, 1);
    assert_eq!(p[1].layer, 0);
    assert_eq!(p[1].source, 1);
    // the error has one entry, so only the first hidden neuron moves
    assert_eq!(p[1].weights, vec![2]);
}

#[test]
fn middle_layers_use_the_vector_that_fed_them() {
    // 3 inputs -> 4 -> 5 -> 2 outputs
    let shape = vec![vec![3; 4], vec![4; 5], vec![5; 2]];
    let p = backprop_plan(&shape, 3, 2);
    let layers: Vec<usize> = p.iter().map(|s| s.layer).collect();
    let sources: Vec<usize> = p.iter().map(|s| s.source).collect();
    assert_eq!(layers, vec![2, 1, 0]);
    assert_eq!(sources, vec![2, 1, 2]);
    assert_eq!(p[0].weights, vec![5, 5]);
    assert_eq!(p[1].weights, vec![4, 4]);
    // the first layer is fed 3 values but updated against a vector of 5
    assert_eq!(p[2].weights, vec![3, 3]);
}

#[test]
fn fewer_targets_than_outputs_update_fewer_neurons() {
    let p = backprop_plan(&vec![vec![2, 2, 2]], 2, 2);
    assert_eq!(p[0].weights, vec![2, 2]);
}

#[test]
fn more_targets_than_outputs_are_ignored() {
    let p = backprop_plan(&vec![vec![2, 2]], 2, 5);
    assert_eq!(p[0].weights, vec![2, 2]);
}

#[test]
fn weights_beyond_the_source_length_are_left() {
    // a neuron with more weights than the input has values
    let p = backprop_plan(&vec![vec![4, 1]], 2, 2);
    assert_eq!(p[0].weights, vec![2, 1]);
}

#[test]
fn no_targets_means_no_updates() {
    let p = backprop_plan(&vec![vec![2; 3], vec![3]], 2, 0);
    assert!(p.iter().all(|s| s.weights.is_empty()));
}
