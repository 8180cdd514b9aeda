use perceptron::schedule::{batches, shuffled_indices, training_schedule};

fn sorted(mut v: Vec<usize>) -> Vec<usize> {
    v.sort();
    v
}

#[test]
fn shuffled_indices_hold_each_index_once() {
    assert_eq!(sorted(shuffled_indices(10)), (0..10).collect::<Vec<usize>>());
    assert_eq!(shuffled_indices(0), Vec::<usize>::new());
}

#[test]
fn shuffled_indices_are_rearranged() {
    let v = shuffled_indices(1000);
    assert_ne!(v, (0..1000).collect::<Vec<usize>>());
}

#[test]
fn batches_cut_in_order_with_a_short_last_one() {
    let b = batches(&vec![4, 0, 3, 1, 2], 2);
    assert_eq!(b, vec![vec![4, 0], vec![3, 1], vec![2]]);
}

#[test]
fn batches_of_exact_multiple() {
    let b = batches(&vec![0, 1, 2, 3], 2);
    assert_eq!(b, vec![vec![0, 1], vec![2, 3]]);
}

#[test]
fn batch_larger_than_data_is_one_batch() {
    assert_eq!(batches(&vec![1, 0], 100), vec![vec![1, 0]]);
}

#[test]
fn no_data_gives_no_batches() {
    assert_eq!(batches(&vec![], 3), Vec::<Vec<usize>>::new());
}

#[test]
fn zero_epochs_schedule_nothing() {
    assert!(training_schedule(0, 10, 10, 3).is_empty());
    assert!(training_schedule(-4, 10, 10, 0).is_empty());
}

#[test]
fn each_epoch_visits_every_paired_example_once() {
    let s = training_schedule(3, 5, 3, 2);
    assert_eq!(s.len(), 3);
    for epoch in s {
        let lens: Vec<usize> = epoch.iter().map(|b| b.len()).collect();
        assert_eq!(lens, vec![2, 1]);
        let all: Vec<usize> = epoch.into_iter().flatten().collect();
        assert_eq!(sorted(all), vec![0, 1, 2]);
    }
}
