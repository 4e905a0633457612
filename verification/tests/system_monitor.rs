use std::collections::VecDeque;

use codex_pulse::system_monitor::{average_frequency, padded_history, push_sample, HISTORY_LENGTH};

#[test]
fn history_keeps_the_last_samples() {
    let mut history: VecDeque<u32> = VecDeque::new();
    for sample in 0..100u32 {
        push_sample(&mut history, sample);
        assert!(history.len() <= HISTORY_LENGTH);
    }
    assert_eq!(history.len(), HISTORY_LENGTH);
    assert_eq!(history.front(), Some(&60));
    assert_eq!(history.back(), Some(&99));
}

#[test]
fn padded_history_has_a_fixed_length() {
    let empty: VecDeque<f32> = VecDeque::new();
    let graph = padded_history(&empty, 0.0);
    assert_eq!(graph, vec![0.0f32; HISTORY_LENGTH]);

    let mut history: VecDeque<f32> = VecDeque::new();
    push_sample(&mut history, 12.5);
    push_sample(&mut history, 40.0);
    let graph = padded_history(&history, 0.0);
    assert_eq!(graph.len(), HISTORY_LENGTH);
    assert_eq!(graph[0], 12.5);
    assert_eq!(graph[HISTORY_LENGTH - 3], 12.5);
    assert_eq!(graph[HISTORY_LENGTH - 2], 12.5);
    assert_eq!(graph[HISTORY_LENGTH - 1], 40.0);
}

#[test]
fn average_frequency_rounds_down() {
    assert_eq!(average_frequency(&vec![]), None);
    assert_eq!(average_frequency(&vec![3000]), Some(3000));
    assert_eq!(average_frequency(&vec![3000, 3001]), Some(3000));
    assert_eq!(average_frequency(&vec![1000, 2000, 4000]), Some(2333));
}

#[test]
fn graph_after_many_snapshots() {
    let mut history: VecDeque<u32> = VecDeque::new();
    for sample in 1..=45u32 {
        push_sample(&mut history, sample);
    }
    let graph = padded_history(&history, 0);
    let expected: Vec<u32> = (6..=45u32).collect();
    assert_eq!(graph, expected);

    let mut short: VecDeque<u32> = VecDeque::new();
    for sample in 1..=3u32 {
        push_sample(&mut short, sample);
    }
    let graph = padded_history(&short, 0);
    let mut expected = vec![1u32; HISTORY_LENGTH - 3];
    expected.extend([1, 2, 3]);
    assert_eq!(graph, expected);
}
