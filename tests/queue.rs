use adaptive_equalizer::queue::{SampleQueue, SILENCE};

#[test]
fn push_within_capacity_takes_everything() {
    let mut q = SampleQueue::new(8);
    assert_eq!(q.push(&[1, 2, 3]), 3);
    assert_eq!(q.len(), 3);
}

#[test]
fn push_beyond_capacity_truncates() {
    let mut q = SampleQueue::new(4);
    assert_eq!(q.push(&[1, 2, 3]), 3);
    assert_eq!(q.push(&[4, 5, 6]), 1);
    assert_eq!(q.len(), 4);
    assert_eq!(q.push(&[7]), 0);
    let mut out = [0u32; 4];
    assert_eq!(q.pop(&mut out), 4);
    assert_eq!(out, [1, 2, 3, 4]);
}

#[test]
fn counting_sequence_comes_out_in_order() {
    let mut q = SampleQueue::new(16);
    let mut next: u32 = 0;
    let mut popped: Vec<u32> = Vec::new();
    let mut total_pushed: usize = 0;
    for round in 0..50u32 {
        let block: Vec<u32> = (0..(round % 7 + 1)).map(|k| next + k).collect();
        let taken = q.push(&block);
        total_pushed += taken;
        next += taken as u32;
        let mut out = vec![0u32; (round % 5) as usize];
        let n = q.pop(&mut out);
        popped.extend_from_slice(&out[..n]);
        assert!(popped.len() <= total_pushed);
    }
    for (i, v) in popped.iter().enumerate() {
        assert_eq!(*v, i as u32);
    }
}

#[test]
fn pop_from_empty_queue_leaves_destination() {
    let mut q = SampleQueue::new(4);
    let mut out = [9u32, 9, 9];
    assert_eq!(q.pop(&mut out), 0);
    assert_eq!(out, [9, 9, 9]);
}

#[test]
fn short_pop_leaves_rest_of_destination() {
    let mut q = SampleQueue::new(4);
    q.push(&[5, 6]);
    let mut out = [9u32, 9, 9, 9];
    assert_eq!(q.pop(&mut out), 2);
    assert_eq!(out, [5, 6, 9, 9]);
    assert_eq!(q.len(), 0);
}

#[test]
fn consumer_fills_underrun_with_silence() {
    let q = SampleQueue::new(8);
    let (mut producer, mut consumer) = q.split();
    assert_eq!(producer.push(&[11, 12, 13]), 3);
    let mut out = [7u32; 6];
    assert_eq!(consumer.pop(&mut out), 3);
    assert_eq!(out, [11, 12, 13, SILENCE, SILENCE, SILENCE]);
}

#[test]
fn consumer_on_empty_queue_gives_only_silence() {
    let q = SampleQueue::new(8);
    let (_producer, mut consumer) = q.split();
    let mut out = [7u32; 4];
    assert_eq!(consumer.pop(&mut out), 0);
    assert_eq!(out, [SILENCE; 4]);
}

#[test]
fn producer_drops_what_does_not_fit() {
    let q = SampleQueue::new(4);
    let (mut producer, mut consumer) = q.split();
    assert_eq!(producer.push(&[1, 2, 3, 4, 5, 6]), 4);
    let mut out = [0u32; 6];
    assert_eq!(consumer.pop(&mut out), 4);
    assert_eq!(out, [1, 2, 3, 4, SILENCE, SILENCE]);
}

#[test]
fn silence_is_the_zero_sample() {
    assert_eq!(SILENCE, 0.0f32.to_bits());
}
