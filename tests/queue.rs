use playhead::queue::sample_queue;

#[test]
fn queue_reports_its_capacity() {
    let (p, c) = sample_queue(5);
    assert_eq!(p.capacity(), 5);
    assert_eq!(c.capacity(), 5);
}

#[test]
fn full_queue_refuses_and_empty_queue_underruns() {
    let (mut p, mut c) = sample_queue(2);
    assert_eq!(c.pop(), None);
    assert!(p.push(1));
    assert!(p.push(2));
    assert!(p.is_full());
    assert!(!p.push(3));
    assert_eq!(c.pop(), Some(1));
    assert!(p.push(3));
    assert_eq!(c.pop(), Some(2));
    assert_eq!(c.pop(), Some(3));
    assert_eq!(c.pop(), None);
}

#[test]
fn interleaved_pushes_and_pops_stay_within_capacity() {
    let (mut p, mut c) = sample_queue(3);
    let mut expected = std::collections::VecDeque::new();
    let mut next = 0;
    for round in 0..200u32 {
        let pushes = (round * 7 + 3) % 5;
        let pops = (round * 5 + 1) % 4;
        for _ in 0..pushes {
            if p.push(next) {
                expected.push_back(next);
            }
            next += 1;
            assert!(p.len() <= 3);
        }
        for _ in 0..pops {
            assert_eq!(c.pop(), expected.pop_front());
            assert!(c.len() <= 3);
        }
        assert_eq!(c.len(), expected.len());
    }
}

#[test]
fn new_queue_starts_empty() {
    let (p, mut c) = sample_queue(4);
    assert_eq!(p.len(), 0);
    assert_eq!(c.len(), 0);
    assert_eq!(c.pop(), None);
}
