use todo_storage::Queue;

#[test]
fn queue_is_fifo() {
    let mut queue = Queue::new();
    queue.enqueue(1_u8);
    queue.enqueue(2_u8);
    queue.enqueue(3_u8);

    assert_eq!(queue.peek(), Some(&1_u8));
    assert_eq!(queue.dequeue(), Some(1_u8));
    assert_eq!(queue.dequeue(), Some(2_u8));
    assert_eq!(queue.dequeue(), Some(3_u8));
    assert!(queue.is_empty());
}

#[test]
fn queue_can_remove_at_logical_index() {
    let mut queue = Queue::new();
    queue.enqueue(10_u8);
    queue.enqueue(20_u8);
    queue.enqueue(30_u8);
    queue.enqueue(40_u8);

    assert_eq!(queue.remove_at(1), Some(20_u8));
    assert_eq!(queue.len(), 3);
    assert_eq!(queue.dequeue(), Some(10_u8));
    assert_eq!(queue.dequeue(), Some(30_u8));
    assert_eq!(queue.dequeue(), Some(40_u8));
    assert!(queue.is_empty());
}

#[test]
fn empty_queue_has_nothing_to_give() {
    let mut queue: Queue<u32> = Queue::default();
    assert!(queue.is_empty());
    assert_eq!(queue.len(), 0);
    assert_eq!(queue.peek(), None);
    assert_eq!(queue.dequeue(), None);
    assert_eq!(queue.remove_at(0), None);
    assert!(queue.iter().is_empty());
}

#[test]
fn interleaved_enqueues_and_dequeues_keep_fifo_order() {
    let mut queue = Queue::new();
    let mut out = Vec::new();
    queue.enqueue(1_u32);
    queue.enqueue(2);
    out.push(queue.dequeue().unwrap());
    queue.enqueue(3);
    out.push(queue.dequeue().unwrap());
    out.push(queue.dequeue().unwrap());
    assert_eq!(queue.dequeue(), None);
    queue.enqueue(4);
    out.push(queue.dequeue().unwrap());
    assert_eq!(out, vec![1, 2, 3, 4]);
}

#[test]
fn remove_at_out_of_range_leaves_queue_alone() {
    let mut queue = Queue::new();
    queue.enqueue('a');
    queue.enqueue('b');
    assert_eq!(queue.remove_at(2), None);
    assert_eq!(queue.remove_at(usize::MAX), None);
    assert_eq!(queue.len(), 2);
    assert_eq!(queue.iter(), vec![&'a', &'b']);
}

#[test]
fn remove_at_front_and_back() {
    let mut queue = Queue::new();
    for v in 1..=5_u8 {
        queue.enqueue(v);
    }
    assert_eq!(queue.remove_at(0), Some(1));
    assert_eq!(queue.remove_at(3), Some(5));
    assert_eq!(queue.iter(), vec![&2, &3, &4]);
    assert_eq!(queue.peek(), Some(&2));
}

#[test]
fn remove_at_after_dequeues_counts_from_the_front() {
    let mut queue = Queue::new();
    for v in 0..10_u16 {
        queue.enqueue(v);
    }
    for _ in 0..4 {
        queue.dequeue();
    }
    assert_eq!(queue.remove_at(2), Some(6));
    assert_eq!(queue.iter(), vec![&4, &5, &7, &8, &9]);
}

#[test]
fn long_runs_through_compaction_keep_order() {
    let mut queue = Queue::new();
    for v in 0..300_u32 {
        queue.enqueue(v);
    }
    for expected in 0..200_u32 {
        assert_eq!(queue.dequeue(), Some(expected));
    }
    assert_eq!(queue.len(), 100);
    for v in 300..350_u32 {
        queue.enqueue(v);
    }
    let rest: Vec<u32> = queue.iter().into_iter().copied().collect();
    assert_eq!(rest, (200..350).collect::<Vec<u32>>());
    for expected in 200..350_u32 {
        assert_eq!(queue.dequeue(), Some(expected));
    }
    assert!(queue.is_empty());
    queue.enqueue(7);
    assert_eq!(queue.peek(), Some(&7));
}

#[test]
fn iter_is_restartable_and_oldest_first() {
    let mut queue = Queue::new();
    queue.enqueue("x".to_string());
    queue.enqueue("y".to_string());
    queue.dequeue();
    queue.enqueue("z".to_string());
    let first: Vec<&String> = queue.iter();
    let second: Vec<&String> = queue.iter();
    assert_eq!(first, second);
    assert_eq!(first, vec!["y", "z"]);
}
