use fifo_bounded_buffer::Queue;
use rand::Rng;
use std::sync::Arc;
use std::time::Instant;

// Producers and consumers take turns on one thread. A turn is given only to
// a side that can go on without waiting, so no call ever blocks.
fn run_test(
    num_producers: usize,
    num_consumers: usize,
    items: usize,
    queue_size: usize,
    delay: bool,
) {
    let queue: Arc<Queue<Box<usize>>> = Queue::new(queue_size);
    let start = Instant::now();

    let mut rng = rand::rng();
    let mut next_item = vec![0usize; num_producers];
    let mut consumed = vec![0usize; num_consumers];
    let mut last_seen = vec![vec![None; num_producers]; num_consumers];
    let mut total_produced = 0usize;
    let mut buffered = 0usize;
    let mut producer = 0usize;
    let mut consumer = 0usize;

    let target = num_producers * items;
    while total_produced < target || buffered > 0 {
        let can_produce = total_produced < target && buffered < queue_size;
        let can_consume = buffered > 0;
        let produce = if can_produce && can_consume {
            if delay {
                rng.random_range(0..2u32) == 0
            } else {
                true
            }
        } else {
            can_produce
        };
        if produce {
            while next_item[producer] == items {
                producer = (producer + 1) % num_producers;
            }
            queue.enqueue(Box::new(producer * items + next_item[producer]));
            next_item[producer] += 1;
            total_produced += 1;
            buffered += 1;
            producer = (producer + 1) % num_producers;
        } else {
            let item = *queue.dequeue().expect("an item is buffered");
            let (from, number) = (item / items, item % items);
            // What one producer made reaches every consumer in the order
            // in which it was made.
            if let Some(before) = last_seen[consumer][from] {
                assert!(before < number);
            }
            last_seen[consumer][from] = Some(number);
            consumed[consumer] += 1;
            buffered -= 1;
            consumer = (consumer + 1) % num_consumers;
        }
        assert_eq!(queue.is_empty(), buffered == 0);
    }

    queue.shutdown();

    // Every consumer now finds the queue empty and shut down, and stops.
    for _ in 0..num_consumers {
        match queue.dequeue() {
            Some(_) => panic!("the queue was drained"),
            None => assert!(queue.is_shutdown()),
        }
    }
    let total_consumed: usize = consumed.iter().sum();

    let elapsed = start.elapsed();

    assert_eq!(
        total_produced, total_consumed,
        "Mismatch: {} != {}",
        total_produced, total_consumed
    );
    assert!(queue.is_empty());
    println!(
        "Test completed: {} producers, {} consumers, {} items/thread, queue size {}, delay {} — Time: {:.2?}",
        num_producers, num_consumers, items, queue_size, delay, elapsed
    );
}

#[test]
fn integration_scenarios() {
    let configs = vec![
        (2, 2, 10, 5, false),
        (4, 4, 20, 10, true),
        (8, 2, 15, 8, false),
        (2, 8, 15, 8, true),
        (3, 3, 50, 20, true),
        (1, 1, 10, 5, false),
        (2, 2, 50, 10, false),
        (4, 2, 100, 20, false),
        (2, 4, 100, 10, false),
        (1, 8, 80, 5, false),
        (8, 1, 10, 2, false),
        (4, 4, 1000, 50, true),
        (8, 8, 1000, 100, true),
        (16, 4, 500, 10, true),
        (4, 16, 500, 10, true),
        (1, 1, 1000, 1, true),
        (3, 5, 200, 3, true),
        (5, 3, 200, 3, true),
        (6, 6, 600, 6, true),
        (10, 2, 150, 2, true),
        (2, 10, 150, 2, true),
    ];

    for (p, c, items, size, delay) in configs {
        run_test(p, c, items, size, delay);
    }
}
