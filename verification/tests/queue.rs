use quedo_daemon::controller::queue::SingleFlightQueue;
use quedo_daemon::error::AppError;

#[test]
fn enqueue_and_start_on_empty_queue() {
    let mut queue = SingleFlightQueue::new(1);
    let first = String::from("/tmp/a.wav");
    queue.enqueue(first.clone()).expect("enqueue");
    assert_eq!(queue.start_next(), Some(first));
    assert_eq!(queue.start_next(), None);
}

#[test]
fn queue_rejects_when_full() {
    let mut queue = SingleFlightQueue::new(1);
    queue.enqueue(String::from("/tmp/a.wav")).expect("enqueue");
    let error = queue
        .enqueue(String::from("/tmp/b.wav"))
        .expect_err("must be full");
    assert!(matches!(error, AppError::Controller(message) if message.contains("queue full")));
}

#[test]
fn queue_fifo_ordering() {
    let mut queue = SingleFlightQueue::new(2);
    let a = String::from("/tmp/a.wav");
    let b = String::from("/tmp/b.wav");
    queue.enqueue(a.clone()).expect("enqueue a");
    queue.enqueue(b.clone()).expect("enqueue b");

    assert_eq!(queue.start_next(), Some(a));
    queue.mark_finished();
    assert_eq!(queue.start_next(), Some(b));
}

#[test]
fn mark_finished_underflow_safe() {
    let mut queue = SingleFlightQueue::new(1);
    queue.mark_finished();
    queue.mark_finished();
    queue.enqueue(String::from("/tmp/a.wav")).expect("enqueue");
    assert!(queue.start_next().is_some());
}

#[test]
fn rapid_queue_operations_hold_single_flight_policy() {
    let mut queue = SingleFlightQueue::new(1);

    for index in 0..2_000 {
        let first = format!("/tmp/job-{index}.wav");
        queue.enqueue(first.clone()).expect("first enqueue");

        let overflow = queue.enqueue(format!("/tmp/job-{index}-overflow.wav"));
        assert!(
            overflow.is_err(),
            "queue accepted an overflow job at index {index}"
        );

        assert_eq!(queue.start_next(), Some(first));
        assert!(queue.start_next().is_none());

        queue.mark_finished();
        queue.mark_finished();
    }
}
