use webserver::config::Config;
use webserver::pool::{worker_ids, JobQueue, PoolCreationError};

#[test]
fn zero_threads_is_refused() {
    assert!(matches!(worker_ids(0), Err(PoolCreationError::ZeroThreads(_))));
}

#[test]
fn one_worker_per_thread() {
    for size in [1usize, 4, 17] {
        let ids = worker_ids(size).ok().unwrap();
        assert_eq!(ids, (0..size).collect::<Vec<usize>>());
    }
}

#[test]
fn each_job_taken_once_in_order() {
    let mut q: JobQueue<u32> = JobQueue::new();
    assert_eq!(q.take(0), None);
    for j in 0..100u32 {
        q.push(j);
    }
    let mut got = Vec::new();
    let mut w = 0usize;
    while let Some(j) = q.take(w % 4) {
        got.push(j);
        w += 1;
    }
    assert_eq!(got, (0..100u32).collect::<Vec<u32>>());
    assert_eq!(q.take(0), None);
}

#[test]
fn config_holds_values() {
    let c = Config::from_values(4, "127.0.0.1:7878".to_string());
    assert_eq!(c.thread_count(), 4);
    assert_eq!(c.ip(), "127.0.0.1:7878");
}
