use drill::workers::{default_worker_threads, worker_threads};

#[test]
fn the_pool_is_the_smaller_of_cores_and_concurrency() {
    assert_eq!(worker_threads(8, 3), 3);
    assert_eq!(worker_threads(2, 3), 2);
    assert_eq!(worker_threads(4, 4), 4);
    assert_eq!(worker_threads(1, i64::MAX), 1);
    assert_eq!(worker_threads(usize::MAX, 1), 1);
}

#[test]
fn a_machine_without_cores_gets_no_thread() {
    assert_eq!(worker_threads(0, 5), 0);
}

#[test]
fn this_machine_gives_at_least_one_thread() {
    assert_eq!(default_worker_threads(1), 1);
    let threads = default_worker_threads(1_000_000);
    assert!(threads >= 1);
    assert_eq!(threads, num_cpus::get());
    assert_eq!(default_worker_threads(2), num_cpus::get().min(2));
}
