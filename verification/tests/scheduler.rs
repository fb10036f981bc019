use drill::config::Config;
use drill::render::render;
use drill::scheduler::{Fatal, Scheduler};

fn config(iterations: i64, concurrency: i64) -> Config {
    Config {
        base: String::from("http://localhost:9000"),
        concurrency,
        iterations,
        relaxed_interpolations: false,
        no_check_certificate: false,
        rampup: 0,
        quiet: true,
        nanosec: false,
        timeout: 10,
        verbose: false,
    }
}

/// Drives a run to its end, ending the iteration that has run longest
/// whenever no other one may start, and gives the highest number of
/// iterations that ran at once.
fn drive(run: &mut Scheduler<i64>) -> i64 {
    let mut running: Vec<i64> = Vec::new();
    let mut peak = 0;
    while !run.is_done() {
        while let Some(index) = run.start_next() {
            running.push(index);
        }
        assert_eq!(run.running(), running.len() as i64);
        peak = peak.max(run.running());
        let ended = running.remove(0);
        run.complete(vec![ended]);
    }
    assert!(running.is_empty());
    peak
}

#[test]
fn a_run_returns_one_report_sequence_for_each_iteration() {
    for iterations in 1..=12 {
        for concurrency in 1..=iterations {
            let mut run = Scheduler::<i64>::new(&config(iterations, concurrency), 3, false)
                .ok()
                .unwrap();
            drive(&mut run);
            let outcome = run.finish(1_000);
            assert_eq!(outcome.result.reports.len() as i64, iterations);
            assert_eq!(outcome.result.duration, 1_000);
            assert!(outcome.sink.is_none());
        }
    }
}

#[test]
fn never_more_iterations_run_than_the_concurrency_allows() {
    for iterations in 1..=12 {
        for concurrency in 1..=15 {
            let mut run = Scheduler::<i64>::new(&config(iterations, concurrency), 1, false)
                .ok()
                .unwrap();
            let peak = drive(&mut run);
            assert_eq!(peak, concurrency.min(iterations));
        }
    }
}

#[test]
fn iterations_start_in_the_order_of_their_indices() {
    let mut run = Scheduler::<i64>::new(&config(5, 2), 1, false).ok().unwrap();
    assert_eq!(run.start_next(), Some(0));
    assert_eq!(run.start_next(), Some(1));
    assert_eq!(run.start_next(), None);
    assert_eq!(run.running(), 2);
    run.complete(vec![1]);
    assert_eq!(run.running(), 1);
    assert_eq!(run.start_next(), Some(2));
    assert_eq!(run.start_next(), None);
    run.complete(vec![0]);
    run.complete(vec![2]);
    assert_eq!(run.start_next(), Some(3));
    assert_eq!(run.start_next(), Some(4));
    assert_eq!(run.start_next(), None);
    assert!(!run.is_done());
    run.complete(vec![4]);
    run.complete(vec![3]);
    assert!(run.is_done());
    assert_eq!(run.start_next(), None);
}

#[test]
fn reports_come_back_in_the_order_of_completion() {
    let mut run = Scheduler::<i64>::new(&config(3, 3), 1, false).ok().unwrap();
    assert_eq!(run.start_next(), Some(0));
    assert_eq!(run.start_next(), Some(1));
    assert_eq!(run.start_next(), Some(2));
    run.complete(vec![20, 21]);
    run.complete(vec![]);
    run.complete(vec![10]);
    let outcome = run.finish(5);
    assert_eq!(outcome.result.reports, vec![vec![20, 21], vec![], vec![10]]);
}

#[test]
fn an_empty_plan_is_fatal() {
    let run = Scheduler::<i64>::new(&config(10, 5), 0, false);
    match run {
        Err(fatal) => {
            assert_eq!(fatal, Fatal::EmptyPlan);
            assert_ne!(fatal.exit_code(), 0);
            assert_eq!(fatal.exit_code(), 1);
            assert_eq!(fatal.message(), "Empty benchmark. Exiting.");
        }
        Ok(_) => panic!("a run of an empty plan started"),
    }
    assert!(Scheduler::<i64>::new(&config(10, 5), 0, true).is_err());
}

#[test]
fn report_mode_runs_the_first_iteration_alone() {
    let mut run = Scheduler::<i64>::new(&config(10, 5), 4, true).ok().unwrap();
    assert_eq!(run.start_next(), Some(0));
    assert_eq!(run.start_next(), None);
    assert!(!run.is_done());
    run.complete(vec![7, 8, 9]);
    assert_eq!(run.start_next(), None);
    assert!(run.is_done());
    let outcome = run.finish(123_456);
    assert!(outcome.result.reports.is_empty());
    assert_eq!(outcome.result.duration, 0);
    assert_eq!(outcome.sink, Some(vec![7, 8, 9]));
    assert_eq!(render(outcome.sink.unwrap()), "789");
}

#[test]
fn report_mode_ignores_iterations_and_concurrency() {
    for (iterations, concurrency) in [(10, 5), (1, 1), (0, 0), (-4, -4), (1000, 1)] {
        let mut run = Scheduler::<String>::new(&config(iterations, concurrency), 1, true)
            .ok()
            .unwrap();
        assert_eq!(run.start_next(), Some(0));
        assert_eq!(run.start_next(), None);
        run.complete(vec![String::from("\n- name: a\n"), String::from("\n- name: b\n")]);
        assert!(run.is_done());
        let outcome = run.finish(1);
        assert!(outcome.result.reports.is_empty());
        assert_eq!(outcome.result.duration, 0);
        assert_eq!(render(outcome.sink.unwrap()), "\n- name: a\n\n- name: b\n");
    }
}

#[test]
fn a_run_without_iterations_is_done_at_once() {
    for iterations in [0, -1, -50] {
        let mut run = Scheduler::<i64>::new(&config(iterations, 1), 2, false).ok().unwrap();
        assert!(run.is_done());
        assert_eq!(run.start_next(), None);
        let outcome = run.finish(9);
        assert!(outcome.result.reports.is_empty());
        assert_eq!(outcome.result.duration, 9);
    }
}
