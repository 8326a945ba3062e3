use std::sync::atomic::AtomicUsize;
use std::sync::atomic::Ordering;
use std::sync::Arc;
use std::sync::Mutex;
use std::time::Duration;
use std::time::Instant;
use web_handler::Job;
use web_handler::PoolCreationError;
use web_handler::TeardownError;
use web_handler::ThreadPool;

/// A job that does nothing; used where only pool lifecycle matters.
#[derive(Debug)]
struct NoopJob;

impl Job for NoopJob {
    fn run(self) {}
}

/// A job that increments a shared counter once.
#[derive(Debug)]
struct CountJob {
    counter: Arc<AtomicUsize>,
}

impl Job for CountJob {
    fn run(self) {
        self.counter.fetch_add(1, Ordering::SeqCst);
    }
}

/// A job that waits for a while and then appends its label to a shared log.
#[derive(Debug)]
struct RecordJob {
    label: &'static str,
    delay: Duration,
    log: Arc<Mutex<Vec<&'static str>>>,
}

impl Job for RecordJob {
    fn run(self) {
        let start = Instant::now();
        while start.elapsed() < self.delay {}
        self.log.lock().unwrap().push(self.label);
    }
}

/// A job that crashes the worker thread running it.
#[derive(Debug)]
struct PanicJob;

impl Job for PanicJob {
    fn run(self) {
        panic!("job crashed");
    }
}

#[should_panic]
#[test]
/// Zero sized thread pool test
fn empty_size_pool() {
    ThreadPool::<NoopJob>::build(0)
        .unwrap_or_else(|error| panic!("Problem creating thread pool: {error:?}"));
}

#[test]
fn build_zero_reports_configuration_error() {
    let built = ThreadPool::<NoopJob>::build(0);
    assert!(matches!(built, Err(PoolCreationError::ZeroSizedPool)));
}

#[test]
fn build_positive_sizes_succeed() {
    let mut size: usize = 1;
    while size <= 4 {
        let mut pool = ThreadPool::<NoopJob>::build(size)
            .unwrap_or_else(|error| panic!("Problem creating thread pool: {error:?}"));
        assert_eq!(pool.worker_count(), size);
        assert!(pool.shutdown().is_ok());
        size += 1;
    }
}

#[test]
fn single_worker_runs_jobs_in_submission_order() {
    let log: Arc<Mutex<Vec<&'static str>>> = Arc::new(Mutex::new(Vec::new()));
    let mut pool = ThreadPool::<RecordJob>::build(1)
        .unwrap_or_else(|error| panic!("Problem creating thread pool: {error:?}"));
    let slow = RecordJob { label: "A", delay: Duration::from_millis(50), log: Arc::clone(&log) };
    let quick = RecordJob { label: "B", delay: Duration::from_millis(0), log: Arc::clone(&log) };
    assert!(pool.execute(slow).is_ok());
    assert!(pool.execute(quick).is_ok());
    assert!(pool.shutdown().is_ok());
    let recorded = log.lock().unwrap();
    assert_eq!(*recorded, vec!["A", "B"]);
}

#[test]
fn hundred_jobs_each_run_exactly_once() {
    let counter: Arc<AtomicUsize> = Arc::new(AtomicUsize::new(0));
    let mut pool = ThreadPool::<CountJob>::build(4)
        .unwrap_or_else(|error| panic!("Problem creating thread pool: {error:?}"));
    let mut submitted: usize = 0;
    while submitted < 100 {
        assert!(pool.execute(CountJob { counter: Arc::clone(&counter) }).is_ok());
        submitted += 1;
    }
    assert!(pool.shutdown().is_ok());
    assert_eq!(counter.load(Ordering::SeqCst), 100);
}

#[test]
fn panicked_worker_surfaces_at_teardown() {
    let mut pool = ThreadPool::<PanicJob>::build(2)
        .unwrap_or_else(|error| panic!("Problem creating thread pool: {error:?}"));
    assert!(pool.execute(PanicJob).is_ok());
    match pool.shutdown() {
        Err(TeardownError::WorkerPanicked { id }) => assert!(id < 2),
        Ok(()) => panic!("teardown completed silently despite a crashed worker"),
    }
}

#[test]
fn shutdown_is_idempotent_in_effect() {
    let counter: Arc<AtomicUsize> = Arc::new(AtomicUsize::new(0));
    let mut pool = ThreadPool::<CountJob>::build(3)
        .unwrap_or_else(|error| panic!("Problem creating thread pool: {error:?}"));
    assert!(pool.execute(CountJob { counter: Arc::clone(&counter) }).is_ok());
    assert!(pool.shutdown().is_ok());
    assert_eq!(pool.worker_count(), 0);
    assert_eq!(counter.load(Ordering::SeqCst), 1);
    assert!(pool.shutdown().is_ok());
    assert_eq!(pool.worker_count(), 0);
    assert_eq!(counter.load(Ordering::SeqCst), 1);
}
