use book_exercises::pool::{Dispatcher, Message, WorkerState};
use std::sync::{Arc, Mutex};
use std::time::{Duration, Instant};

type Job = Box<dyn FnOnce() + Send + 'static>;

/// Drives every worker in turn until the queue is drained, then shuts the
/// pool down; returns how many times each job ran.
fn run_round_robin(size: usize, jobs: usize) -> Vec<usize> {
    let runs = Arc::new(Mutex::new(vec![0usize; jobs]));
    let mut d: Dispatcher<Job> = Dispatcher::new(size);
    for j in 0..jobs {
        let runs = Arc::clone(&runs);
        d.submit(Box::new(move || runs.lock().unwrap()[j] += 1));
    }
    while d.pending_len() > 0 {
        for id in 0..size {
            if let Some(Message::NewJob(job)) = d.receive(id) {
                job();
                d.finish(id);
            }
        }
    }
    d.close();
    for id in 0..size {
        assert!(matches!(d.receive(id), Some(Message::Terminate)));
        d.mark_joined(id);
    }
    let counts = runs.lock().unwrap().clone();
    counts
}

#[test]
fn new_pool_has_every_worker_idle() {
    let d: Dispatcher<u32> = Dispatcher::new(3);
    assert_eq!(d.worker_count(), 3);
    for id in 0..3 {
        assert_eq!(d.worker_state(id), WorkerState::Idle);
    }
    assert_eq!(d.pending_len(), 0);
    assert!(!d.is_closed_now());
}

#[test]
fn each_job_runs_once_with_fewer_jobs_than_workers() {
    assert_eq!(run_round_robin(4, 2), vec![1, 1]);
}

#[test]
fn each_job_runs_once_with_as_many_jobs_as_workers() {
    assert_eq!(run_round_robin(3, 3), vec![1, 1, 1]);
}

#[test]
fn each_job_runs_once_with_more_jobs_than_workers() {
    assert_eq!(run_round_robin(2, 7), vec![1; 7]);
}

#[test]
fn jobs_are_handed_out_oldest_first() {
    let mut d: Dispatcher<u32> = Dispatcher::new(2);
    d.submit(10);
    d.submit(20);
    assert!(matches!(d.receive(1), Some(Message::NewJob(10))));
    assert!(matches!(d.receive(0), Some(Message::NewJob(20))));
    assert_eq!(d.worker_state(1), WorkerState::Running);
    d.finish(1);
    assert_eq!(d.worker_state(1), WorkerState::Idle);
    assert!(d.receive(1).is_none());
}

#[test]
fn two_workers_append_five_indices() {
    let results = Arc::new(Mutex::new(Vec::new()));
    let mut d: Dispatcher<Job> = Dispatcher::new(2);
    for i in 0..5usize {
        let results = Arc::clone(&results);
        d.submit(Box::new(move || results.lock().unwrap().push(i)));
    }
    // Both workers take a job before either finishes.
    let mut turn = 0usize;
    while d.pending_len() > 0 {
        let a = d.receive(turn % 2);
        let b = d.receive((turn + 1) % 2);
        for (id, m) in [(turn % 2, a), ((turn + 1) % 2, b)] {
            if let Some(Message::NewJob(job)) = m {
                job();
                d.finish(id);
            }
        }
        turn += 1;
    }
    d.close();
    for id in 0..2 {
        assert!(matches!(d.receive(id), Some(Message::Terminate)));
        d.mark_joined(id);
    }
    let mut got = results.lock().unwrap().clone();
    got.sort();
    assert_eq!(got, vec![0, 1, 2, 3, 4]);
}

#[test]
fn single_worker_runs_jobs_one_after_another() {
    let times = Arc::new(Mutex::new(Vec::new()));
    let mut d: Dispatcher<Job> = Dispatcher::new(1);
    let t1 = Arc::clone(&times);
    d.submit(Box::new(move || {
        let start = Instant::now();
        while start.elapsed() < Duration::from_millis(50) {}
        t1.lock().unwrap().push(("slow start", start));
    }));
    let t2 = Arc::clone(&times);
    d.submit(Box::new(move || t2.lock().unwrap().push(("quick done", Instant::now()))));
    let first = d.receive(0);
    // While the only worker runs the slow job, the quick one stays queued.
    assert_eq!(d.pending_len(), 1);
    if let Some(Message::NewJob(job)) = first {
        job();
    } else {
        panic!("the slow job was not handed out");
    }
    d.finish(0);
    if let Some(Message::NewJob(job)) = d.receive(0) {
        job();
    } else {
        panic!("the quick job was not handed out");
    }
    d.finish(0);
    let times = times.lock().unwrap();
    assert_eq!(times[0].0, "slow start");
    assert_eq!(times[1].0, "quick done");
    assert!(times[1].1 >= times[0].1 + Duration::from_millis(50));
}

#[test]
fn idle_pool_shuts_down_at_once() {
    let mut d: Dispatcher<Job> = Dispatcher::new(4);
    d.close();
    assert!(d.is_closed_now());
    for id in 0..4 {
        assert!(matches!(d.receive(id), Some(Message::Terminate)));
        assert_eq!(d.worker_state(id), WorkerState::Terminated);
        d.mark_joined(id);
    }
    for id in 0..4 {
        assert_eq!(d.worker_state(id), WorkerState::Joined);
    }
}

#[test]
fn queued_jobs_drain_before_workers_terminate() {
    let mut d: Dispatcher<u32> = Dispatcher::new(1);
    d.submit(1);
    d.submit(2);
    d.close();
    assert!(matches!(d.receive(0), Some(Message::NewJob(1))));
    d.finish(0);
    assert!(matches!(d.receive(0), Some(Message::NewJob(2))));
    d.finish(0);
    assert!(matches!(d.receive(0), Some(Message::Terminate)));
}

#[test]
fn jobs_from_two_submitters_both_run() {
    let shared = Arc::new(Mutex::new(Dispatcher::<u32>::new(2)));
    let a = Arc::clone(&shared);
    let b = Arc::clone(&shared);
    a.lock().unwrap().submit(1);
    b.lock().unwrap().submit(2);
    let mut d = shared.lock().unwrap();
    let mut seen = Vec::new();
    for id in 0..2 {
        if let Some(Message::NewJob(j)) = d.receive(id) {
            seen.push(j);
            d.finish(id);
        }
    }
    seen.sort();
    assert_eq!(seen, vec![1, 2]);
}
