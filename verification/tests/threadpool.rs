use std::sync::{Arc, Mutex};

use crag_web::threadpool::{check_pool_size, PoolCreationError, ThreadPool};

#[test]
fn a_pool_needs_a_worker() {
    let pool: Result<ThreadPool<u32>, PoolCreationError> = ThreadPool::build(0);
    assert_eq!(pool.err(), Some(PoolCreationError::ZeroSize));
    assert_eq!(check_pool_size(0), Err(PoolCreationError::ZeroSize));
    assert_eq!(check_pool_size(1), Ok(()));
    assert_eq!(PoolCreationError::ZeroSize.to_string(), "ZeroSize");
}

#[test]
fn a_new_pool_has_its_workers_and_no_jobs() {
    let mut pool: ThreadPool<u32> = ThreadPool::build(4).unwrap();
    assert_eq!(pool.size(), 4);
    assert_eq!(pool.pending(), 0);
    assert_eq!(pool.claim(), None);
}

#[test]
fn each_job_is_claimed_once_oldest_first() {
    let mut pool: ThreadPool<u32> = ThreadPool::build(2).unwrap();
    let mut claimed = Vec::new();
    for job in 0..5 {
        pool.execute(job);
    }
    assert_eq!(pool.pending(), 5);
    claimed.extend(pool.claim());
    claimed.extend(pool.claim());
    for job in 5..8 {
        pool.execute(job);
    }
    while let Some(job) = pool.claim() {
        claimed.push(job);
    }
    assert_eq!(claimed, vec![0, 1, 2, 3, 4, 5, 6, 7]);
    assert_eq!(pool.pending(), 0);
    assert_eq!(pool.claim(), None);
    assert_eq!(pool.size(), 2);
}

#[test]
fn jobs_can_be_closures() {
    let counter = Arc::new(Mutex::new(0));
    let mut pool: ThreadPool<Box<dyn FnOnce() + Send>> = ThreadPool::build(1).unwrap();
    for _ in 0..10 {
        let counter = Arc::clone(&counter);
        pool.execute(Box::new(move || {
            *counter.lock().unwrap() += 1;
        }));
    }
    let mut ran = 0;
    while let Some(job) = pool.claim() {
        job();
        ran += 1;
    }
    assert_eq!(ran, 10);
    assert_eq!(*counter.lock().unwrap(), 10);
}
