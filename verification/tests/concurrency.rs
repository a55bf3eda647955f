use std::sync::{Arc, Mutex};

use postbot::registry::Data;
use postbot::retraction::{VoteBook, VoteOutcome};

fn runtime() -> tokio::runtime::Runtime {
    tokio::runtime::Builder::new_multi_thread().worker_threads(4).build().unwrap()
}

#[test]
fn concurrent_votes_of_three_users_never_delete() {
    let book = Arc::new(Mutex::new(VoteBook::new()));
    let deletes = Arc::new(Mutex::new(0u32));
    let runtime = runtime();
    runtime.block_on(async {
        let mut handles = Vec::new();
        for round in 0..60u64 {
            let book = book.clone();
            let deletes = deletes.clone();
            handles.push(tokio::spawn(async move {
                let user = 100 + round % 3;
                let outcome = book.lock().unwrap().on_vote(1, user);
                if matches!(outcome, VoteOutcome::Retracted { .. }) {
                    *deletes.lock().unwrap() += 1;
                }
            }));
        }
        for handle in handles {
            handle.await.unwrap();
        }
    });
    assert_eq!(*deletes.lock().unwrap(), 0);
    assert_eq!(book.lock().unwrap().count(1), 3);
}

#[test]
fn concurrent_votes_of_four_users_delete_once() {
    let book = Arc::new(Mutex::new(VoteBook::new()));
    let deletes = Arc::new(Mutex::new(0u32));
    let runtime = runtime();
    runtime.block_on(async {
        let mut handles = Vec::new();
        for user in [1u64, 2, 3, 4] {
            let book = book.clone();
            let deletes = deletes.clone();
            handles.push(tokio::spawn(async move {
                let outcome = book.lock().unwrap().on_vote(9, user);
                if matches!(outcome, VoteOutcome::Retracted { .. }) {
                    *deletes.lock().unwrap() += 1;
                }
            }));
        }
        for handle in handles {
            handle.await.unwrap();
        }
    });
    assert_eq!(*deletes.lock().unwrap(), 1);
}

#[test]
fn concurrent_starts_launch_one_task() {
    let data = Arc::new(Mutex::new(Data::new()));
    let launched = Arc::new(Mutex::new(Vec::new()));
    let runtime = runtime();
    runtime.block_on(async {
        let mut handles = Vec::new();
        for _ in 0..50 {
            let data = data.clone();
            let launched = launched.clone();
            handles.push(tokio::spawn(async move {
                if let Some(signal) = data.lock().unwrap().start(1, 10) {
                    launched.lock().unwrap().push(signal);
                }
            }));
        }
        for handle in handles {
            handle.await.unwrap();
        }
    });
    assert_eq!(launched.lock().unwrap().len(), 1);
    assert!(data.lock().unwrap().is_live(1, 10));
}

#[test]
fn concurrent_starts_and_stops_never_run_two_tasks() {
    let data = Arc::new(Mutex::new(Data::new()));
    let running = Arc::new(Mutex::new(0i64));
    let runtime = runtime();
    runtime.block_on(async {
        let mut handles = Vec::new();
        for i in 0..200u32 {
            let data = data.clone();
            let running = running.clone();
            handles.push(tokio::spawn(async move {
                let mut data = data.lock().unwrap();
                let mut running = running.lock().unwrap();
                if i % 3 == 0 {
                    if data.stop(1, 10) {
                        *running -= 1;
                    }
                } else if data.start(1, 10).is_some() {
                    *running += 1;
                }
                assert!(*running == 0 || *running == 1);
                assert_eq!(data.is_live(1, 10), *running == 1);
            }));
        }
        for handle in handles {
            handle.await.unwrap();
        }
    });
    let running = *running.lock().unwrap();
    assert!(running == 0 || running == 1);
}
