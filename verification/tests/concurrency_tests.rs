use std::sync::{Arc, Mutex};

use proxy_pool::lifecycle::LifecycleState;
use proxy_pool::pool::{ConnectionRecord, LruConnectionPool};

fn rec(id: u128, at: u64) -> ConnectionRecord {
    ConnectionRecord { id, created_at: at, last_used: at, state: LifecycleState::Active }
}

#[test]
fn concurrent_tasks_reach_a_sequentially_explainable_state() {
    // N tasks issue insert/get/remove on distinct identifiers against one
    // shared pool.  Each identifier's operations are ordered within its
    // task, so every sequential interleaving ends with exactly the
    // even-numbered identifiers live; the order among them is whatever the
    // interleaving produced.
    let runtime = tokio::runtime::Builder::new_multi_thread()
        .worker_threads(4)
        .build()
        .unwrap();
    let pool = Arc::new(Mutex::new(LruConnectionPool::new(64)));
    let tasks: u128 = 16;

    runtime.block_on(async {
        let mut handles = Vec::new();
        for i in 0..tasks {
            let shared = Arc::clone(&pool);
            handles.push(tokio::spawn(async move {
                {
                    let mut p = shared.lock().unwrap();
                    assert!(p.insert(rec(i, i as u64)).is_none());
                }
                {
                    let mut p = shared.lock().unwrap();
                    let got = p.get(i, 100 + i as u64).unwrap();
                    assert_eq!(got.id, i);
                }
                if i % 2 == 1 {
                    let mut p = shared.lock().unwrap();
                    assert_eq!(p.remove(i).unwrap().id, i);
                }
            }));
        }
        for h in handles {
            h.await.unwrap();
        }
    });

    let p = pool.lock().unwrap();
    let ids = p.order_ids();
    assert_eq!(p.len(), (tasks / 2) as usize);
    assert_eq!(ids.len(), p.len());
    let mut sorted = ids.clone();
    sorted.sort_unstable();
    sorted.dedup();
    assert_eq!(sorted.len(), ids.len());
    let expected: Vec<u128> = (0..tasks).filter(|i| i % 2 == 0).collect();
    assert_eq!(sorted, expected);
}
