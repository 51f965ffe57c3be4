use llmserver_rs::pool::Pool;
use llmserver_rs::registry::Registry;
use llmserver_rs::worker::{DispatchError, SimpleLLMConfig, WorkerState};

fn named_config(name: &str) -> SimpleLLMConfig {
    SimpleLLMConfig {
        modle_path: format!("owner/{}", name),
        modle_name: name.to_string(),
        cache_path: None,
        think: false,
        legacy: true,
    }
}

#[test]
fn registry_routes_round_robin() {
    let mut r = Registry::new();
    r.register("demo".to_string(), 0);
    r.register("demo".to_string(), 1);
    let name = "demo".to_string();
    assert_eq!(r.route(&name), Some(0));
    assert_eq!(r.route(&name), Some(1));
    assert_eq!(r.route(&name), Some(0));
}

#[test]
fn registry_rejects_unknown_model() {
    let mut r = Registry::new();
    r.register("demo".to_string(), 0);
    assert_eq!(r.route(&"absent".to_string()), None);
}

#[test]
fn routing_is_fair_over_many_requests() {
    let mut r = Registry::new();
    r.register("demo".to_string(), 0);
    r.register("demo".to_string(), 1);
    let name = "demo".to_string();
    let mut counts = [0usize; 2];
    for _ in 0..6 {
        counts[r.route(&name).unwrap()] += 1;
    }
    // 6 requests over 2 workers: each receives at least 6 / 2
    assert_eq!(counts, [3, 3]);
}

#[test]
fn pool_round_robin_over_two_instances() {
    let mut p = Pool::new();
    p.add_worker(named_config("demo"), Ok(()), Ok(())).unwrap();
    p.add_worker(named_config("demo"), Ok(()), Ok(())).unwrap();
    let model = "demo".to_string();
    // three sequential requests, each stream finishing before the next
    let (w1, prompt1) = p.dispatch(&model, Ok("first".to_string())).unwrap();
    p.finish_stream(w1);
    let (w2, _) = p.dispatch(&model, Ok("second".to_string())).unwrap();
    p.finish_stream(w2);
    let (w3, _) = p.dispatch(&model, Ok("third".to_string())).unwrap();
    p.finish_stream(w3);
    assert_eq!((w1, w2, w3), (0, 1, 0));
    assert_eq!(prompt1, "first\n\n</think>\n\n".to_string());
}

#[test]
fn pool_rejects_unknown_model() {
    let mut p = Pool::new();
    p.add_worker(named_config("demo"), Ok(()), Ok(())).unwrap();
    let r = p.dispatch(&"other".to_string(), Ok("hi".to_string()));
    assert_eq!(r, Err(DispatchError::UnknownModel));
}

#[test]
fn busy_workers_reject_concurrent_requests() {
    let mut p = Pool::new();
    p.add_worker(named_config("demo"), Ok(()), Ok(())).unwrap();
    p.add_worker(named_config("demo"), Ok(()), Ok(())).unwrap();
    let model = "demo".to_string();
    let (w1, _) = p.dispatch(&model, Ok("a".to_string())).unwrap();
    let (w2, _) = p.dispatch(&model, Ok("b".to_string())).unwrap();
    assert_ne!(w1, w2);
    // both streams are live: a third request finds its worker busy
    assert_eq!(
        p.dispatch(&model, Ok("c".to_string())),
        Err(DispatchError::WorkerBusy)
    );
    p.finish_stream(w1);
    // the cursor is strict round-robin: it now points at the still-busy
    // second worker, and only the following request reaches the freed one
    assert_eq!(
        p.dispatch(&model, Ok("d".to_string())),
        Err(DispatchError::WorkerBusy)
    );
    let (w4, _) = p.dispatch(&model, Ok("e".to_string())).unwrap();
    assert_eq!(w4, w1);
}

#[test]
fn failed_init_is_never_registered() {
    let mut p = Pool::new();
    let denied = p.add_worker(
        named_config("missing"),
        Err("No such file or directory".to_string()),
        Ok(()),
    );
    assert!(denied.is_err());
    assert_eq!(p.workers.len(), 0);
    assert!(!p.serve_ready());
    // workers for other models still initialize
    p.add_worker(named_config("demo"), Ok(()), Ok(())).unwrap();
    assert!(p.serve_ready());
    assert_eq!(
        p.dispatch(&"missing".to_string(), Ok("hi".to_string())),
        Err(DispatchError::UnknownModel)
    );
    assert!(p.dispatch(&"demo".to_string(), Ok("hi".to_string())).is_ok());
}

#[test]
fn shutdown_is_total() {
    let mut p = Pool::new();
    p.add_worker(named_config("demo"), Ok(()), Ok(())).unwrap();
    p.add_worker(named_config("demo"), Ok(()), Ok(())).unwrap();
    let results = p.shutdown_all();
    assert_eq!(results.len(), 2);
    assert!(results.iter().all(|r| r.is_ok()));
    for w in &p.workers {
        assert_eq!(w.state, WorkerState::Stopped);
        // the engine's teardown ran exactly once per worker
        assert_eq!(w.destroy_calls, 1);
    }
    // every worker now rejects further work
    assert_eq!(
        p.dispatch(&"demo".to_string(), Ok("late".to_string())),
        Err(DispatchError::WorkerStopped)
    );
    // a second coordinated shutdown releases nothing twice
    let again = p.shutdown_all();
    assert!(again.iter().all(|r| r.is_ok()));
    assert!(p.workers.iter().all(|w| w.destroy_calls == 1));
}

#[test]
fn shutdown_skips_busy_worker_but_not_the_rest() {
    let mut p = Pool::new();
    p.add_worker(named_config("demo"), Ok(()), Ok(())).unwrap();
    p.add_worker(named_config("demo"), Ok(()), Ok(())).unwrap();
    let (busy, _) = p.dispatch(&"demo".to_string(), Ok("job".to_string())).unwrap();
    let results = p.shutdown_all();
    assert!(results[busy].is_err());
    assert_eq!(p.workers[busy].state, WorkerState::Busy);
    let other = 1 - busy;
    assert!(results[other].is_ok());
    assert_eq!(p.workers[other].state, WorkerState::Stopped);
}
