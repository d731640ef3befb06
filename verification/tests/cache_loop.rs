use cache_actor::cache::{task_outcome, Cache, Effect, Event, Message, TaskStatus};
use cache_actor::multiplexer::{LoopInput, Phase};

#[test]
fn basic_cache() {
    let mut cache = Cache::new();
    let phase = Phase::Running;

    let (phase, eff) = cache.step(
        phase,
        LoopInput::Command(Message::Put("key".to_string(), "value".to_string())),
    );
    assert_eq!(eff, Effect::Nothing);

    let (phase, eff) = cache.step(phase, LoopInput::Command(Message::Get("key".to_string())));
    assert_eq!(eff, Effect::Reply(Some("value".to_string())));

    let (phase, eff) = cache.step(phase, LoopInput::Command(Message::Clear));
    assert_eq!(eff, Effect::Nothing);

    let (phase, eff) = cache.step(phase, LoopInput::Command(Message::Get("key".to_string())));
    assert_eq!(eff, Effect::Reply(None));

    // Closing the command channel drains (nothing pending) and terminates.
    let (phase, eff) = cache.step(phase, LoopInput::CommandsClosed);
    assert_eq!(phase, Phase::Draining);
    assert_eq!(eff, Effect::Nothing);
    let (phase, eff) = cache.step(phase, LoopInput::PoolIdle);
    assert_eq!(phase, Phase::Terminated);
    assert_eq!(eff, Effect::Nothing);

    assert!(cache.store_is_empty());
}

#[test]
fn process_tasks() {
    let mut cache = Cache::new();
    let mut phase = Phase::Running;

    for id in 1..=4u32 {
        let (p, eff) = cache.step(phase, LoopInput::Command(Message::Process(id)));
        phase = p;
        assert_eq!(eff, Effect::Spawn(id));
    }
    assert_eq!(cache.pending_len(), 4);

    let (p, _) = cache.step(phase, LoopInput::CommandsClosed);
    phase = p;
    assert_eq!(phase, Phase::Draining);

    // Completions arrive in completion order, not submission order.
    let mut reported: Vec<u32> = Vec::new();
    for id in [3u32, 1, 4, 2] {
        assert!(cache.has_pending(id));
        let (p, eff) = cache.step(phase, LoopInput::TaskDone(id, task_outcome(id)));
        phase = p;
        assert_eq!(phase, Phase::Draining);
        match eff {
            Effect::Report(rid, _) => reported.push(rid),
            other => panic!("expected a report, got {:?}", other),
        }
    }

    // Drain completeness: each submitted id reported exactly once.
    reported.sort();
    assert_eq!(reported, vec![1, 2, 3, 4]);
    assert!(cache.pool_is_empty());

    let (phase, _) = cache.step(phase, LoopInput::PoolIdle);
    assert_eq!(phase, Phase::Terminated);
    assert!(cache.store_is_empty());
}

#[test]
fn set_then_get_yields_value() {
    let mut cache = Cache::new();
    cache.on_message(Message::Put("k".to_string(), "v1".to_string()));
    cache.on_message(Message::Put("k".to_string(), "v2".to_string()));
    let eff = cache.on_message(Message::Get("k".to_string()));
    assert_eq!(eff, Effect::Reply(Some("v2".to_string())));
}

#[test]
fn clear_empties_the_store() {
    let mut cache = Cache::new();
    cache.on_message(Message::Put("a".to_string(), "1".to_string()));
    cache.on_message(Message::Put("b".to_string(), "2".to_string()));
    assert_eq!(cache.store_len(), 2);
    cache.on_message(Message::Clear);
    assert!(cache.store_is_empty());
    let eff = cache.on_message(Message::Get("a".to_string()));
    assert_eq!(eff, Effect::Reply(None));
    let eff = cache.on_message(Message::Get("b".to_string()));
    assert_eq!(eff, Effect::Reply(None));
}

#[test]
fn get_on_absent_key_yields_none() {
    let mut cache = Cache::new();
    let eff = cache.on_message(Message::Get("missing".to_string()));
    assert_eq!(eff, Effect::Reply(None));
    cache.on_message(Message::Put("present".to_string(), "x".to_string()));
    let eff = cache.on_message(Message::Get("missing".to_string()));
    assert_eq!(eff, Effect::Reply(None));
}

#[test]
fn outcome_policy_even_completes_odd_fails() {
    assert_eq!(task_outcome(2), TaskStatus::Completed);
    assert_eq!(task_outcome(4), TaskStatus::Completed);
    assert_eq!(task_outcome(1), TaskStatus::Failed);
    assert_eq!(task_outcome(3), TaskStatus::Failed);
    assert_eq!(task_outcome(0), TaskStatus::Completed);
}

#[test]
fn shutdown_with_no_pending_work_is_immediate() {
    let mut cache = Cache::new();
    let phase = Phase::Running;
    let (phase, eff) = cache.step(
        phase,
        LoopInput::Command(Message::Put("kept".to_string(), "state".to_string())),
    );
    assert_eq!(eff, Effect::Nothing);
    assert!(cache.pool_is_empty());

    let (phase, eff) = cache.step(phase, LoopInput::CommandsClosed);
    assert_eq!(phase, Phase::Draining);
    assert_eq!(eff, Effect::Nothing);
    let (phase, eff) = cache.step(phase, LoopInput::PoolIdle);
    assert_eq!(phase, Phase::Terminated);
    assert_eq!(eff, Effect::Nothing);

    // The then-current state survives shutdown untouched.
    let eff = cache.on_message(Message::Get("kept".to_string()));
    assert_eq!(eff, Effect::Reply(Some("state".to_string())));
}

#[test]
fn task_completion_while_running_is_reported() {
    let mut cache = Cache::new();
    let eff = cache.on_event(Event::Message(Message::Process(7)));
    assert_eq!(eff, Effect::Spawn(7));
    assert!(cache.has_pending(7));
    let eff = cache.on_event(Event::TaskStatus(7, task_outcome(7)));
    assert_eq!(eff, Effect::Report(7, TaskStatus::Failed));
    assert!(!cache.has_pending(7));
}

#[test]
fn duplicate_task_ids_retire_one_at_a_time() {
    let mut cache = Cache::new();
    cache.on_message(Message::Process(5));
    cache.on_message(Message::Process(5));
    assert_eq!(cache.pending_len(), 2);
    cache.on_task_status(5, TaskStatus::Completed);
    assert!(cache.has_pending(5));
    assert_eq!(cache.pending_len(), 1);
    cache.on_task_status(5, TaskStatus::Completed);
    assert!(!cache.has_pending(5));
    assert!(cache.pool_is_empty());
}
