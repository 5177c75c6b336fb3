use threadpool::{next_action, Worker, WorkerAction};

#[test]
fn worker_keeps_id_and_handle() {
    let mut w = Worker::new(3, "handle");
    assert_eq!(w.get_id(), 3);
    assert_eq!(w.get_mut_thread().take(), Some("handle"));
    assert_eq!(w.get_mut_thread().take(), None);
    assert_eq!(w.get_id(), 3);
}

#[test]
fn received_job_is_run() {
    let a = next_action::<u32, ()>(Ok(5));
    assert!(matches!(a, WorkerAction::Run(5)));
}

#[test]
fn closed_queue_stops_the_worker() {
    let a = next_action::<u32, &str>(Err("closed"));
    assert!(matches!(a, WorkerAction::Stop));
}
