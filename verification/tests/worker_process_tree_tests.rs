use wvst_bridge_server::worker_process_tree::WorkerTerminationTarget;

#[test]
fn signals_the_worker_process_group_only() {
    assert_eq!(WorkerTerminationTarget::from_process_id(Some(4242)).signal_group(), Some(4242));
    assert_eq!(WorkerTerminationTarget::from_process_id(Some(0)).signal_group(), None);
    assert_eq!(WorkerTerminationTarget::from_process_id(None).signal_group(), None);
    assert!(!WorkerTerminationTarget::from_process_id(None).terminate_tree());
    assert!(!WorkerTerminationTarget::from_process_id(Some(0)).kill_tree());
}
