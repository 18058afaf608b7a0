use lighthouse::modes::OperatingMode;
use lighthouse::shutdown::{ShutdownChannel, ShutdownReason};
use lighthouse::supervisor::{
    exit_status, failure_message, immediate_success_message, plan_launch, run_supervised,
    shutdown_log_line, LaunchPlan, ServiceEvent, Supervisor, SupervisedOutcome,
};

#[test]
fn the_first_reason_wins() {
    let mut channel = ShutdownChannel::new();
    assert!(!channel.has_reason());
    assert!(channel.try_send(ShutdownReason::Failure("disk full".to_string())));
    assert!(!channel.try_send(ShutdownReason::Success("interrupt".to_string())));
    assert!(!channel.try_send(ShutdownReason::Failure("peer lost".to_string())));
    match channel.take() {
        Some(ShutdownReason::Failure(m)) => assert_eq!(m, "disk full"),
        _ => panic!("expected the first reason"),
    }
}

#[test]
fn later_reasons_have_no_observable_effect_on_exit_status() {
    let mut channel = ShutdownChannel::new();
    channel.try_send(ShutdownReason::Success("interrupt".to_string()));
    let sent = channel.try_send_all(vec![
        ShutdownReason::Failure("late failure".to_string()),
        ShutdownReason::Failure("even later".to_string()),
    ]);
    assert_eq!(sent, 0);
    let reason = channel.take().unwrap();
    assert_eq!(exit_status(&reason), 0);
    assert_eq!(reason.message(), "interrupt");
}

#[test]
fn try_send_all_accepts_exactly_the_first() {
    let mut channel = ShutdownChannel::new();
    let sent = channel.try_send_all(vec![
        ShutdownReason::Failure("first".to_string()),
        ShutdownReason::Success("second".to_string()),
        ShutdownReason::Failure("third".to_string()),
    ]);
    assert_eq!(sent, 1);
    match channel.take() {
        Some(ShutdownReason::Failure(m)) => assert_eq!(m, "first"),
        _ => panic!("expected the first reason"),
    }
}

#[test]
fn exit_status_maps_success_and_failure() {
    assert_eq!(exit_status(&ShutdownReason::Success("done".to_string())), 0);
    assert_eq!(exit_status(&ShutdownReason::Failure("broke".to_string())), 1);
}

#[test]
fn launch_plans_honour_mode_and_flag() {
    assert_eq!(
        plan_launch(OperatingMode::ServingNode, false),
        LaunchPlan::StartService
    );
    assert_eq!(
        plan_launch(OperatingMode::ServingNode, true),
        LaunchPlan::ReportImmediateSuccess
    );
    assert_eq!(
        plan_launch(OperatingMode::ManagementUtility, false),
        LaunchPlan::RunSynchronously
    );
    assert_eq!(
        plan_launch(OperatingMode::ManagementUtility, true),
        LaunchPlan::RunSynchronously
    );
    assert_eq!(
        plan_launch(OperatingMode::DiscoveryHelper, false),
        LaunchPlan::RunSynchronously
    );
}

#[test]
fn immediate_shutdown_never_starts_the_service_and_exits_zero() {
    assert_eq!(
        plan_launch(OperatingMode::ServingNode, true),
        LaunchPlan::ReportImmediateSuccess
    );
    let outcome = run_supervised(
        OperatingMode::ServingNode,
        true,
        vec![
            ServiceEvent::ServiceFailed("would have failed".to_string()),
            ServiceEvent::Interrupt,
        ],
    );
    match outcome {
        SupervisedOutcome::Terminated(reason, status) => {
            assert_eq!(status, 0);
            assert!(reason.is_success());
            assert_eq!(reason.message(), "Beacon node immediate shutdown triggered.");
        }
        SupervisedOutcome::StillRunning => panic!("expected termination"),
    }
}

#[test]
fn interrupt_terminates_a_serving_node_cleanly() {
    let outcome = run_supervised(
        OperatingMode::ServingNode,
        false,
        vec![ServiceEvent::Interrupt],
    );
    match outcome {
        SupervisedOutcome::Terminated(reason, status) => {
            assert_eq!(status, 0);
            assert_eq!(
                shutdown_log_line(&reason),
                "Shutting down.. reason: Success(interrupt)"
            );
        }
        SupervisedOutcome::StillRunning => panic!("expected termination"),
    }
}

#[test]
fn the_first_of_concurrent_producers_decides_the_status() {
    let outcome = run_supervised(
        OperatingMode::SigningClient,
        false,
        vec![
            ServiceEvent::ServiceCompleted,
            ServiceEvent::ServiceFailed("unable to connect to signer".to_string()),
            ServiceEvent::Interrupt,
            ServiceEvent::ServiceFailed("second failure".to_string()),
        ],
    );
    match outcome {
        SupervisedOutcome::Terminated(reason, status) => {
            assert_eq!(status, 1);
            assert_eq!(
                reason.message(),
                "Failed to start validator client: unable to connect to signer"
            );
        }
        SupervisedOutcome::StillRunning => panic!("expected termination"),
    }

    let reordered = run_supervised(
        OperatingMode::SigningClient,
        false,
        vec![
            ServiceEvent::Interrupt,
            ServiceEvent::ServiceFailed("unable to connect to signer".to_string()),
        ],
    );
    match reordered {
        SupervisedOutcome::Terminated(reason, status) => {
            assert_eq!(status, 0);
            assert_eq!(reason.message(), "interrupt");
        }
        SupervisedOutcome::StillRunning => panic!("expected termination"),
    }
}

#[test]
fn a_completed_service_does_not_stop_the_process() {
    let outcome = run_supervised(
        OperatingMode::ServingNode,
        false,
        vec![ServiceEvent::ServiceCompleted, ServiceEvent::ServiceCompleted],
    );
    assert!(matches!(outcome, SupervisedOutcome::StillRunning));
}

#[test]
fn the_supervisor_moves_through_its_phases() {
    let mut supervisor = Supervisor::launch(OperatingMode::RemoteSigner, false);
    assert!(!supervisor.has_shutdown_reason());
    supervisor.deliver(ServiceEvent::ServiceCompleted);
    assert!(!supervisor.has_shutdown_reason());
    supervisor.deliver(ServiceEvent::ServiceFailed("tls handshake failed".to_string()));
    assert!(supervisor.has_shutdown_reason());
    supervisor.deliver(ServiceEvent::Interrupt);
    let reason = supervisor.begin_shutdown();
    supervisor.drain();
    assert_eq!(exit_status(&reason), 1);
    assert_eq!(
        reason.message(),
        "Failed to start remote signer: tls handshake failed"
    );
}

#[test]
fn per_mode_messages_are_exact() {
    assert_eq!(
        immediate_success_message(OperatingMode::ServingNode),
        "Beacon node immediate shutdown triggered."
    );
    assert_eq!(
        immediate_success_message(OperatingMode::SigningClient),
        "Validator client immediate shutdown triggered."
    );
    assert_eq!(
        immediate_success_message(OperatingMode::RemoteSigner),
        "Remote signer immediate shutdown triggered."
    );
    assert_eq!(
        failure_message(OperatingMode::ServingNode, &"boom".to_string()),
        "Failed to start beacon node: boom"
    );
    let described = ShutdownReason::Failure("boom".to_string()).describe();
    assert_eq!(described, "Failure(boom)");
}

#[test]
fn str_eq_compares_exactly() {
    assert!(lighthouse::strutil::str_eq("", ""));
    assert!(lighthouse::strutil::str_eq("beacon_node", "beacon_node"));
    assert!(!lighthouse::strutil::str_eq("beacon_node", "beacon_nodes"));
    assert!(!lighthouse::strutil::str_eq("beacon_node", "beacon_nodE"));
}
