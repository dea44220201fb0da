use webcam_recorder::session::GraphEvent;
use webcam_recorder::session::GraphState;
use webcam_recorder::session::LoopAction;
use webcam_recorder::session::PipelineController;
use webcam_recorder::session::StartPoll;
use webcam_recorder::session::StopReason;
use webcam_recorder::CameraCaps;
use webcam_recorder::session::StartError;
use webcam_recorder::session::await_running;
use webcam_recorder::session::poll_start;
use webcam_recorder::session::record;

#[test]
fn whole_graph_active_raises_running() {
    let mut c = PipelineController::new();
    let a = c.handle_event(&GraphEvent::StateChanged {
        target: GraphState::Active,
        whole_graph: true,
    });
    assert_eq!(a, LoopAction::KeepRunning);
    assert!(c.control.running);
}

#[test]
fn sub_branch_active_does_not_raise_running() {
    let mut c = PipelineController::new();
    let a = c.handle_event(&GraphEvent::StateChanged {
        target: GraphState::Active,
        whole_graph: false,
    });
    assert_eq!(a, LoopAction::KeepRunning);
    assert!(!c.control.running);
    let a = c.handle_event(&GraphEvent::StateChanged {
        target: GraphState::Paused,
        whole_graph: true,
    });
    assert_eq!(a, LoopAction::KeepRunning);
    assert!(!c.control.running);
}

#[test]
fn terminal_events_end_the_loop_with_their_reason() {
    let mut c = PipelineController::new();
    let a = c.handle_event(&GraphEvent::EndOfStream);
    assert_eq!(a, LoopAction::ExitLoop(StopReason::EndOfStream));
    let mut c = PipelineController::new();
    let a = c.handle_event(&GraphEvent::FatalError);
    assert_eq!(a, LoopAction::ExitLoop(StopReason::Error));
    assert_eq!(c.stop_reason, Some(StopReason::Error));
}

#[test]
fn stop_request_is_honored_on_any_event() {
    let mut c = PipelineController::new();
    c.control.stop_requested = true;
    let a = c.handle_event(&GraphEvent::Other);
    assert_eq!(a, LoopAction::ExitLoop(StopReason::StopRequested));

    let mut c = PipelineController::new();
    c.control.stop_requested = true;
    let a = c.handle_event(&GraphEvent::StateChanged {
        target: GraphState::Paused,
        whole_graph: false,
    });
    assert_eq!(a, LoopAction::ExitLoop(StopReason::StopRequested));
}

#[test]
fn session_runs_to_end_of_stream_and_tears_down() {
    let mut c = PipelineController::new();
    let events = vec![
        GraphEvent::StateChanged { target: GraphState::Active, whole_graph: true },
        GraphEvent::Other,
        GraphEvent::EndOfStream,
    ];
    let r = c.run_session(&events);
    assert_eq!(r, Some(StopReason::EndOfStream));
    assert_eq!(c.graph_state, GraphState::Inactive);
    assert!(c.control.running);
}

#[test]
fn session_tears_down_after_a_fatal_error() {
    let mut c = PipelineController::new();
    let events = vec![GraphEvent::FatalError];
    let r = c.run_session(&events);
    assert_eq!(r, Some(StopReason::Error));
    assert_eq!(c.graph_state, GraphState::Inactive);
    assert!(!c.control.running);
}

#[test]
fn stop_right_after_running_ends_on_the_next_event() {
    // The race: the caller requests a stop immediately after `running`
    // was raised; the very next event, of whatever type, ends the loop
    // and the graph comes back down.
    let mut c = PipelineController::new();
    c.control.running = true;
    c.control.stop_requested = true;
    let events = vec![GraphEvent::Other, GraphEvent::Other, GraphEvent::Other];
    let r = c.run_session(&events);
    assert_eq!(r, Some(StopReason::StopRequested));
    assert_eq!(c.graph_state, GraphState::Inactive);
}

#[test]
fn exhausted_event_prefix_still_tears_down() {
    let mut c = PipelineController::new();
    let events = vec![
        GraphEvent::StateChanged { target: GraphState::Active, whole_graph: true },
        GraphEvent::Other,
    ];
    let r = c.run_session(&events);
    assert_eq!(r, None);
    assert_eq!(c.graph_state, GraphState::Inactive);
    assert!(c.control.running);
}

#[test]
fn whole_worker_run_records_and_tears_down() {
    let caps = CameraCaps::new(640, 480, 30, 1, "RGB".to_string());
    let outcomes = vec![true; 23];
    let events = vec![
        GraphEvent::StateChanged { target: GraphState::Active, whole_graph: true },
        GraphEvent::Other,
        GraphEvent::EndOfStream,
    ];
    let mut c = PipelineController::new();
    let r = record(&caps, &"output.mp4".to_string(), &outcomes, &events, &mut c);
    assert_eq!(r, Ok(Some(StopReason::EndOfStream)));
    assert_eq!(c.graph_state, GraphState::Inactive);
    assert!(c.control.running);
}

#[test]
fn failed_construction_step_ends_the_session_before_activation() {
    let caps = CameraCaps::new(640, 480, 30, 1, "RGB".to_string());
    let mut outcomes = vec![true; 23];
    outcomes[3] = false;
    let events = vec![GraphEvent::Other];
    let mut c = PipelineController::new();
    let r = record(&caps, &"/not-writable/output.mp4".to_string(), &outcomes, &events, &mut c);
    assert_eq!(r, Err(StartError::Construction { step: 3 }));
    // The graph was never activated and `running` was never raised.
    assert_eq!(c.graph_state, GraphState::Inactive);
    assert!(!c.control.running);
    assert_eq!(c.stop_reason, None);
}

#[test]
fn stop_requested_before_the_worker_ran_is_observed() {
    let caps = CameraCaps::new(640, 480, 30, 1, "RGB".to_string());
    let outcomes = vec![true; 23];
    let events = vec![GraphEvent::Other, GraphEvent::Other];
    let mut c = PipelineController::new();
    c.control.stop_requested = true;
    let r = record(&caps, &"output.mp4".to_string(), &outcomes, &events, &mut c);
    assert_eq!(r, Ok(Some(StopReason::StopRequested)));
    assert_eq!(c.graph_state, GraphState::Inactive);
}

#[test]
fn poll_decisions() {
    assert_eq!(poll_start(true, 0, 5), StartPoll::Ready);
    assert_eq!(poll_start(true, 5, 5), StartPoll::Ready);
    assert_eq!(poll_start(false, 2, 5), StartPoll::Waiting);
    assert_eq!(poll_start(false, 5, 5), StartPoll::TimedOut);
}

#[test]
fn wait_finds_the_first_running_observation() {
    let obs = vec![false, true, true];
    assert_eq!(await_running(&obs, 10), Ok(1));
    let obs = vec![true];
    assert_eq!(await_running(&obs, 1), Ok(0));
    let obs: Vec<bool> = vec![];
    assert!(await_running(&obs, 10).is_err());
}
