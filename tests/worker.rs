use central_player::worker::{
    absorb_notices, player_state_of, should_report_position, worker_step, PipelineState,
    PlayerState, WorkerEvent, WorkerNotice, WorkerStep,
};

#[test]
fn pipeline_states_map_to_player_states() {
    assert_eq!(player_state_of(PipelineState::Playing), PlayerState::Playing);
    assert_eq!(player_state_of(PipelineState::Paused), PlayerState::Paused);
    assert_eq!(player_state_of(PipelineState::Ready), PlayerState::Stopped);
    assert_eq!(player_state_of(PipelineState::Null), PlayerState::Stopped);
    assert_eq!(player_state_of(PipelineState::VoidPending), PlayerState::Stopped);
}

#[test]
fn play_and_pause_only_drive_the_pipeline() {
    let s = worker_step(PlayerState::Paused, WorkerEvent::Play);
    assert_eq!(
        s,
        WorkerStep {
            state: PlayerState::Paused,
            pipeline_target: Some(PipelineState::Playing),
            notice: None,
            exit: false
        }
    );
    let s = worker_step(PlayerState::Playing, WorkerEvent::Pause);
    assert_eq!(s.state, PlayerState::Playing);
    assert_eq!(s.pipeline_target, Some(PipelineState::Paused));
    assert_eq!(s.notice, None);
}

#[test]
fn stop_resets_and_announces() {
    let s = worker_step(PlayerState::Playing, WorkerEvent::Stop);
    assert_eq!(s.state, PlayerState::Stopped);
    assert_eq!(s.pipeline_target, Some(PipelineState::Null));
    assert_eq!(s.notice, Some(WorkerNotice::StateChanged(PlayerState::Stopped)));
    assert!(!s.exit);
}

#[test]
fn shutdown_exits() {
    let s = worker_step(PlayerState::Playing, WorkerEvent::Shutdown);
    assert!(s.exit);
    assert_eq!(s.pipeline_target, Some(PipelineState::Null));
    assert_eq!(s.notice, None);
}

#[test]
fn end_of_stream_readies_pipeline() {
    let s = worker_step(PlayerState::Playing, WorkerEvent::EndOfStream);
    assert_eq!(s.state, PlayerState::Stopped);
    assert_eq!(s.pipeline_target, Some(PipelineState::Ready));
    assert_eq!(s.notice, Some(WorkerNotice::EndOfStream));
}

#[test]
fn state_change_announced_once() {
    let s = worker_step(PlayerState::Stopped, WorkerEvent::PipelineChanged(PipelineState::Playing));
    assert_eq!(s.state, PlayerState::Playing);
    assert_eq!(s.notice, Some(WorkerNotice::StateChanged(PlayerState::Playing)));
    assert_eq!(s.pipeline_target, None);
    let again = worker_step(s.state, WorkerEvent::PipelineChanged(PipelineState::Playing));
    assert_eq!(again.notice, None);
    let ready = worker_step(PlayerState::Stopped, WorkerEvent::PipelineChanged(PipelineState::Ready));
    assert_eq!(ready.notice, None);
    assert_eq!(ready.state, PlayerState::Stopped);
}

#[test]
fn position_reports_only_while_playing_after_interval() {
    assert!(should_report_position(PlayerState::Playing, 101));
    assert!(!should_report_position(PlayerState::Playing, 100));
    assert!(!should_report_position(PlayerState::Paused, 500));
    assert!(!should_report_position(PlayerState::Stopped, 500));
}

#[test]
fn absorbing_no_notices_keeps_state() {
    assert_eq!(absorb_notices(PlayerState::Paused, &vec![]), (PlayerState::Paused, false));
}

#[test]
fn absorbing_notices_in_order() {
    let ns = vec![
        WorkerNotice::StateChanged(PlayerState::Playing),
        WorkerNotice::EndOfStream,
        WorkerNotice::StateChanged(PlayerState::Paused),
    ];
    assert_eq!(absorb_notices(PlayerState::Stopped, &ns), (PlayerState::Paused, true));
    let ns = vec![WorkerNotice::StateChanged(PlayerState::Playing)];
    assert_eq!(absorb_notices(PlayerState::Stopped, &ns), (PlayerState::Playing, false));
    let ns = vec![WorkerNotice::StateChanged(PlayerState::Playing), WorkerNotice::EndOfStream];
    assert_eq!(absorb_notices(PlayerState::Loading, &ns), (PlayerState::Stopped, true));
}
