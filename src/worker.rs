//! Decisions of the playback worker: how commands and pipeline messages move the
//! player's state, which state the pipeline is sent to, and what the interface is told.
use vstd::prelude::*;

verus! {

/// What the interface shows of playback.
#[derive(Debug, Clone, Copy, PartialEq, Eq, Structural)]
pub enum PlayerState {
    Stopped,
    Loading,
    Playing,
    Paused,
}

/// The states a media pipeline can be in, as the playback library names them.
#[derive(Debug, Clone, Copy, PartialEq, Eq, Structural)]
pub enum PipelineState {
    VoidPending,
    Null,
    Ready,
    Paused,
    Playing,
}

/// What reaches the worker: a command from the interface, or a message of the pipeline.
#[derive(Debug, Clone, Copy, PartialEq, Eq, Structural)]
pub enum WorkerEvent {
    Play,
    Pause,
    Stop,
    Shutdown,
    EndOfStream,
    PipelineChanged(PipelineState),
}

/// What the worker tells the interface.
#[derive(Debug, Clone, Copy, PartialEq, Eq, Structural)]
pub enum WorkerNotice {
    StateChanged(PlayerState),
    EndOfStream,
}

/// The outcome of one event: the worker's new state, the state the pipeline is to be
/// put in, the notice to send, and whether the worker stops.
#[derive(Debug, Clone, Copy, PartialEq, Eq, Structural)]
pub struct WorkerStep {
    pub state: PlayerState,
    pub pipeline_target: Option<PipelineState>,
    pub notice: Option<WorkerNotice>,
    pub exit: bool,
}

/// Milliseconds that pass between two position reports while playing.
pub const POSITION_POLL_INTERVAL_MS: u128 = 100;

pub open spec fn player_state_spec(s: PipelineState) -> PlayerState {
    match s {
        PipelineState::Playing => PlayerState::Playing,
        PipelineState::Paused => PlayerState::Paused,
        _ => PlayerState::Stopped,
    }
}

/// The step that `event` causes from `current`.
pub open spec fn step_spec(current: PlayerState, event: WorkerEvent) -> WorkerStep {
    match event {
        WorkerEvent::Play => WorkerStep {
            state: current,
            pipeline_target: Some(PipelineState::Playing),
            notice: None,
            exit: false,
        },
        WorkerEvent::Pause => WorkerStep {
            state: current,
            pipeline_target: Some(PipelineState::Paused),
            notice: None,
            exit: false,
        },
        WorkerEvent::Stop => WorkerStep {
            state: PlayerState::Stopped,
            pipeline_target: Some(PipelineState::Null),
            notice: Some(WorkerNotice::StateChanged(PlayerState::Stopped)),
            exit: false,
        },
        WorkerEvent::Shutdown => WorkerStep {
            state: current,
            pipeline_target: Some(PipelineState::Null),
            notice: None,
            exit: true,
        },
        WorkerEvent::EndOfStream => WorkerStep {
            state: PlayerState::Stopped,
            pipeline_target: Some(PipelineState::Ready),
            notice: Some(WorkerNotice::EndOfStream),
            exit: false,
        },
        WorkerEvent::PipelineChanged(s) => {
            let next = player_state_spec(s);
            WorkerStep {
                state: next,
                pipeline_target: None,
                notice: if next != current {
                    Some(WorkerNotice::StateChanged(next))
                } else {
                    None
                },
                exit: false,
            }
        },
    }
}

/// The player state that a pipeline state shows as.
pub fn player_state_of(s: PipelineState) -> (r: PlayerState)
    ensures
        r == player_state_spec(s),
{
    match s {
        PipelineState::Playing => PlayerState::Playing,
        PipelineState::Paused => PlayerState::Paused,
        _ => PlayerState::Stopped,
    }
}

/// Handles one event in state `current`.
pub fn worker_step(current: PlayerState, event: WorkerEvent) -> (r: WorkerStep)
    ensures
        r == step_spec(current, event),
{
    match event {
        WorkerEvent::Play => WorkerStep {
            state: current,
            pipeline_target: Some(PipelineState::Playing),
            notice: None,
            exit: false,
        },
        WorkerEvent::Pause => WorkerStep {
            state: current,
            pipeline_target: Some(PipelineState::Paused),
            notice: None,
            exit: false,
        },
        WorkerEvent::Stop => WorkerStep {
            state: PlayerState::Stopped,
            pipeline_target: Some(PipelineState::Null),
            notice: Some(WorkerNotice::StateChanged(PlayerState::Stopped)),
            exit: false,
        },
        WorkerEvent::Shutdown => WorkerStep {
            state: current,
            pipeline_target: Some(PipelineState::Null),
            notice: None,
            exit: true,
        },
        WorkerEvent::EndOfStream => WorkerStep {
            state: PlayerState::Stopped,
            pipeline_target: Some(PipelineState::Ready),
            notice: Some(WorkerNotice::EndOfStream),
            exit: false,
        },
        WorkerEvent::PipelineChanged(s) => {
            let next = player_state_of(s);
            let notice = if next != current {
                Some(WorkerNotice::StateChanged(next))
            } else {
                None
            };
            WorkerStep { state: next, pipeline_target: None, notice, exit: false }
        },
    }
}

/// Whether the worker reports the playback position now: only while playing, and
/// only once more than the poll interval has passed since the last report.
pub fn should_report_position(state: PlayerState, elapsed_ms: u128) -> (r: bool)
    ensures
        r == (state == PlayerState::Playing && elapsed_ms > POSITION_POLL_INTERVAL_MS),
{
    state == PlayerState::Playing && elapsed_ms > POSITION_POLL_INTERVAL_MS
}

/// The state the interface shows after taking in `notices` in order, starting from
/// `state`, and whether one of them said that the track had finished.
pub open spec fn absorb_spec(state: PlayerState, notices: Seq<WorkerNotice>) -> (PlayerState, bool)
    decreases notices.len(),
{
    if notices.len() == 0 {
        (state, false)
    } else {
        let before = absorb_spec(state, notices.drop_last());
        match notices.last() {
            WorkerNotice::StateChanged(s) => (s, before.1),
            WorkerNotice::EndOfStream => (PlayerState::Stopped, true),
        }
    }
}

/// The interface's side: takes in the notices that arrived since the last frame.
pub fn absorb_notices(state: PlayerState, notices: &Vec<WorkerNotice>) -> (r: (PlayerState, bool))
    ensures
        r == absorb_spec(state, notices@),
{
    let mut shown = state;
    let mut finished = false;
    let mut i: usize = 0;
    while i < notices.len()
        invariant
            i <= notices@.len(),
            (shown, finished) == absorb_spec(state, notices@.take(i as int)),
        decreases notices@.len() - i,
    {
        proof {
            assert(notices@.take(i + 1).drop_last() == notices@.take(i as int));
        }
        match notices[i] {
            WorkerNotice::StateChanged(s) => {
                shown = s;
            },
            WorkerNotice::EndOfStream => {
                shown = PlayerState::Stopped;
                finished = true;
            },
        }
        i = i + 1;
    }
    proof {
        assert(notices@.take(notices@.len() as int) == notices@);
    }
    (shown, finished)
}

/// Once the worker has announced a state, it announces it again only after a change:
/// a pipeline message that leaves the shown state as it is gives no notice, and
/// whatever it reports, the state after the message is the one announced last.
pub proof fn lemma_no_repeated_announcement(current: PlayerState, s: PipelineState)
    ensures
        player_state_spec(s) == current ==> step_spec(
            current,
            WorkerEvent::PipelineChanged(s),
        ).notice is None,
        step_spec(current, WorkerEvent::PipelineChanged(s)).notice matches Some(
            WorkerNotice::StateChanged(n),
        ) ==> n == step_spec(current, WorkerEvent::PipelineChanged(s)).state && n != current,
{
}

/// Taking in a batch of notices reports a finished track exactly when one of the
/// notices is an end of stream, and a finished track leaves the player stopped
/// unless a later notice announced another state.
pub proof fn lemma_finished_iff_end_of_stream(state: PlayerState, notices: Seq<WorkerNotice>)
    ensures
        absorb_spec(state, notices).1 <==> exists|k: int|
            0 <= k < notices.len() && #[trigger] notices[k] == WorkerNotice::EndOfStream,
        notices.len() > 0 && notices.last() == WorkerNotice::EndOfStream ==> absorb_spec(
            state,
            notices,
        ).0 == PlayerState::Stopped,
    decreases notices.len(),
{
    if notices.len() > 0 {
        let front = notices.drop_last();
        lemma_finished_iff_end_of_stream(state, front);
        if absorb_spec(state, front).1 {
            let k = choose|k: int| 0 <= k < front.len() && #[trigger] front[k] == WorkerNotice::EndOfStream;
            assert(notices[k] == WorkerNotice::EndOfStream);
        }
        if exists|k: int| 0 <= k < notices.len() && #[trigger] notices[k] == WorkerNotice::EndOfStream {
            let k = choose|k: int| 0 <= k < notices.len() && #[trigger] notices[k] == WorkerNotice::EndOfStream;
            if k < notices.len() - 1 {
                assert(front[k] == WorkerNotice::EndOfStream);
            }
        }
    }
}

} // verus!
