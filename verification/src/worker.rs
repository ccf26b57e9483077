//! The worker: the one thread that calls into the plugin.
//!
//! The worker runs in rounds. In each round it sleeps, ticks the timers, and
//! then serves every command that is queued. What it does is up to the
//! thread that drives it; what it does *next* is decided here: the driver
//! reports each thing that happened as an event, and is told the next action.

use crate::audio_processor::{
    channel_lengths, checked_block, checked_frames, clock_after, AudioConfiguration,
    AudioProcessor, ProcessError, ProcessRequest,
};
use crate::gui::GuiSize;
use crate::host::{audio_in, reply_to_audio, state_in, ClientError, HostThreadMessage};
use crate::main_thread::MainThreadMessage;
use crate::plugin::{PluginStorage, StateCall};
use clack_host::plugin::PluginMainThreadHandle;
use vstd::prelude::*;

verus! {

/// The longest the worker sleeps between two rounds: 30 ms.
pub const MAX_SLEEP_NANOS: u64 = 30_000_000;

/// What the worker does next.
#[derive(Debug, PartialEq, Eq)]
pub enum WorkerAction<A, B> {
    /// Run the plugin's main-thread callback.
    RunMainThreadCallback,
    /// Have the plugin process this audio and send the result back.
    ProcessAudio(A),
    /// Send this reply to the caller.
    Reply(HostThreadMessage<B>),
    /// Save the plugin's state and send it to the caller.
    SaveState,
    /// Have the plugin load this state.
    LoadState(Vec<u8>),
    /// Resize the plugin's window after the plugin asked for this size.
    ResizeGui(GuiSize),
    /// Destroy the plugin's window and end the session.
    CloseGui,
    /// Nothing: the command concerns a window, and there is none.
    Skip,
    /// Sleep for this many nanoseconds, then report `Woke`.
    Sleep(u64),
    /// Tick the timers and deliver their callbacks, then report `TimersTicked`.
    TickTimers,
    /// Take the queued commands one by one and report each as `Received`;
    /// report `QueueEmpty` when there is none left, `QueueClosed` when every
    /// caller is gone.
    Drain,
    /// Begin the next round: report `RoundBegins`.
    BeginRound,
    /// End the session: every caller is gone.
    Stop,
    /// Nothing: the event was reported out of turn and changes nothing.
    OutOfTurn,
}

/// Where the worker stands in its round.
#[derive(Clone, Copy, Debug, PartialEq, Eq, Structural)]
pub enum Phase {
    /// At the start of a round.
    Ready,
    /// Sleeping.
    Asleep,
    /// Ticking the timers.
    Ticking,
    /// Serving the queued commands.
    Draining,
    /// The session has ended.
    Stopped,
}

/// What the driver of the worker reports.
#[derive(Debug, PartialEq, Eq)]
pub enum WorkerEvent<A> {
    /// A round begins. `next_wait` is how long the timers can wait, or `None`
    /// if the plugin has no timer support.
    RoundBegins { next_wait: Option<u64> },
    /// The sleep is over.
    Woke,
    /// The timers have been ticked and their callbacks delivered.
    TimersTicked,
    /// This command was taken from the queue.
    Received(MainThreadMessage<A>),
    /// No command is queued.
    QueueEmpty,
    /// Every caller is gone.
    QueueClosed,
}

/// How long the worker sleeps before its next round, given how long the
/// timers can wait (`None` without timer support): that long, but never
/// longer than 30 ms.
pub open spec fn sleep_for(next_wait: Option<u64>) -> u64 {
    match next_wait {
        Some(wait) => if wait < MAX_SLEEP_NANOS {
            wait
        } else {
            MAX_SLEEP_NANOS
        },
        None => MAX_SLEEP_NANOS,
    }
}

/// The action for each command. `has_gui` says whether the worker runs a
/// window, `steady_time` is the steady clock when the command is served.
pub open spec fn action_for<A, B>(
    message: MainThreadMessage<A>,
    has_gui: bool,
    steady_time: u64,
) -> WorkerAction<A, B> {
    match message {
        MainThreadMessage::RunOnMainThread => WorkerAction::RunMainThreadCallback,
        MainThreadMessage::GuiClosed => if has_gui {
            WorkerAction::CloseGui
        } else {
            WorkerAction::Skip
        },
        MainThreadMessage::GuiRequestResized(size) => if has_gui {
            WorkerAction::ResizeGui(size)
        } else {
            WorkerAction::Skip
        },
        MainThreadMessage::ProcessAudio(audio) => WorkerAction::ProcessAudio(audio),
        MainThreadMessage::GetCounter => WorkerAction::Reply(
            HostThreadMessage::Counter(steady_time),
        ),
        MainThreadMessage::GetState => WorkerAction::SaveState,
        MainThreadMessage::SetState(state) => WorkerAction::LoadState(state),
    }
}

/// The worker never sleeps longer than 30 ms, whatever the timers say, and
/// with timers that keep to the 30 ms floor it sleeps exactly that long.
pub proof fn lemma_sleep_is_bounded(next_wait: Option<u64>)
    ensures
        sleep_for(next_wait) <= MAX_SLEEP_NANOS,
        next_wait matches Some(wait) ==> sleep_for(next_wait) <= wait,
        (next_wait matches Some(wait) ==> wait >= MAX_SLEEP_NANOS) ==> sleep_for(next_wait)
            == MAX_SLEEP_NANOS,
{
}

/// A state that a caller sets reaches the plugin byte for byte, audio reaches
/// it as the caller sent it, and only a closed window ends the session.
pub proof fn lemma_payloads_pass_unchanged<A, B>(
    audio: A,
    state: Vec<u8>,
    has_gui: bool,
    steady_time: u64,
)
    ensures
        action_for::<A, B>(MainThreadMessage::SetState(state), has_gui, steady_time)
            == WorkerAction::<A, B>::LoadState(state),
        action_for::<A, B>(MainThreadMessage::ProcessAudio(audio), has_gui, steady_time)
            == WorkerAction::<A, B>::ProcessAudio(audio),
        forall|message: MainThreadMessage<A>|
            (#[trigger] action_for::<A, B>(message, has_gui, steady_time) is CloseGui) == (has_gui
                && message is GuiClosed),
{
}

/// A caller that asks for the steady time is told the steady clock as it
/// stands: 0 straight after a restart.
pub proof fn lemma_counter_reports_clock<A, B>(has_gui: bool, steady_time: u64)
    ensures
        action_for::<A, B>(MainThreadMessage::GetCounter, has_gui, steady_time)
            == WorkerAction::<A, B>::Reply(HostThreadMessage::Counter(steady_time)),
        action_for::<A, B>(MainThreadMessage::GetCounter, has_gui, 0) == WorkerAction::<
            A,
            B,
        >::Reply(HostThreadMessage::Counter(0)),
{
}

/// The phase that follows when `event` is reported in `phase`. An event that
/// is out of turn leaves the phase as it is.
pub open spec fn phase_after<A>(phase: Phase, has_gui: bool, event: WorkerEvent<A>) -> Phase {
    match (phase, event) {
        (Phase::Ready, WorkerEvent::RoundBegins { next_wait }) => Phase::Asleep,
        (Phase::Asleep, WorkerEvent::Woke) => Phase::Ticking,
        (Phase::Ticking, WorkerEvent::TimersTicked) => Phase::Draining,
        (Phase::Draining, WorkerEvent::Received(message)) => if has_gui && message is GuiClosed {
            Phase::Stopped
        } else {
            Phase::Draining
        },
        (Phase::Draining, WorkerEvent::QueueEmpty) => Phase::Ready,
        (Phase::Draining, WorkerEvent::QueueClosed) => Phase::Stopped,
        _ => phase,
    }
}

/// The action that answers `event` reported in `phase`.
pub open spec fn action_after<A, B>(
    phase: Phase,
    has_gui: bool,
    steady_time: u64,
    event: WorkerEvent<A>,
) -> WorkerAction<A, B> {
    match (phase, event) {
        (Phase::Ready, WorkerEvent::RoundBegins { next_wait }) => WorkerAction::Sleep(
            sleep_for(next_wait),
        ),
        (Phase::Asleep, WorkerEvent::Woke) => WorkerAction::TickTimers,
        (Phase::Ticking, WorkerEvent::TimersTicked) => WorkerAction::Drain,
        (Phase::Draining, WorkerEvent::Received(message)) => action_for(
            message,
            has_gui,
            steady_time,
        ),
        (Phase::Draining, WorkerEvent::QueueEmpty) => WorkerAction::BeginRound,
        (Phase::Draining, WorkerEvent::QueueClosed) => WorkerAction::Stop,
        _ => WorkerAction::OutOfTurn,
    }
}

/// Whether the session ends with `action`.
pub open spec fn is_final<A, B>(action: WorkerAction<A, B>) -> bool {
    action is CloseGui || action is Stop
}

/// Commands are served only while draining, and draining begins only once
/// the timers of the round have been ticked: a timer that fires in a round
/// has its callback before any command of that round is served.
pub proof fn lemma_commands_follow_ticks<A, B>(
    phase: Phase,
    has_gui: bool,
    steady_time: u64,
    event: WorkerEvent<A>,
)
    ensures
        event is Received && !(action_after::<A, B>(phase, has_gui, steady_time, event)
            is OutOfTurn) ==> phase == Phase::Draining,
        phase != Phase::Draining && phase_after(phase, has_gui, event) == Phase::Draining ==> phase
            == Phase::Ticking && event is TimersTicked,
        action_after::<A, B>(phase, has_gui, steady_time, event) is TickTimers ==> phase
            == Phase::Asleep && event is Woke,
        phase != Phase::Asleep && phase_after(phase, has_gui, event) == Phase::Asleep ==> phase
            == Phase::Ready && event is RoundBegins,
{
}

/// A round goes through its phases in order: from the start of a round, the
/// worker sleeps, ticks, drains, and is back at the start.
pub proof fn lemma_round_trip<A, B>(has_gui: bool, steady_time: u64, next_wait: Option<u64>)
    ensures
        ({
            let begins = WorkerEvent::<A>::RoundBegins { next_wait };
            let asleep = phase_after(Phase::Ready, has_gui, begins);
            let ticking = phase_after(asleep, has_gui, WorkerEvent::<A>::Woke);
            let draining = phase_after(ticking, has_gui, WorkerEvent::<A>::TimersTicked);
            let ready = phase_after(draining, has_gui, WorkerEvent::<A>::QueueEmpty);
            &&& action_after::<A, B>(Phase::Ready, has_gui, steady_time, begins)
                == WorkerAction::<A, B>::Sleep(sleep_for(next_wait))
            &&& action_after::<A, B>(asleep, has_gui, steady_time, WorkerEvent::<A>::Woke)
                == WorkerAction::<A, B>::TickTimers
            &&& action_after::<A, B>(ticking, has_gui, steady_time, WorkerEvent::<A>::TimersTicked)
                == WorkerAction::<A, B>::Drain
            &&& action_after::<A, B>(draining, has_gui, steady_time, WorkerEvent::<A>::QueueEmpty)
                == WorkerAction::<A, B>::BeginRound
            &&& ready == Phase::Ready
        }),
{
}

/// A command to process audio that is taken from the queue while draining
/// is served: the action carries its audio as it came, the worker goes on
/// draining, and the reply to the caller wraps what became of the audio, so
/// that the caller reads back exactly that. This holds for every such
/// command, however many came before it.
pub proof fn lemma_audio_command_is_served<A, B>(
    has_gui: bool,
    steady_time: u64,
    audio: A,
    processed: Result<B, ProcessError>,
)
    ensures
        action_after::<A, B>(
            Phase::Draining,
            has_gui,
            steady_time,
            WorkerEvent::Received(MainThreadMessage::ProcessAudio(audio)),
        ) == WorkerAction::<A, B>::ProcessAudio(audio),
        phase_after(
            Phase::Draining,
            has_gui,
            WorkerEvent::Received(MainThreadMessage::ProcessAudio(audio)),
        ) == Phase::Draining,
        audio_in(reply_to_audio(processed)) == match processed {
            Ok(output) => Ok::<B, ClientError>(output),
            Err(error) => Err::<B, ClientError>(ClientError::Refused(error)),
        },
{
}

/// A state goes through the host unchanged in both directions: the bytes
/// that a caller sets are the bytes of the action that loads them, and the
/// bytes of a state reply are the bytes that the caller reads out of it.
pub proof fn lemma_state_passes_unchanged<A, B>(has_gui: bool, steady_time: u64, state: Vec<u8>)
    ensures
        action_after::<A, B>(
            Phase::Draining,
            has_gui,
            steady_time,
            WorkerEvent::Received(MainThreadMessage::SetState(state)),
        ) == WorkerAction::<A, B>::LoadState(state),
        action_after::<A, B>(
            Phase::Draining,
            has_gui,
            steady_time,
            WorkerEvent::Received(MainThreadMessage::GetState),
        ) == WorkerAction::<A, B>::SaveState,
        state_in(HostThreadMessage::<B>::State(state)) == Ok::<Vec<u8>, ClientError>(state),
{
}

/// The session ends exactly with an action that is final, and once it has
/// ended nothing happens any more: every event is out of turn.
pub proof fn lemma_stopped_is_final<A, B>(
    phase: Phase,
    has_gui: bool,
    steady_time: u64,
    event: WorkerEvent<A>,
)
    ensures
        phase != Phase::Stopped ==> (phase_after(phase, has_gui, event) == Phase::Stopped
            <==> is_final(action_after::<A, B>(phase, has_gui, steady_time, event))),
        phase == Phase::Stopped ==> phase_after(phase, has_gui, event) == Phase::Stopped
            && action_after::<A, B>(phase, has_gui, steady_time, event) is OutOfTurn,
{
}

/// An event that is out of turn changes nothing.
pub proof fn lemma_out_of_turn_changes_nothing<A, B>(
    phase: Phase,
    has_gui: bool,
    steady_time: u64,
    event: WorkerEvent<A>,
)
    ensures
        action_after::<A, B>(phase, has_gui, steady_time, event) is OutOfTurn ==> phase_after(
            phase,
            has_gui,
            event,
        ) == phase,
{
}

/// Whenever the worker is told to sleep, it is for 30 ms at most.
pub proof fn lemma_worker_sleep_is_bounded<A, B>(
    phase: Phase,
    has_gui: bool,
    steady_time: u64,
    event: WorkerEvent<A>,
)
    ensures
        action_after::<A, B>(phase, has_gui, steady_time, event) matches WorkerAction::Sleep(
            nanos,
        ) ==> nanos <= MAX_SLEEP_NANOS,
{
}

/// How long to sleep before the next round.
pub fn sleep_duration(next_wait: Option<u64>) -> (sleep: u64)
    ensures
        sleep == sleep_for(next_wait),
{
    match next_wait {
        Some(wait) => if wait < MAX_SLEEP_NANOS {
            wait
        } else {
            MAX_SLEEP_NANOS
        },
        None => MAX_SLEEP_NANOS,
    }
}

/// What to do with `message`.
pub fn next_action<A, B>(
    message: MainThreadMessage<A>,
    has_gui: bool,
    audio_processor: &AudioProcessor,
) -> (action: WorkerAction<A, B>)
    ensures
        action == action_for::<A, B>(message, has_gui, audio_processor.clock()),
{
    match message {
        MainThreadMessage::RunOnMainThread => WorkerAction::RunMainThreadCallback,
        MainThreadMessage::GuiClosed => if has_gui {
            WorkerAction::CloseGui
        } else {
            WorkerAction::Skip
        },
        MainThreadMessage::GuiRequestResized(size) => if has_gui {
            WorkerAction::ResizeGui(size)
        } else {
            WorkerAction::Skip
        },
        MainThreadMessage::ProcessAudio(audio) => WorkerAction::ProcessAudio(audio),
        MainThreadMessage::GetCounter => WorkerAction::Reply(
            HostThreadMessage::Counter(audio_processor.steady_time()),
        ),
        MainThreadMessage::GetState => WorkerAction::SaveState,
        MainThreadMessage::SetState(state) => WorkerAction::LoadState(state),
    }
}

/// Whether the session ends once `action` is done.
pub fn ends_session<A, B>(action: &WorkerAction<A, B>) -> (ends: bool)
    ensures
        ends == is_final(*action),
{
    match action {
        WorkerAction::CloseGui => true,
        WorkerAction::Stop => true,
        _ => false,
    }
}

/// The worker's own state: where it stands in its round, whether it runs a
/// window, and the bookkeeping of the audio it has processed.
pub struct Worker {
    phase: Phase,
    has_gui: bool,
    audio_processor: AudioProcessor,
}

impl Worker {
    /// Where the worker stands in its round.
    pub closed spec fn phase(&self) -> Phase {
        self.phase
    }

    /// Whether the worker runs a window.
    pub closed spec fn has_gui(&self) -> bool {
        self.has_gui
    }

    /// The steady clock.
    pub closed spec fn clock(&self) -> u64 {
        self.audio_processor.clock()
    }

    /// The configuration that blocks are checked against.
    pub closed spec fn config_view(&self) -> AudioConfiguration {
        self.audio_processor.config_view()
    }

    /// A worker at the start of its first round, with the steady clock at 0.
    pub fn new(config: AudioConfiguration, has_gui: bool) -> (worker: Self)
        ensures
            worker.phase() == Phase::Ready,
            worker.has_gui() == has_gui,
            worker.clock() == 0,
            worker.config_view() == config,
    {
        Self { phase: Phase::Ready, has_gui, audio_processor: AudioProcessor::new(config) }
    }

    /// Where the worker stands in its round.
    pub fn current_phase(&self) -> (phase: Phase)
        ensures
            phase == self.phase(),
    {
        self.phase
    }

    /// The number of frames processed since the last restart.
    pub fn steady_time(&self) -> (steady_time: u64)
        ensures
            steady_time == self.clock(),
    {
        self.audio_processor.steady_time()
    }

    /// Takes note of `event` and answers what to do next.
    pub fn step<A, B>(&mut self, event: WorkerEvent<A>) -> (action: WorkerAction<A, B>)
        ensures
            action == action_after::<A, B>(
                old(self).phase(),
                old(self).has_gui(),
                old(self).clock(),
                event,
            ),
            final(self).phase() == phase_after(old(self).phase(), old(self).has_gui(), event),
            final(self).has_gui() == old(self).has_gui(),
            final(self).clock() == old(self).clock(),
            final(self).config_view() == old(self).config_view(),
    {
        match (self.phase, event) {
            (Phase::Ready, WorkerEvent::RoundBegins { next_wait }) => {
                self.phase = Phase::Asleep;
                WorkerAction::Sleep(sleep_duration(next_wait))
            },
            (Phase::Asleep, WorkerEvent::Woke) => {
                self.phase = Phase::Ticking;
                WorkerAction::TickTimers
            },
            (Phase::Ticking, WorkerEvent::TimersTicked) => {
                self.phase = Phase::Draining;
                WorkerAction::Drain
            },
            (Phase::Draining, WorkerEvent::Received(message)) => {
                let action = next_action(message, self.has_gui, &self.audio_processor);
                if ends_session(&action) {
                    self.phase = Phase::Stopped;
                }
                action
            },
            (Phase::Draining, WorkerEvent::QueueEmpty) => {
                self.phase = Phase::Ready;
                WorkerAction::BeginRound
            },
            (Phase::Draining, WorkerEvent::QueueClosed) => {
                self.phase = Phase::Stopped;
                WorkerAction::Stop
            },
            _ => WorkerAction::OutOfTurn,
        }
    }

    /// Checks a block whose two channels hold `left` and `right` frames, and
    /// says what to hand to the plugin for it, or why the block is refused.
    pub fn begin_process(&self, left: usize, right: usize) -> (request: Result<
        ProcessRequest,
        ProcessError,
    >)
        ensures
            match checked_frames(self.config_view(), left as nat, right as nat) {
                Ok(frames) => request == Ok::<ProcessRequest, ProcessError>(
                    ProcessRequest { frames, steady_time: self.clock() },
                ),
                Err(error) => request == Err::<ProcessRequest, ProcessError>(error),
            },
    {
        self.audio_processor.begin_process(left, right)
    }

    /// Checks the block `input`, one buffer for each channel, and says what
    /// to hand to the plugin for it, or why the block is refused.
    pub fn begin_block<S>(&self, input: &Vec<Vec<S>>) -> (request: Result<
        ProcessRequest,
        ProcessError,
    >)
        ensures
            match checked_block(self.config_view(), channel_lengths(input@)) {
                Ok(frames) => request == Ok::<ProcessRequest, ProcessError>(
                    ProcessRequest { frames, steady_time: self.clock() },
                ),
                Err(error) => request == Err::<ProcessRequest, ProcessError>(error),
            },
    {
        self.audio_processor.begin_block(input)
    }

    /// Records that the plugin has processed a block of which `reported`
    /// frames are reported.
    pub fn finish_process(&mut self, reported: Option<u32>)
        ensures
            final(self).clock() == clock_after(old(self).clock(), reported),
            final(self).config_view() == old(self).config_view(),
            final(self).phase() == old(self).phase(),
            final(self).has_gui() == old(self).has_gui(),
    {
        self.audio_processor.finish_process(reported);
    }

    /// Records that the processing handle was stopped and started again: the
    /// steady clock starts over at 0.
    pub fn restart(&mut self)
        ensures
            final(self).clock() == 0,
            final(self).config_view() == old(self).config_view(),
            final(self).phase() == old(self).phase(),
            final(self).has_gui() == old(self).has_gui(),
    {
        self.audio_processor.restart();
    }
}

/// The reply that carries a saved state: those bytes, as they are.
pub fn state_reply<B>(state: Vec<u8>) -> (reply: HostThreadMessage<B>)
    ensures
        reply == HostThreadMessage::<B>::State(state),
{
    HostThreadMessage::State(state)
}

/// Has the plugin save its state, and wraps what it wrote in the reply for
/// the caller: the bytes that the plugin wrote, as they are. `None` if the
/// plugin failed to save.
pub fn save_state<B>(storage: &mut PluginStorage, plugin: &mut PluginMainThreadHandle<'_>) -> (reply:
    Option<HostThreadMessage<B>>)
    ensures
        final(storage).calls() == old(storage).calls().push(
            StateCall::Save {
                written: match reply {
                    Some(HostThreadMessage::State(bytes)) => Some(bytes@),
                    _ => None,
                },
            },
        ),
        reply matches Some(message) ==> message is State,
{
    match storage.save(plugin) {
        Some(state) => Some(state_reply(state)),
        None => None,
    }
}

/// Has the plugin load `state`: the plugin is handed those bytes, as they
/// are. Answers what the plugin answered: whether it took them.
pub fn load_state(
    storage: &mut PluginStorage,
    plugin: &mut PluginMainThreadHandle<'_>,
    state: &Vec<u8>,
) -> (loaded: bool)
    ensures
        final(storage).calls() == old(storage).calls().push(
            StateCall::Load { bytes: state@, loaded },
        ),
{
    storage.load(plugin, state)
}

} // verus!
