use plugin_host::audio_processor::{AudioConfiguration, AudioProcessor};
use plugin_host::gui::GuiSize;
use plugin_host::host::HostThreadMessage;
use plugin_host::main_thread::MainThreadMessage;
use plugin_host::audio_processor::{ProcessError, ProcessRequest};
use plugin_host::worker::{
    ends_session, next_action, sleep_duration, state_reply, Phase, Worker, WorkerAction,
    WorkerEvent, MAX_SLEEP_NANOS,
};

type Audio = Vec<Vec<i32>>;
type Action = WorkerAction<Audio, Audio>;

fn processor() -> AudioProcessor {
    AudioProcessor::new(AudioConfiguration { min_frames_count: 1, max_frames_count: 4096 })
}

fn action(message: MainThreadMessage<Audio>, has_gui: bool, audio: &AudioProcessor) -> Action {
    next_action(message, has_gui, audio)
}

#[test]
fn sleep_is_thirty_milliseconds_without_timers() {
    assert_eq!(sleep_duration(None), 30_000_000);
    assert_eq!(MAX_SLEEP_NANOS, 30_000_000);
}

#[test]
fn sleep_is_capped_at_thirty_milliseconds() {
    assert_eq!(sleep_duration(Some(30_000_000)), 30_000_000);
    assert_eq!(sleep_duration(Some(50_000_000)), 30_000_000);
    assert_eq!(sleep_duration(Some(u64::MAX)), 30_000_000);
}

#[test]
fn sleep_follows_shorter_wait() {
    assert_eq!(sleep_duration(Some(29_999_999)), 29_999_999);
    assert_eq!(sleep_duration(Some(0)), 0);
}

#[test]
fn callback_request_runs_callback() {
    let audio = processor();
    assert_eq!(
        action(MainThreadMessage::RunOnMainThread, false, &audio),
        WorkerAction::RunMainThreadCallback
    );
    assert_eq!(
        action(MainThreadMessage::RunOnMainThread, true, &audio),
        WorkerAction::RunMainThreadCallback
    );
}

#[test]
fn audio_is_handed_on_unchanged() {
    let audio = processor();
    let block: Audio = vec![vec![1, -2, 3], vec![4, 5, -6]];
    assert_eq!(
        action(MainThreadMessage::ProcessAudio(block.clone()), false, &audio),
        WorkerAction::ProcessAudio(block)
    );
}

#[test]
fn counter_is_answered_with_steady_time() {
    let mut audio = processor();
    assert_eq!(
        action(MainThreadMessage::GetCounter, false, &audio),
        WorkerAction::Reply(HostThreadMessage::Counter(0))
    );
    audio.finish_process(Some(512));
    assert_eq!(
        action(MainThreadMessage::GetCounter, true, &audio),
        WorkerAction::Reply(HostThreadMessage::Counter(512))
    );
}

#[test]
fn counter_after_restart_is_zero() {
    let mut audio = processor();
    audio.finish_process(Some(512));
    audio.restart();
    assert_eq!(
        action(MainThreadMessage::GetCounter, false, &audio),
        WorkerAction::Reply(HostThreadMessage::Counter(0))
    );
}

#[test]
fn state_commands_save_and_load() {
    let audio = processor();
    assert_eq!(action(MainThreadMessage::GetState, false, &audio), WorkerAction::SaveState);
    let state: Vec<u8> = vec![9, 0, 255, 3];
    assert_eq!(
        action(MainThreadMessage::SetState(state.clone()), false, &audio),
        WorkerAction::LoadState(state)
    );
}

#[test]
fn state_reply_carries_bytes_unchanged() {
    let state: Vec<u8> = vec![0, 0, 1, 128, 255];
    assert_eq!(state_reply::<Audio>(state.clone()), HostThreadMessage::State(state));
    assert_eq!(state_reply::<Audio>(Vec::new()), HostThreadMessage::State(Vec::new()));
}

#[test]
fn gui_commands_reach_the_window() {
    let audio = processor();
    assert_eq!(action(MainThreadMessage::GuiClosed, true, &audio), WorkerAction::CloseGui);
    let size = GuiSize { width: 800, height: 600 };
    assert_eq!(
        action(MainThreadMessage::GuiRequestResized(size), true, &audio),
        WorkerAction::ResizeGui(size)
    );
}

#[test]
fn gui_commands_are_skipped_without_window() {
    let audio = processor();
    assert_eq!(action(MainThreadMessage::GuiClosed, false, &audio), WorkerAction::Skip);
    let size = GuiSize { width: 800, height: 600 };
    assert_eq!(action(MainThreadMessage::GuiRequestResized(size), false, &audio), WorkerAction::Skip);
}

#[test]
fn only_closing_the_window_ends_the_session() {
    let all: Vec<Action> = vec![
        WorkerAction::RunMainThreadCallback,
        WorkerAction::ProcessAudio(Vec::new()),
        WorkerAction::Reply(HostThreadMessage::Counter(1)),
        WorkerAction::SaveState,
        WorkerAction::LoadState(vec![1]),
        WorkerAction::ResizeGui(GuiSize { width: 1, height: 1 }),
        WorkerAction::Skip,
        WorkerAction::Sleep(5),
        WorkerAction::TickTimers,
        WorkerAction::Drain,
        WorkerAction::BeginRound,
        WorkerAction::OutOfTurn,
    ];
    for action in &all {
        assert!(!ends_session(action));
    }
    let close: Action = WorkerAction::CloseGui;
    assert!(ends_session(&close));
    let stop: Action = WorkerAction::Stop;
    assert!(ends_session(&stop));
}

#[test]
fn thousand_process_commands_end_at_512000() {
    let mut audio = processor();
    for _ in 0..1000 {
        let block: Audio = vec![vec![0; 512], vec![0; 512]];
        match action(MainThreadMessage::ProcessAudio(block), false, &audio) {
            WorkerAction::ProcessAudio(block) => {
                let request = audio.begin_process(block[0].len(), block[1].len()).unwrap();
                assert_eq!(request.frames, 512);
                audio.finish_process(Some(request.frames));
            }
            other => panic!("unexpected action {:?}", other),
        }
    }
    assert_eq!(
        action(MainThreadMessage::GetCounter, false, &audio),
        WorkerAction::Reply(HostThreadMessage::Counter(512_000))
    );
}

fn worker(has_gui: bool) -> Worker {
    Worker::new(AudioConfiguration { min_frames_count: 1, max_frames_count: 4096 }, has_gui)
}

fn draining(has_gui: bool) -> Worker {
    let mut worker = worker(has_gui);
    let _: Action = worker.step(WorkerEvent::RoundBegins { next_wait: None });
    let _: Action = worker.step(WorkerEvent::Woke);
    let _: Action = worker.step(WorkerEvent::TimersTicked);
    assert_eq!(worker.current_phase(), Phase::Draining);
    worker
}

fn step(worker: &mut Worker, event: WorkerEvent<Audio>) -> Action {
    worker.step(event)
}

#[test]
fn new_worker_is_ready_at_zero() {
    let worker = worker(false);
    assert_eq!(worker.current_phase(), Phase::Ready);
    assert_eq!(worker.steady_time(), 0);
}

#[test]
fn round_sleeps_ticks_drains() {
    let mut worker = worker(false);
    assert_eq!(
        step(&mut worker, WorkerEvent::RoundBegins { next_wait: Some(50_000_000) }),
        WorkerAction::Sleep(30_000_000)
    );
    assert_eq!(worker.current_phase(), Phase::Asleep);
    assert_eq!(step(&mut worker, WorkerEvent::Woke), WorkerAction::TickTimers);
    assert_eq!(worker.current_phase(), Phase::Ticking);
    assert_eq!(step(&mut worker, WorkerEvent::TimersTicked), WorkerAction::Drain);
    assert_eq!(worker.current_phase(), Phase::Draining);
    assert_eq!(
        step(&mut worker, WorkerEvent::Received(MainThreadMessage::GetCounter)),
        WorkerAction::Reply(HostThreadMessage::Counter(0))
    );
    assert_eq!(worker.current_phase(), Phase::Draining);
    assert_eq!(step(&mut worker, WorkerEvent::QueueEmpty), WorkerAction::BeginRound);
    assert_eq!(worker.current_phase(), Phase::Ready);
    assert_eq!(
        step(&mut worker, WorkerEvent::RoundBegins { next_wait: Some(10) }),
        WorkerAction::Sleep(10)
    );
}

#[test]
fn events_out_of_turn_change_nothing() {
    let mut worker = worker(true);
    assert_eq!(step(&mut worker, WorkerEvent::Woke), WorkerAction::OutOfTurn);
    assert_eq!(step(&mut worker, WorkerEvent::TimersTicked), WorkerAction::OutOfTurn);
    assert_eq!(step(&mut worker, WorkerEvent::QueueEmpty), WorkerAction::OutOfTurn);
    assert_eq!(step(&mut worker, WorkerEvent::QueueClosed), WorkerAction::OutOfTurn);
    assert_eq!(
        step(&mut worker, WorkerEvent::Received(MainThreadMessage::GuiClosed)),
        WorkerAction::OutOfTurn
    );
    assert_eq!(worker.current_phase(), Phase::Ready);
    let _ = step(&mut worker, WorkerEvent::RoundBegins { next_wait: None });
    assert_eq!(
        step(&mut worker, WorkerEvent::RoundBegins { next_wait: None }),
        WorkerAction::OutOfTurn
    );
    assert_eq!(
        step(&mut worker, WorkerEvent::Received(MainThreadMessage::GetCounter)),
        WorkerAction::OutOfTurn
    );
    assert_eq!(worker.current_phase(), Phase::Asleep);
    let _ = step(&mut worker, WorkerEvent::Woke);
    assert_eq!(step(&mut worker, WorkerEvent::Woke), WorkerAction::OutOfTurn);
    assert_eq!(step(&mut worker, WorkerEvent::QueueEmpty), WorkerAction::OutOfTurn);
    assert_eq!(worker.current_phase(), Phase::Ticking);
    let _ = step(&mut worker, WorkerEvent::TimersTicked);
    assert_eq!(step(&mut worker, WorkerEvent::TimersTicked), WorkerAction::OutOfTurn);
    assert_eq!(step(&mut worker, WorkerEvent::Woke), WorkerAction::OutOfTurn);
    assert_eq!(worker.current_phase(), Phase::Draining);
}

#[test]
fn closed_queue_stops_the_worker() {
    let mut worker = draining(false);
    assert_eq!(step(&mut worker, WorkerEvent::QueueClosed), WorkerAction::Stop);
    assert_eq!(worker.current_phase(), Phase::Stopped);
}

#[test]
fn closed_window_stops_the_worker() {
    let mut worker = draining(true);
    assert_eq!(
        step(&mut worker, WorkerEvent::Received(MainThreadMessage::GuiClosed)),
        WorkerAction::CloseGui
    );
    assert_eq!(worker.current_phase(), Phase::Stopped);
}

#[test]
fn closed_window_without_gui_is_skipped() {
    let mut worker = draining(false);
    assert_eq!(
        step(&mut worker, WorkerEvent::Received(MainThreadMessage::GuiClosed)),
        WorkerAction::Skip
    );
    assert_eq!(worker.current_phase(), Phase::Draining);
}

#[test]
fn stopped_worker_does_nothing_more() {
    let mut worker = draining(false);
    let _ = step(&mut worker, WorkerEvent::QueueClosed);
    let events: Vec<WorkerEvent<Audio>> = vec![
        WorkerEvent::RoundBegins { next_wait: Some(1) },
        WorkerEvent::Woke,
        WorkerEvent::TimersTicked,
        WorkerEvent::Received(MainThreadMessage::GetCounter),
        WorkerEvent::Received(MainThreadMessage::ProcessAudio(Vec::new())),
        WorkerEvent::QueueEmpty,
        WorkerEvent::QueueClosed,
    ];
    for event in events {
        assert_eq!(step(&mut worker, event), WorkerAction::OutOfTurn);
        assert_eq!(worker.current_phase(), Phase::Stopped);
    }
}

#[test]
fn worker_keeps_the_steady_clock() {
    let mut worker = draining(false);
    assert_eq!(worker.begin_process(512, 512), Ok(ProcessRequest { frames: 512, steady_time: 0 }));
    worker.finish_process(Some(512));
    assert_eq!(worker.steady_time(), 512);
    assert_eq!(worker.current_phase(), Phase::Draining);
    assert_eq!(worker.begin_process(4096, 4096), Err(ProcessError::TooManyFrames));
    assert_eq!(worker.begin_process(1, 1), Err(ProcessError::TooFewFrames));
    assert_eq!(worker.begin_process(2, 3), Err(ProcessError::ChannelLengthMismatch));
    assert_eq!(
        step(&mut worker, WorkerEvent::Received(MainThreadMessage::GetCounter)),
        WorkerAction::Reply(HostThreadMessage::Counter(512))
    );
    worker.finish_process(None);
    assert_eq!(worker.steady_time(), 512);
    worker.restart();
    assert_eq!(worker.steady_time(), 0);
    assert_eq!(worker.current_phase(), Phase::Draining);
    assert_eq!(
        step(&mut worker, WorkerEvent::Received(MainThreadMessage::GetCounter)),
        WorkerAction::Reply(HostThreadMessage::Counter(0))
    );
}

#[test]
fn clock_wraps_at_its_end() {
    let mut worker = worker(false);
    for _ in 0..4 {
        worker.finish_process(Some(u32::MAX));
    }
    assert_eq!(worker.steady_time(), 4 * (u32::MAX as u64));
    let mut audio = processor();
    let mut expected: u64 = 0;
    for _ in 0..3 {
        audio.finish_process(Some(u32::MAX));
        expected = expected.wrapping_add(u32::MAX as u64);
    }
    assert_eq!(audio.steady_time(), expected);
}

#[test]
fn thousand_commands_over_many_rounds() {
    let mut worker = worker(false);
    let mut served = 0;
    while served < 1000 {
        assert_eq!(
            step(&mut worker, WorkerEvent::RoundBegins { next_wait: None }),
            WorkerAction::Sleep(30_000_000)
        );
        assert_eq!(step(&mut worker, WorkerEvent::Woke), WorkerAction::TickTimers);
        assert_eq!(step(&mut worker, WorkerEvent::TimersTicked), WorkerAction::Drain);
        for _ in 0..7 {
            if served == 1000 {
                break;
            }
            let block: Audio = vec![vec![0; 512], vec![0; 512]];
            match step(&mut worker, WorkerEvent::Received(MainThreadMessage::ProcessAudio(block))) {
                WorkerAction::ProcessAudio(block) => {
                    let request = worker.begin_process(block[0].len(), block[1].len()).unwrap();
                    worker.finish_process(Some(request.frames));
                }
                other => panic!("unexpected action {:?}", other),
            }
            served += 1;
        }
        if served < 1000 {
            assert_eq!(step(&mut worker, WorkerEvent::QueueEmpty), WorkerAction::BeginRound);
        }
    }
    assert_eq!(
        step(&mut worker, WorkerEvent::Received(MainThreadMessage::GetCounter)),
        WorkerAction::Reply(HostThreadMessage::Counter(512_000))
    );
    assert_eq!(step(&mut worker, WorkerEvent::QueueClosed), WorkerAction::Stop);
}

#[test]
fn worker_checks_whole_blocks() {
    let worker = worker(false);
    let stereo: Audio = vec![vec![0; 64], vec![0; 64]];
    assert_eq!(worker.begin_block(&stereo), Ok(ProcessRequest { frames: 64, steady_time: 0 }));
    let mono: Audio = vec![vec![0; 64]];
    assert_eq!(worker.begin_block(&mono), Err(ProcessError::NotTwoChannels));
}
