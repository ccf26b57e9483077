use plugin_host::gui::GuiSize;
use plugin_host::audio_processor::ProcessError;
use plugin_host::host::{
    audio_reply, expect_audio, expect_counter, expect_state, ClientError, HostThreadMessage,
};
use plugin_host::main_thread::MainThreadMessage;
use plugin_host::shared::{bridge_message, PluginRequest, Shared};
use plugin_host::ClapPlugin;
use std::sync::mpsc::channel;

type Audio = Vec<i32>;

#[test]
fn callback_request_becomes_command() {
    assert_eq!(
        bridge_message::<Audio>(PluginRequest::Callback),
        Some(MainThreadMessage::RunOnMainThread)
    );
}

#[test]
fn resize_request_becomes_command_with_size() {
    let size = GuiSize { width: 1024, height: 768 };
    assert_eq!(
        bridge_message::<Audio>(PluginRequest::Resize(size)),
        Some(MainThreadMessage::GuiRequestResized(size))
    );
}

#[test]
fn closed_window_becomes_command() {
    assert_eq!(
        bridge_message::<Audio>(PluginRequest::Closed { was_destroyed: true }),
        Some(MainThreadMessage::GuiClosed)
    );
    assert_eq!(
        bridge_message::<Audio>(PluginRequest::Closed { was_destroyed: false }),
        Some(MainThreadMessage::GuiClosed)
    );
}

#[test]
fn other_requests_need_no_command() {
    let quiet = [
        PluginRequest::Process,
        PluginRequest::Restart,
        PluginRequest::ResizeHintsChanged,
        PluginRequest::Show,
        PluginRequest::Hide,
        PluginRequest::ParamFlush,
    ];
    for request in quiet {
        assert_eq!(bridge_message::<Audio>(request), None);
    }
}

#[test]
fn bridge_queues_commands_in_order() {
    let (sender, receiver) = channel::<MainThreadMessage<Audio>>();
    let mut shared = Shared::new(sender);
    let size = GuiSize { width: 5, height: 6 };
    assert!(shared.handle(PluginRequest::Callback));
    assert!(shared.handle(PluginRequest::Process));
    assert!(shared.handle(PluginRequest::Resize(size)));
    assert!(shared.handle(PluginRequest::Show));
    assert!(shared.handle(PluginRequest::Closed { was_destroyed: false }));
    assert_eq!(receiver.try_recv(), Ok(MainThreadMessage::RunOnMainThread));
    assert_eq!(receiver.try_recv(), Ok(MainThreadMessage::GuiRequestResized(size)));
    assert_eq!(receiver.try_recv(), Ok(MainThreadMessage::GuiClosed));
    assert!(receiver.try_recv().is_err());
}

#[test]
fn bridge_without_worker_refuses_commands_only() {
    let (sender, receiver) = channel::<MainThreadMessage<Audio>>();
    let mut shared = Shared::new(sender);
    drop(receiver);
    assert!(!shared.handle(PluginRequest::Callback));
    assert!(!shared.handle(PluginRequest::Resize(GuiSize { width: 1, height: 1 })));
    assert!(!shared.handle(PluginRequest::Closed { was_destroyed: true }));
    assert!(shared.handle(PluginRequest::Process));
    assert!(shared.handle(PluginRequest::Restart));
    assert!(shared.handle(PluginRequest::Show));
    assert!(shared.handle(PluginRequest::Hide));
    assert!(shared.handle(PluginRequest::ResizeHintsChanged));
    assert!(shared.handle(PluginRequest::ParamFlush));
}

#[test]
fn replies_are_matched_to_their_command() {
    let audio: HostThreadMessage<Audio> = HostThreadMessage::AudioProcessed(vec![1, 2]);
    assert_eq!(expect_audio(audio), Ok(vec![1, 2]));
    let counter: HostThreadMessage<Audio> = HostThreadMessage::Counter(77);
    assert_eq!(expect_counter(counter), Ok(77));
    let state: HostThreadMessage<Audio> = HostThreadMessage::State(vec![3, 4, 5]);
    assert_eq!(expect_state(state), Ok(vec![3, 4, 5]));
}

#[test]
fn replies_to_other_commands_are_errors() {
    let counter: HostThreadMessage<Audio> = HostThreadMessage::Counter(77);
    assert_eq!(expect_audio(counter), Err(ClientError::UnexpectedReply));
    let state: HostThreadMessage<Audio> = HostThreadMessage::State(Vec::new());
    assert_eq!(expect_audio(state), Err(ClientError::UnexpectedReply));
    let audio: HostThreadMessage<Audio> = HostThreadMessage::AudioProcessed(Vec::new());
    assert_eq!(expect_counter(audio), Err(ClientError::UnexpectedReply));
    let state: HostThreadMessage<Audio> = HostThreadMessage::State(vec![1]);
    assert_eq!(expect_counter(state), Err(ClientError::UnexpectedReply));
    let audio: HostThreadMessage<Audio> = HostThreadMessage::AudioProcessed(vec![1]);
    assert_eq!(expect_state(audio), Err(ClientError::UnexpectedReply));
    let counter: HostThreadMessage<Audio> = HostThreadMessage::Counter(0);
    assert_eq!(expect_state(counter), Err(ClientError::UnexpectedReply));
}

#[test]
fn handle_sends_command_and_takes_reply() {
    let (to_worker, commands) = channel::<MainThreadMessage<Audio>>();
    let (to_caller, replies) = channel::<HostThreadMessage<Audio>>();
    let mut plugin = ClapPlugin::new(to_worker, replies);

    to_caller.send(HostThreadMessage::Counter(512)).unwrap();
    assert_eq!(plugin.get_counter(), Ok(512));
    assert_eq!(commands.try_recv(), Ok(MainThreadMessage::GetCounter));

    to_caller.send(HostThreadMessage::AudioProcessed(vec![7, 8])).unwrap();
    assert_eq!(plugin.process_audio(vec![1, 2]), Ok(vec![7, 8]));
    assert_eq!(commands.try_recv(), Ok(MainThreadMessage::ProcessAudio(vec![1, 2])));

    to_caller.send(HostThreadMessage::State(vec![9, 9])).unwrap();
    assert_eq!(plugin.get_state(), Ok(vec![9, 9]));
    assert_eq!(commands.try_recv(), Ok(MainThreadMessage::GetState));

    assert_eq!(plugin.set_state(vec![4, 5, 6]), Ok(()));
    assert_eq!(commands.try_recv(), Ok(MainThreadMessage::SetState(vec![4, 5, 6])));
    assert!(commands.try_recv().is_err());
}

#[test]
fn handle_reports_unexpected_reply() {
    let (to_worker, _commands) = channel::<MainThreadMessage<Audio>>();
    let (to_caller, replies) = channel::<HostThreadMessage<Audio>>();
    let mut plugin = ClapPlugin::new(to_worker, replies);
    to_caller.send(HostThreadMessage::State(vec![1])).unwrap();
    assert_eq!(plugin.get_counter(), Err(ClientError::UnexpectedReply));
    to_caller.send(HostThreadMessage::Counter(1)).unwrap();
    assert_eq!(plugin.process_audio(vec![1]), Err(ClientError::UnexpectedReply));
    to_caller.send(HostThreadMessage::Counter(1)).unwrap();
    assert_eq!(plugin.get_state(), Err(ClientError::UnexpectedReply));
}

#[test]
fn handle_reports_lost_worker() {
    let (to_worker, commands) = channel::<MainThreadMessage<Audio>>();
    let (to_caller, replies) = channel::<HostThreadMessage<Audio>>();
    let mut plugin = ClapPlugin::new(to_worker, replies);
    drop(to_caller);
    assert_eq!(plugin.get_counter(), Err(ClientError::Disconnected));
    assert_eq!(commands.try_recv(), Ok(MainThreadMessage::GetCounter));
    drop(commands);
    assert_eq!(plugin.get_counter(), Err(ClientError::Disconnected));
    assert_eq!(plugin.process_audio(vec![1]), Err(ClientError::Disconnected));
    assert_eq!(plugin.get_state(), Err(ClientError::Disconnected));
    assert_eq!(plugin.set_state(vec![1]), Err(ClientError::Disconnected));
}

#[test]
fn state_set_then_got_is_unchanged() {
    let (to_worker, commands) = channel::<MainThreadMessage<Audio>>();
    let (to_caller, replies) = channel::<HostThreadMessage<Audio>>();
    let mut plugin = ClapPlugin::new(to_worker, replies);
    let bytes: Vec<u8> = vec![0, 255, 1, 254, 0, 0];
    plugin.set_state(bytes.clone()).unwrap();
    let stored = match commands.try_recv() {
        Ok(MainThreadMessage::SetState(stored)) => stored,
        other => panic!("unexpected command {:?}", other),
    };
    assert_eq!(stored, bytes);
    to_caller.send(HostThreadMessage::State(stored)).unwrap();
    assert_eq!(plugin.get_state(), Ok(bytes));
}

#[test]
fn audio_reply_wraps_both_outcomes() {
    assert_eq!(audio_reply::<Audio>(Ok(vec![1, 2])), HostThreadMessage::AudioProcessed(vec![1, 2]));
    assert_eq!(
        audio_reply::<Audio>(Err(ProcessError::TooFewFrames)),
        HostThreadMessage::AudioRefused(ProcessError::TooFewFrames)
    );
}

#[test]
fn refusal_reaches_the_caller() {
    let refused: HostThreadMessage<Audio> =
        HostThreadMessage::AudioRefused(ProcessError::ChannelLengthMismatch);
    assert_eq!(
        expect_audio(refused),
        Err(ClientError::Refused(ProcessError::ChannelLengthMismatch))
    );
    let refused: HostThreadMessage<Audio> = HostThreadMessage::AudioRefused(ProcessError::TooManyFrames);
    assert_eq!(expect_counter(refused), Err(ClientError::UnexpectedReply));
    let refused: HostThreadMessage<Audio> = HostThreadMessage::AudioRefused(ProcessError::TooManyFrames);
    assert_eq!(expect_state(refused), Err(ClientError::UnexpectedReply));
}

#[test]
fn handle_reports_refused_audio() {
    let (to_worker, _commands) = channel::<MainThreadMessage<Audio>>();
    let (to_caller, replies) = channel::<HostThreadMessage<Audio>>();
    let mut plugin = ClapPlugin::new(to_worker, replies);
    to_caller.send(HostThreadMessage::AudioRefused(ProcessError::TooManyFrames)).unwrap();
    assert_eq!(
        plugin.process_audio(vec![1]),
        Err(ClientError::Refused(ProcessError::TooManyFrames))
    );
}
