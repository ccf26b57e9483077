//! What the worker answers to the threads that command it.

use crate::audio_processor::ProcessError;
use vstd::prelude::*;

verus! {

/// A reply from the worker to the caller whose command it answers.
///
/// `B` is the processed audio that goes back to the caller: the output
/// buffers and output events. The host hands it over as it is.
#[derive(Debug, PartialEq, Eq)]
pub enum HostThreadMessage<B> {
    /// The audio that the plugin made of a `ProcessAudio` command.
    AudioProcessed(B),
    /// The audio of a `ProcessAudio` command was refused, and why.
    AudioRefused(ProcessError),
    /// The steady time, in answer to `GetCounter`.
    Counter(u64),
    /// The plugin's saved state, in answer to `GetState`.
    State(Vec<u8>),
}

/// Why a call on the caller's handle failed.
#[derive(Clone, Copy, Debug, PartialEq, Eq, Structural)]
pub enum ClientError {
    /// The worker is gone: the command could not be queued, or no reply will come.
    Disconnected,
    /// The worker answered with a reply that belongs to another command.
    UnexpectedReply,
    /// The worker refused the audio, and why.
    Refused(ProcessError),
}

/// What a caller that sent `ProcessAudio` makes of `reply`.
pub open spec fn audio_in<B>(reply: HostThreadMessage<B>) -> Result<B, ClientError> {
    match reply {
        HostThreadMessage::AudioProcessed(audio) => Ok(audio),
        HostThreadMessage::AudioRefused(error) => Err(ClientError::Refused(error)),
        _ => Err(ClientError::UnexpectedReply),
    }
}

/// What a caller that sent `GetCounter` makes of `reply`.
pub open spec fn counter_in<B>(reply: HostThreadMessage<B>) -> Result<u64, ClientError> {
    match reply {
        HostThreadMessage::Counter(counter) => Ok(counter),
        _ => Err(ClientError::UnexpectedReply),
    }
}

/// What a caller that sent `GetState` makes of `reply`.
pub open spec fn state_in<B>(reply: HostThreadMessage<B>) -> Result<Vec<u8>, ClientError> {
    match reply {
        HostThreadMessage::State(state) => Ok(state),
        _ => Err(ClientError::UnexpectedReply),
    }
}

/// The reply to a `ProcessAudio` command: the processed audio, or the
/// reason why the audio was refused.
pub open spec fn reply_to_audio<B>(processed: Result<B, ProcessError>) -> HostThreadMessage<B> {
    match processed {
        Ok(audio) => HostThreadMessage::AudioProcessed(audio),
        Err(error) => HostThreadMessage::AudioRefused(error),
    }
}

/// A caller that sent audio gets back exactly what the worker made of it:
/// the processed audio, or the worker's reason for refusing.
pub proof fn lemma_audio_reply_round_trip<B>(processed: Result<B, ProcessError>)
    ensures
        audio_in(reply_to_audio(processed)) == match processed {
            Ok(audio) => Ok::<B, ClientError>(audio),
            Err(error) => Err::<B, ClientError>(ClientError::Refused(error)),
        },
{
}

/// Wraps the outcome of a `ProcessAudio` command in the reply for the caller.
pub fn audio_reply<B>(processed: Result<B, ProcessError>) -> (reply: HostThreadMessage<B>)
    ensures
        reply == reply_to_audio(processed),
{
    match processed {
        Ok(audio) => HostThreadMessage::AudioProcessed(audio),
        Err(error) => HostThreadMessage::AudioRefused(error),
    }
}

/// What a caller has after it sent a command and, if the queue took it,
/// waited for the reply: the reply, unless the worker is gone. The worker is
/// gone if the command was not `queued`, or if no reply `arrived`.
pub open spec fn reply_or_disconnected<B>(
    queued: bool,
    arrived: Option<HostThreadMessage<B>>,
) -> Result<HostThreadMessage<B>, ClientError> {
    if queued {
        match arrived {
            Some(reply) => Ok(reply),
            None => Err(ClientError::Disconnected),
        }
    } else {
        Err(ClientError::Disconnected)
    }
}

/// Takes the processed audio out of `reply`, which must answer `ProcessAudio`.
pub fn expect_audio<B>(reply: HostThreadMessage<B>) -> (audio: Result<B, ClientError>)
    ensures
        audio == audio_in(reply),
{
    match reply {
        HostThreadMessage::AudioProcessed(audio) => Ok(audio),
        HostThreadMessage::AudioRefused(error) => Err(ClientError::Refused(error)),
        _ => Err(ClientError::UnexpectedReply),
    }
}

/// Takes the steady time out of `reply`, which must answer `GetCounter`.
pub fn expect_counter<B>(reply: HostThreadMessage<B>) -> (counter: Result<u64, ClientError>)
    ensures
        counter == counter_in(reply),
{
    match reply {
        HostThreadMessage::Counter(counter) => Ok(counter),
        _ => Err(ClientError::UnexpectedReply),
    }
}

/// Takes the saved state out of `reply`, which must answer `GetState`.
pub fn expect_state<B>(reply: HostThreadMessage<B>) -> (state: Result<Vec<u8>, ClientError>)
    ensures
        state == state_in(reply),
{
    match reply {
        HostThreadMessage::State(state) => Ok(state),
        _ => Err(ClientError::UnexpectedReply),
    }
}

} // verus!
