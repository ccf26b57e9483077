//! The caller's handle on a running plugin.

use crate::channel::{Inbox, Outbox, Sending};
use crate::host::{
    audio_in, counter_in, expect_audio, expect_counter, expect_state, reply_or_disconnected,
    state_in, ClientError, HostThreadMessage,
};
use crate::main_thread::MainThreadMessage;
use std::sync::mpsc::{Receiver, Sender};
use vstd::prelude::*;

verus! {

/// A running plugin, seen from the thread that uses it. Every call queues
/// one command for the worker; those that expect an answer wait for it.
///
/// `A` is the audio that goes in, `B` the audio that comes back.
#[verifier::reject_recursive_types(A)]
#[verifier::reject_recursive_types(B)]
pub struct ClapPlugin<A, B> {
    commands: Outbox<MainThreadMessage<A>>,
    replies: Inbox<HostThreadMessage<B>>,
}

impl<A, B> ClapPlugin<A, B> {
    /// The queue that commands go to.
    pub closed spec fn commands(&self) -> Sender<MainThreadMessage<A>> {
        self.commands.sender()
    }

    /// The queue that replies come from.
    pub closed spec fn replies(&self) -> Receiver<HostThreadMessage<B>> {
        self.replies.receiver()
    }

    /// Every command handed to the worker's queue so far, oldest first, each
    /// with whether the queue took it.
    pub closed spec fn sent(&self) -> Seq<Sending<MainThreadMessage<A>>> {
        self.commands.sent()
    }

    /// The outcome of every wait for a reply so far, oldest first: the reply,
    /// or `None` where the worker was gone.
    pub closed spec fn received(&self) -> Seq<Option<HostThreadMessage<B>>> {
        self.replies.received()
    }

    /// The handle has sent `command` and nothing else since it was `before`,
    /// the queue took the command or not as `queued` says, and the handle has
    /// not waited for a reply.
    pub open spec fn has_sent(&self, before: Self, command: MainThreadMessage<A>, queued: bool) -> bool {
        &&& self.commands() == before.commands()
        &&& self.replies() == before.replies()
        &&& self.sent() == before.sent().push(Sending { value: command, queued })
        &&& self.received() == before.received()
    }

    /// The handle has sent `command` and nothing else since it was `before`,
    /// and if the queue took the command, it has waited once for a reply,
    /// with the outcome `arrived`. If the queue did not take the command, the
    /// handle has not waited, and `arrived` is `None`.
    pub open spec fn has_asked(
        &self,
        before: Self,
        command: MainThreadMessage<A>,
        queued: bool,
        arrived: Option<HostThreadMessage<B>>,
    ) -> bool {
        &&& self.commands() == before.commands()
        &&& self.replies() == before.replies()
        &&& self.sent() == before.sent().push(Sending { value: command, queued })
        &&& self.received() == if queued {
            before.received().push(arrived)
        } else {
            before.received()
        }
        &&& !queued ==> arrived is None
    }

    /// A handle that queues commands on `sender` and takes replies from
    /// `receiver`, and has done neither yet.
    pub fn new(sender: Sender<MainThreadMessage<A>>, receiver: Receiver<HostThreadMessage<B>>) -> (
        plugin: Self)
        ensures
            plugin.commands() == sender,
            plugin.replies() == receiver,
            plugin.sent() == Seq::<Sending<MainThreadMessage<A>>>::empty(),
            plugin.received() == Seq::<Option<HostThreadMessage<B>>>::empty(),
    {
        Self { commands: Outbox::new(sender), replies: Inbox::new(receiver) }
    }

    /// Sends `message` to the worker and, if the queue took it, waits for one
    /// reply. The answer is that reply, or that the worker is gone.
    fn request(&mut self, message: MainThreadMessage<A>) -> (reply: Result<
        HostThreadMessage<B>,
        ClientError,
    >)
        ensures
            exists|queued: bool, arrived: Option<HostThreadMessage<B>>|
                {
                    &&& #[trigger] final(self).has_asked(*old(self), message, queued, arrived)
                    &&& reply == reply_or_disconnected(queued, arrived)
                },
    {
        let ghost command = message;
        if !self.commands.send(message) {
            assert(self.has_asked(*old(self), command, false, None));
            return Err(ClientError::Disconnected);
        }
        let arrived = self.replies.recv();
        assert(self.has_asked(*old(self), command, true, arrived));
        match arrived {
            Some(reply) => Ok(reply),
            None => Err(ClientError::Disconnected),
        }
    }

    /// Has the plugin process `input_audio` and waits for the result: the
    /// processed audio, the worker's reason for refusing the audio, or an
    /// error if the worker is gone or answers something else.
    pub fn process_audio(&mut self, input_audio: A) -> (output_audio: Result<B, ClientError>)
        ensures
            exists|queued: bool, arrived: Option<HostThreadMessage<B>>|
                {
                    &&& #[trigger] final(self).has_asked(
                        *old(self),
                        MainThreadMessage::ProcessAudio(input_audio),
                        queued,
                        arrived,
                    )
                    &&& output_audio == match reply_or_disconnected(queued, arrived) {
                        Ok(reply) => audio_in(reply),
                        Err(error) => Err(error),
                    }
                },
    {
        match self.request(MainThreadMessage::ProcessAudio(input_audio)) {
            Ok(reply) => expect_audio(reply),
            Err(error) => Err(error),
        }
    }

    /// Asks for the steady time and waits for it.
    pub fn get_counter(&mut self) -> (counter: Result<u64, ClientError>)
        ensures
            exists|queued: bool, arrived: Option<HostThreadMessage<B>>|
                {
                    &&& #[trigger] final(self).has_asked(
                        *old(self),
                        MainThreadMessage::GetCounter,
                        queued,
                        arrived,
                    )
                    &&& counter == match reply_or_disconnected(queued, arrived) {
                        Ok(reply) => counter_in(reply),
                        Err(error) => Err(error),
                    }
                },
    {
        match self.request(MainThreadMessage::GetCounter) {
            Ok(reply) => expect_counter(reply),
            Err(error) => Err(error),
        }
    }

    /// Asks for the plugin's state and waits for it.
    pub fn get_state(&mut self) -> (state: Result<Vec<u8>, ClientError>)
        ensures
            exists|queued: bool, arrived: Option<HostThreadMessage<B>>|
                {
                    &&& #[trigger] final(self).has_asked(
                        *old(self),
                        MainThreadMessage::GetState,
                        queued,
                        arrived,
                    )
                    &&& state == match reply_or_disconnected(queued, arrived) {
                        Ok(reply) => state_in(reply),
                        Err(error) => Err(error),
                    }
                },
    {
        match self.request(MainThreadMessage::GetState) {
            Ok(reply) => expect_state(reply),
            Err(error) => Err(error),
        }
    }

    /// Hands the plugin a state to load: those bytes, as they are. Does not
    /// wait; the answer only says whether the command could be queued.
    pub fn set_state(&mut self, state: Vec<u8>) -> (queued: Result<(), ClientError>)
        ensures
            final(self).has_sent(*old(self), MainThreadMessage::SetState(state), queued is Ok),
            queued matches Err(error) ==> error == ClientError::Disconnected,
    {
        if self.commands.send(MainThreadMessage::SetState(state)) {
            Ok(())
        } else {
            Err(ClientError::Disconnected)
        }
    }
}

} // verus!
