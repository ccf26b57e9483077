//! The bridge between the plugin and the worker.
//!
//! The plugin may call the host from any thread. The bridge does no work on
//! the plugin's behalf: it turns a request into a command for the worker and
//! queues it, or answers at once where the answer is always the same.

use crate::channel::{Outbox, Sending};
use crate::gui::GuiSize;
use crate::main_thread::MainThreadMessage;
use std::sync::mpsc::Sender;
use vstd::prelude::*;

verus! {

/// What a plugin can ask of the host from any thread.
#[derive(Clone, Copy, Debug, PartialEq, Eq, Structural)]
pub enum PluginRequest {
    /// Start processing again. The host never stops processing.
    Process,
    /// Call the plugin back on the main thread.
    Callback,
    /// Restart the plugin. The host does not restart plugins.
    Restart,
    /// The plugin's resize hints changed. The host does not use them.
    ResizeHintsChanged,
    /// Give the plugin's window this size.
    Resize(GuiSize),
    /// Show the plugin's window. The host never hides it.
    Show,
    /// Hide the plugin's window. The host never hides it.
    Hide,
    /// The plugin's window was closed.
    Closed { was_destroyed: bool },
    /// Flush the parameters outside of processing. The host always processes.
    ParamFlush,
}

/// The command that a request becomes, or `None` where the host answers at
/// once without doing anything.
pub open spec fn bridged<A>(request: PluginRequest) -> Option<MainThreadMessage<A>> {
    match request {
        PluginRequest::Callback => Some(MainThreadMessage::RunOnMainThread),
        PluginRequest::Resize(size) => Some(MainThreadMessage::GuiRequestResized(size)),
        PluginRequest::Closed { was_destroyed } => Some(MainThreadMessage::GuiClosed),
        _ => None,
    }
}

/// The command for `request`, if it needs one.
pub fn bridge_message<A>(request: PluginRequest) -> (message: Option<MainThreadMessage<A>>)
    ensures
        message == bridged::<A>(request),
{
    match request {
        PluginRequest::Callback => Some(MainThreadMessage::RunOnMainThread),
        PluginRequest::Resize(size) => Some(MainThreadMessage::GuiRequestResized(size)),
        PluginRequest::Closed { was_destroyed: _ } => Some(MainThreadMessage::GuiClosed),
        PluginRequest::Process
        | PluginRequest::Restart
        | PluginRequest::ResizeHintsChanged
        | PluginRequest::Show
        | PluginRequest::Hide
        | PluginRequest::ParamFlush => None,
    }
}

/// What the bridge has handed to the queue once `request` is served, if
/// `before` is what it had handed over earlier: the command that the request
/// becomes, with `accepted` as the outcome, or nothing more where the request
/// needs no command.
pub open spec fn handed_after<A>(
    before: Seq<Sending<MainThreadMessage<A>>>,
    request: PluginRequest,
    accepted: bool,
) -> Seq<Sending<MainThreadMessage<A>>> {
    match bridged::<A>(request) {
        Some(command) => before.push(Sending { value: command, queued: accepted }),
        None => before,
    }
}

/// The plugin's way to the worker's queue.
#[verifier::reject_recursive_types(A)]
pub struct Shared<A> {
    outbox: Outbox<MainThreadMessage<A>>,
}

impl<A> Shared<A> {
    /// The queue that commands go to.
    pub closed spec fn queue(&self) -> Sender<MainThreadMessage<A>> {
        self.outbox.sender()
    }

    /// Every command handed to the queue so far, oldest first, each with
    /// whether the queue took it.
    pub closed spec fn handed(&self) -> Seq<Sending<MainThreadMessage<A>>> {
        self.outbox.sent()
    }

    /// A bridge that queues on `sender` and has queued nothing yet.
    pub fn new(sender: Sender<MainThreadMessage<A>>) -> (shared: Self)
        ensures
            shared.queue() == sender,
            shared.handed() == Seq::<Sending<MainThreadMessage<A>>>::empty(),
    {
        Self { outbox: Outbox::new(sender) }
    }

    /// Serves `request`. A request that needs no command is accepted at once
    /// and nothing is queued. A request that needs one has exactly that
    /// command handed to the queue, and is accepted if the queue took it: it
    /// does not when the worker is gone.
    pub fn handle(&mut self, request: PluginRequest) -> (accepted: bool)
        ensures
            final(self).queue() == old(self).queue(),
            final(self).handed() == handed_after(old(self).handed(), request, accepted),
            bridged::<A>(request) is None ==> accepted,
    {
        match bridge_message(request) {
            Some(message) => self.outbox.send(message),
            None => true,
        }
    }
}

} // verus!
