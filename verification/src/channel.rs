//! The two channels that cross the concurrency boundary: the foreground sends
//! commands to the worker, the worker streams result cards back. The handle
//! the foreground holds lives here, with the trusted view of the standard
//! channel endpoints it is built from.

use vstd::prelude::*;

use crate::cards::NewsCardData;
use crate::news::NewsApiError;
use crate::worker::WorkerCommand;

verus! {

#[verifier::external_type_specification]
#[verifier::external_body]
#[verifier::reject_recursive_types(T)]
pub struct ExSender<T>(std::sync::mpsc::Sender<T>);

#[verifier::external_type_specification]
#[verifier::external_body]
#[verifier::reject_recursive_types(T)]
pub struct ExReceiver<T>(std::sync::mpsc::Receiver<T>);

/// Relies on std::sync::mpsc::Sender::send: queues the message for the
/// receiving end without blocking, and fails exactly when that end has been
/// dropped. The message itself is lost either way it came back.
#[verifier::external_body]
fn send_message<T>(tx: &std::sync::mpsc::Sender<T>, msg: T) -> (r: Result<(), NewsApiError>)
    ensures
        r matches Err(e) ==> e is ChannelClosed,
{
    tx.send(msg).map_err(|_| NewsApiError::ChannelClosed)
}

/// Relies on std::sync::mpsc::Receiver::try_recv: hands back a message that
/// already sits on the channel, in send order, and returns at once — never
/// blocking — when none is pending or the sending end is gone.
#[verifier::external_body]
fn try_recv_card(rx: &std::sync::mpsc::Receiver<NewsCardData>) -> (r: Option<NewsCardData>) {
    rx.try_recv().ok()
}

/// Sends every card down the result channel, in the order given, stopping at
/// the first failure: once the consumer is gone the rest cannot arrive.
pub fn dispatch_cards(
    tx: &std::sync::mpsc::Sender<NewsCardData>,
    cards: Vec<NewsCardData>,
) -> (r: Result<(), NewsApiError>)
    ensures
        r matches Err(e) ==> e is ChannelClosed,
{
    let mut rest = cards;
    while rest.len() > 0
        decreases rest@.len(),
    {
        let card = rest.remove(0);
        match send_message(tx, card) {
            Ok(()) => {},
            Err(e) => {
                return Err(e);
            },
        }
    }
    Ok(())
}

/// What the caller owns of a running worker: the sending end of the command
/// channel and the receiving end of the result channel. Dropping the handle
/// does not cancel a pass already running; the worker exits when its channels
/// close.
pub struct WorkerHandle {
    pub cmd_tx: std::sync::mpsc::Sender<WorkerCommand>,
    pub card_rx: std::sync::mpsc::Receiver<NewsCardData>,
}

impl WorkerHandle {
    /// A handle from the two endpoints the caller keeps after wiring up a
    /// worker.
    pub fn new(
        cmd_tx: std::sync::mpsc::Sender<WorkerCommand>,
        card_rx: std::sync::mpsc::Receiver<NewsCardData>,
    ) -> (r: Self)
        ensures
            r == (WorkerHandle { cmd_tx, card_rx }),
    {
        WorkerHandle { cmd_tx, card_rx }
    }

    /// The next buffered result if one has arrived, and `None` otherwise,
    /// returning at once either way: the channel is only polled, never waited
    /// on.
    pub fn try_receive(&mut self) -> (r: Option<NewsCardData>)
        ensures
            *final(self) == *old(self),
    {
        try_recv_card(&self.card_rx)
    }

    /// Delivers a credential to the worker. Fails exactly as the channel
    /// does: with `ChannelClosed`, when the worker has terminated.
    pub fn send_credential(&self, cred: String) -> (r: Result<(), NewsApiError>)
        ensures
            r matches Err(e) ==> e is ChannelClosed,
    {
        send_message(&self.cmd_tx, WorkerCommand::SetCredential(cred))
    }

    /// Asks the worker for one more pass with the credential it last got.
    /// Fails exactly as the channel does: with `ChannelClosed`, when the
    /// worker has terminated.
    pub fn request_refresh(&self) -> (r: Result<(), NewsApiError>)
        ensures
            r matches Err(e) ==> e is ChannelClosed,
    {
        send_message(&self.cmd_tx, WorkerCommand::Refresh)
    }
}

} // verus!
