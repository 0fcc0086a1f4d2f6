//! The stop capability of one running listener.
use vstd::prelude::*;

use futures::sync::oneshot::{Receiver, Sender};

verus! {

#[verifier::external_type_specification]
#[verifier::external_body]
#[verifier::reject_recursive_types(T)]
pub struct ExSender<T>(Sender<T>);

#[verifier::external_type_specification]
#[verifier::external_body]
#[verifier::reject_recursive_types(T)]
pub struct ExReceiver<T>(Receiver<T>);

/// Relies on futures::sync::oneshot::channel: a fresh sender and the
/// receiver paired with it.
#[verifier::external_body]
fn shutdown_channel() -> (r: (Sender<()>, Receiver<()>)) {
    futures::sync::oneshot::channel()
}

/// Relies on futures::sync::oneshot::Sender::send: consumes the sender and
/// reports whether the value reached a receiver that was still alive.
#[verifier::external_body]
fn send_shutdown(tx: Sender<()>) -> (r: Result<(), ()>) {
    tx.send(())
}

/// Why a stop notice could not be handed to a serving loop.
#[derive(Debug, PartialEq, Eq, Structural)]
pub enum StopError {
    /// The serving loop had already let go of its end of the signal.
    ServingLoopGone,
}

/// Owns the single-use shutdown signal of one running listener.
///
/// Signalling consumes the handle, so a listener can be told to stop at most
/// once.
pub struct ListenerHandle {
    shutdown: Sender<()>,
}

impl ListenerHandle {
    /// A new handle together with the receiving end that the serving loop
    /// watches for its graceful shutdown.
    pub fn new() -> (r: (ListenerHandle, Receiver<()>)) {
        let (tx, rx) = shutdown_channel();
        (ListenerHandle { shutdown: tx }, rx)
    }

    /// Delivers the stop notice, consuming the handle.
    ///
    /// Whether the serving loop still listens is decided outside this
    /// library; a loop that is gone yields `ServingLoopGone` and nothing
    /// else is affected.
    pub fn signal_stop(self) -> (r: Result<(), StopError>)
        ensures
            r is Err ==> r == Err::<(), StopError>(StopError::ServingLoopGone),
    {
        match send_shutdown(self.shutdown) {
            Ok(()) => Ok(()),
            Err(()) => Err(StopError::ServingLoopGone),
        }
    }
}

} // verus!
