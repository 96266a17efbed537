//! Trusted boundary around std's bounded channels: the mailbox that feeds
//! the actor and the one-shot reply slots are both of this kind. A value
//! carried through a channel comes from another thread, so nothing is
//! claimed about it; the store's contracts hold for whatever arrives.

use vstd::prelude::*;

verus! {

#[verifier::external_type_specification]
#[verifier::external_body]
#[verifier::reject_recursive_types(T)]
pub struct ExSyncSender<T>(std::sync::mpsc::SyncSender<T>);

#[verifier::external_type_specification]
#[verifier::external_body]
#[verifier::reject_recursive_types(T)]
pub struct ExReceiver<T>(std::sync::mpsc::Receiver<T>);

/// Relies on SyncSender::clone: hands out another send side of the same
/// channel, which is what makes handles freely shareable.
pub assume_specification<T>[ <std::sync::mpsc::SyncSender<T> as Clone>::clone ](
    tx: &std::sync::mpsc::SyncSender<T>,
) -> std::sync::mpsc::SyncSender<T>;

/// Relies on std::sync::mpsc::sync_channel: a bounded channel whose sends
/// block while the buffer holds `bound` values.
#[verifier::external_body]
pub(crate) fn make_channel<T>(bound: usize) -> (std::sync::mpsc::SyncSender<T>, std::sync::mpsc::Receiver<T>) {
    std::sync::mpsc::sync_channel(bound)
}

/// Relies on SyncSender::send: delivers the value in submission order
/// unless every receiver is gone, and reports whether it was accepted.
#[verifier::external_body]
pub(crate) fn channel_send<T>(tx: &std::sync::mpsc::SyncSender<T>, value: T) -> (accepted: bool) {
    tx.send(value).is_ok()
}

/// Relies on Receiver::recv: blocks until a value arrives, or reports
/// nothing once every sender is gone.
#[verifier::external_body]
pub(crate) fn channel_recv<T>(rx: &std::sync::mpsc::Receiver<T>) -> (received: Option<T>) {
    rx.recv().ok()
}

} // verus!
