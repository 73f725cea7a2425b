//! The channel endpoints that carry signals between cores, and the two
//! operations the bus performs on them.
//!
//! The endpoints belong to the `futures` crate. Their behaviour is not
//! verified here: what each operation is taken to do is written on it.

use vstd::prelude::*;
use futures::future::Either;
use futures::{Future, Sink, Stream};

verus! {

#[verifier::external_type_specification]
#[verifier::external_body]
#[verifier::reject_recursive_types(T)]
pub struct ExSender<T>(futures::sync::mpsc::Sender<T>);

#[verifier::external_type_specification]
#[verifier::external_body]
#[verifier::reject_recursive_types(T)]
pub struct ExReceiver<T>(futures::sync::mpsc::Receiver<T>);

#[verifier::external_type_specification]
#[verifier::external_body]
#[verifier::reject_recursive_types(T)]
pub struct ExSendError<T>(futures::sync::mpsc::SendError<T>);

/// Sends `item` through `sender` with `Sink::send` and waits for the send to
/// complete with `Future::wait`.
///
/// The call gives the sender back once the channel has taken the item, and an
/// error once the receiving end is gone. While the channel is full and its
/// receiver alive the call waits. Which of these happens depends on the other
/// end of the channel, so nothing is claimed of the result.
#[verifier::external_body]
pub(crate) fn send_blocking<T>(
    sender: futures::sync::mpsc::Sender<T>,
    item: T,
) -> (outcome: Result<futures::sync::mpsc::Sender<T>, futures::sync::mpsc::SendError<T>>) {
    sender.send(item).wait()
}

/// Asks `receiver` for its next item with `Stream::into_future`, races that
/// against a future that is ready at once with `Future::select2`, and runs
/// the race with `Future::wait`.
///
/// The race polls the receiver first and once: an item that is pending wins
/// and comes back as `Some`; where the channel is empty the ready future
/// wins, and where it is closed and drained the receiver yields its end; both
/// come back as `None`. The call never waits for an item. What is pending
/// depends on the other end of the channel, so nothing is claimed of the
/// result.
#[verifier::external_body]
pub(crate) fn poll_ready<T>(receiver: &mut futures::sync::mpsc::Receiver<T>) -> (item: Option<T>) {
    match receiver.into_future().select2(Ok::<(), ()>(())).wait() {
        Ok(Either::A(((item, _), _))) => item,
        Ok(Either::B(_)) => None,
        Err(_) => None,
    }
}

} // verus!
