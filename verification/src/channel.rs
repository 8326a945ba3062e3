//! Trusted bindings to the job source's channel primitives.
//!
//! The job source is a many-producer queue-like channel: a submission
//! endpoint held by the pool and a retrieval endpoint shared by the
//! workers under a lock, so that only one worker at a time takes the next
//! job. The bindings below are the only places where the library touches
//! std's channel and lock; everything said about them in contracts is
//! taken from std's documentation of `std::sync`.

use std::sync::mpsc::Receiver;
use std::sync::mpsc::Sender;
use std::sync::Arc;
use std::sync::Mutex;
use vstd::prelude::*;

verus! {

#[verifier::external_type_specification]
#[verifier::external_body]
#[verifier::reject_recursive_types(T)]
pub struct ExSender<T>(Sender<T>);

#[verifier::external_type_specification]
#[verifier::external_body]
#[verifier::reject_recursive_types(T)]
pub struct ExReceiver<T>(Receiver<T>);

#[verifier::external_type_specification]
#[verifier::external_body]
#[verifier::reject_recursive_types(T)]
pub struct ExMutex<T: ?Sized>(Mutex<T>);

/// Relies on `std::sync::mpsc::channel`: creates a connected pair of a
/// submission endpoint and a retrieval endpoint, initially empty.
#[verifier::external_body]
pub(crate) fn channel_pair<T>() -> (Sender<T>, Receiver<T>) {
    std::sync::mpsc::channel()
}

/// Relies on `std::sync::Mutex::new`: wraps the retrieval endpoint in a
/// lock, so that access to it is mutually exclusive.
#[verifier::external_body]
pub(crate) fn guarded<T>(value: T) -> Mutex<T> {
    Mutex::new(value)
}

/// Relies on `std::sync::mpsc::Sender::send`: the value is either placed
/// at the back of the channel's queue (`Ok`), or, once every receiver is
/// gone, handed back unchanged inside the error; it is never silently
/// dropped, and the call never blocks.
#[verifier::external_body]
pub(crate) fn send_value<T>(sender: &Sender<T>, value: T) -> (r: Result<(), T>)
    ensures
        r matches Err(v) ==> v == value,
{
    match sender.send(value) {
        Ok(()) => Ok(()),
        Err(e) => Err(e.0),
    }
}

/// Relies on `std::sync::Mutex::lock` and `std::sync::mpsc::Receiver::recv`:
/// takes the lock on the retrieval endpoint, blocks until a value is
/// available and dequeues it (`Some`), then releases the lock before
/// returning. Each sent value is delivered to exactly one such call, in
/// submission order; the result is `None` exactly when every sender is
/// gone and the channel is drained. The lock can only be poisoned by a
/// panic inside `recv` itself, which std does not do; a poisoned lock is
/// nevertheless answered like a closed channel rather than by a panic.
#[verifier::external_body]
pub(crate) fn recv_next<T>(endpoint: &Mutex<Receiver<T>>) -> Option<T> {
    match endpoint.lock() {
        Ok(receiver) => match receiver.recv() {
            Ok(v) => Some(v),
            Err(_) => None,
        },
        Err(_) => None,
    }
}

/// Relies on `std::sync::Arc::clone`: a new handle to the same shared
/// value.
#[verifier::external_body]
pub(crate) fn share<T>(handle: &Arc<T>) -> (r: Arc<T>)
    ensures
        r == *handle,
{
    Arc::clone(handle)
}

} // verus!
