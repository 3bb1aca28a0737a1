//! The calls this library makes into `crossbeam_channel` and into
//! `std::time::Duration`, each with the contract that is trusted of it.
use crate::threadpool::Received;
use crossbeam_channel::{Receiver, RecvError, RecvTimeoutError, Sender};
use std::sync::atomic::{AtomicU8, Ordering};
use std::sync::Arc;
use std::time::Duration;
use vstd::prelude::*;

verus! {

/// The receiving end of a `crossbeam_channel` channel; opaque here.
#[verifier::external_type_specification]
#[verifier::external_body]
#[verifier::reject_recursive_types(T)]
pub struct ExReceiver<T>(crossbeam_channel::Receiver<T>);

/// The sending end of a `crossbeam_channel` channel; opaque here.
#[verifier::external_type_specification]
#[verifier::external_body]
#[verifier::reject_recursive_types(T)]
pub struct ExSender<T>(crossbeam_channel::Sender<T>);

/// The error of `Receiver::recv`: the channel is empty and disconnected.
#[verifier::external_type_specification]
#[verifier::external_body]
pub struct ExRecvError(crossbeam_channel::RecvError);

/// What `Duration::is_zero` returns for a duration.
pub uninterp spec fn zero_length(d: Duration) -> bool;

/// What `Duration::from_secs` returns for a number of seconds.
pub uninterp spec fn whole_seconds(secs: u64) -> Duration;

/// `res` is an outcome that `receive` gave for a wait on `r`.
pub closed spec fn received<T>(r: &Receiver<T>, res: Result<T, RecvError>) -> bool {
    call_ensures(receive::<T>, (r,), res)
}

/// `res` is an outcome that `receive_timeout` gave for a wait of at most
/// `timeout` on `r`.
pub closed spec fn received_within<T>(r: &Receiver<T>, timeout: Duration, res: Result<T, Received>) -> bool {
    call_ensures(receive_timeout::<T>, (r, timeout), res)
}

/// `res` is an outcome that `send` gave for sending `msg` on `s`.
pub closed spec fn sent<T>(s: &Sender<T>, msg: T, res: Result<(), T>) -> bool {
    call_ensures(send::<T>, (s, msg), res)
}

/// What a call of `receive` gave is one of its outcomes.
pub(crate) proof fn lemma_received<T>(r: &Receiver<T>, res: Result<T, RecvError>)
    requires
        call_ensures(receive::<T>, (r,), res),
    ensures
        received(r, res),
{
}

/// What a call of `receive_timeout` gave is one of its outcomes, and an
/// error among them is never `Job`.
pub(crate) proof fn lemma_received_within<T>(r: &Receiver<T>, timeout: Duration, res: Result<T, Received>)
    requires
        call_ensures(receive_timeout::<T>, (r, timeout), res),
    ensures
        received_within(r, timeout, res),
{
}

/// What a call of `send` gave is one of its outcomes.
pub(crate) proof fn lemma_sent<T>(s: &Sender<T>, msg: T, res: Result<(), T>)
    requires
        call_ensures(send::<T>, (s, msg), res),
    ensures
        sent(s, msg, res),
{
}

/// An outcome of `send` that is an error hands back the message sent.
pub proof fn lemma_sent_error_gives_message_back<T>(s: &Sender<T>, msg: T, res: Result<(), T>)
    requires
        sent(s, msg, res),
    ensures
        res matches Err(m) ==> m == msg,
{
}

/// An outcome of a timed wait that is an error is never `Job`.
pub proof fn lemma_timed_wait_error_is_no_job<T>(r: &Receiver<T>, timeout: Duration, res: Result<T, Received>)
    requires
        received_within(r, timeout, res),
    ensures
        res matches Err(e) ==> e != Received::Job,
{
}

/// Calls `crossbeam_channel::unbounded`. Nothing is claimed of the two ends:
/// they are opaque here.
#[verifier::external_body]
pub(crate) fn channel<T>() -> (Sender<T>, Receiver<T>) {
    crossbeam_channel::unbounded()
}

/// Calls `Receiver::recv`, which blocks until a message or a disconnection
/// arrives. What comes back depends on other threads, so nothing is claimed.
#[verifier::external_body]
pub(crate) fn receive<T>(r: &Receiver<T>) -> Result<T, RecvError> {
    r.recv()
}

/// Calls `Receiver::recv_timeout`, which blocks for at most `timeout`; its
/// two errors become `TimedOut` and `Disconnected`. What comes back depends
/// on other threads and on the clock; the one claim is that an error is never
/// `Job`.
#[verifier::external_body]
pub(crate) fn receive_timeout<T>(r: &Receiver<T>, timeout: Duration) -> (res: Result<T, Received>)
    ensures
        res matches Err(e) ==> e != Received::Job,
{
    match r.recv_timeout(timeout) {
        Ok(v) => Ok(v),
        Err(RecvTimeoutError::Timeout) => Err(Received::TimedOut),
        Err(RecvTimeoutError::Disconnected) => Err(Received::Disconnected),
    }
}

/// Calls `Sender::send`. Whether it succeeds depends on whether the receiving
/// end still exists; when it fails, crossbeam hands the message back unchanged,
/// and this wrapper returns that message as the error.
#[verifier::external_body]
pub(crate) fn send<T>(s: &Sender<T>, msg: T) -> (r: Result<(), T>)
    ensures
        r matches Err(m) ==> m == msg,
{
    match s.send(msg) {
        Ok(()) => Ok(()),
        Err(crossbeam_channel::SendError(m)) => Err(m),
    }
}

/// Calls `Duration::from_secs`. The result is named; the one fact claimed of
/// it is what the documentation gives: it spans no time exactly when `secs`
/// is zero.
#[verifier::external_body]
pub(crate) fn duration_from_secs(secs: u64) -> (d: Duration)
    ensures
        d == whole_seconds(secs),
        zero_length(d) == (secs == 0),
{
    Duration::from_secs(secs)
}

/// Calls `Duration::is_zero`, true when the duration spans no time.
#[verifier::external_body]
pub(crate) fn duration_is_zero(d: &Duration) -> (z: bool)
    ensures
        z == zero_length(*d),
{
    d.is_zero()
}

/// Calls `AtomicU8::compare_exchange` with sequentially consistent ordering
/// on both paths. As its documentation states, `new` is written exactly when
/// the value held equals `current`; the result holds the value seen before,
/// as `Ok` (equal to `current`) when `new` was written, as `Err` (different
/// from `current`) when it was not. What value is seen depends on other
/// threads, so nothing more is claimed.
#[verifier::external_body]
pub(crate) fn exchange_if(a: &AtomicU8, current: u8, new: u8) -> (r: Result<u8, u8>)
    ensures
        r matches Ok(v) ==> v == current,
        r matches Err(v) ==> v != current,
{
    a.compare_exchange(current, new, Ordering::SeqCst, Ordering::SeqCst)
}

/// Calls `Arc::clone`: a second handle to the same shared value.
#[verifier::external_body]
pub(crate) fn share<T>(a: &Arc<T>) -> (r: Arc<T>)
    ensures
        r == *a,
{
    Arc::clone(a)
}

} // verus!
