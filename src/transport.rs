//! The capture transport: an unbounded single-producer, single-consumer
//! handoff of sample frames from the audio callback to the render loop.
use vstd::prelude::*;

use std::sync::mpsc::{Receiver, Sender};

use crate::SampleFrame;

verus! {

#[verifier::external_type_specification]
#[verifier::external_body]
#[verifier::reject_recursive_types(T)]
pub struct ExSender<T>(std::sync::mpsc::Sender<T>);

#[verifier::external_type_specification]
#[verifier::external_body]
#[verifier::reject_recursive_types(T)]
pub struct ExReceiver<T>(std::sync::mpsc::Receiver<T>);

/// Relies on `std::sync::mpsc::channel`: an unbounded queue whose sender
/// never blocks.
#[verifier::external_body]
fn open_channel() -> (Sender<SampleFrame>, Receiver<SampleFrame>) {
    std::sync::mpsc::channel()
}

/// Relies on `Sender::send`: it never blocks, and fails only when the
/// receiving half is gone. Returns whether the frame was queued.
#[verifier::external_body]
fn send_frame(tx: &Sender<SampleFrame>, frame: SampleFrame) -> bool {
    tx.send(frame).is_ok()
}

/// Relies on `Receiver::try_iter`: the frames queued so far, oldest first,
/// taken without blocking. What is there depends on the other thread.
#[verifier::external_body]
fn take_pending(rx: &Receiver<SampleFrame>) -> Vec<SampleFrame> {
    rx.try_iter().collect()
}

/// The receiving side was torn down while frames were still being sent.
#[derive(Clone, Copy, Debug, PartialEq, Eq)]
pub enum TransportError {
    Disconnected,
}

/// The capture side of the transport, used from the audio callback.
pub struct CaptureSender {
    tx: Sender<SampleFrame>,
}

/// The analysis side of the transport, used from the render loop.
pub struct CaptureReceiver {
    rx: Receiver<SampleFrame>,
}

/// A connected pair of transport ends.
pub fn capture_channel() -> (CaptureSender, CaptureReceiver) {
    let (tx, rx) = open_channel();
    (CaptureSender { tx }, CaptureReceiver { rx })
}

impl CaptureSender {
    /// Queues one frame without blocking.
    pub fn send(&self, frame: SampleFrame) -> (r: Result<(), TransportError>)
        ensures
            r is Err ==> r == Err::<(), TransportError>(TransportError::Disconnected),
    {
        if send_frame(&self.tx, frame) {
            Ok(())
        } else {
            Err(TransportError::Disconnected)
        }
    }
}

impl CaptureReceiver {
    /// Every frame queued since the last drain, in the order sent; empty when
    /// none are pending. Never blocks.
    pub fn drain(&self) -> Vec<SampleFrame> {
        take_pending(&self.rx)
    }
}

} // verus!
