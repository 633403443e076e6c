//! The decisions of one capture session: what to do with each thing that the
//! capture device or the outbound channel reports.

use vstd::prelude::*;

use crate::classify::{classify_frame, frame_classified, DecodeError};
use crate::packet::{packet_protocol, Packet, Protocol};

verus! {

/// What a capture session's loop observed since its last step.
#[derive(Debug, PartialEq, Eq)]
pub enum SessionEvent {
    /// The device yielded the bytes of one frame.
    Frame(Vec<u8>),
    /// A read failed without ending the capture (for instance, its wait ran out).
    ReadFailed,
    /// The device will yield no more frames.
    EndOfCapture,
    /// The outbound channel refused a packet.
    SendFailed,
}

/// Why a frame was dropped.
#[derive(Clone, Copy, Debug, PartialEq, Eq)]
pub enum DropReason {
    /// The frame could not be classified.
    Malformed(DecodeError),
    /// The frame is of another protocol than the session's.
    OtherProtocol(Protocol),
}

/// What a capture session's loop is to do next.
#[derive(Clone, Copy, Debug, PartialEq, Eq)]
pub enum SessionAction {
    /// Send the packet on the outbound channel, then read on.
    Send(Packet),
    /// Report the dropped frame, then read on.
    Drop(DropReason),
    /// Report the failed read, then read on.
    ReportReadFailure,
    /// Report the refused packet, then read on.
    ReportSendFailure,
    /// End the loop.
    Stop,
}

/// One capture session: the protocol that its filter admits, and whether its loop
/// still runs.
#[derive(Clone, Copy, Debug, PartialEq, Eq)]
pub struct CaptureSession {
    pub protocol: Protocol,
    pub running: bool,
}

/// What a session of `protocol` does with the frame `frame`.
pub open spec fn frame_action(protocol: Protocol, frame: Seq<u8>) -> SessionAction {
    match frame_classified(frame) {
        Ok(p) => if packet_protocol(p) == protocol {
            SessionAction::Send(p)
        } else {
            SessionAction::Drop(DropReason::OtherProtocol(packet_protocol(p)))
        },
        Err(e) => SessionAction::Drop(DropReason::Malformed(e)),
    }
}

/// What a session of `protocol` does on `event`.
pub open spec fn next_action(protocol: Protocol, event: SessionEvent) -> SessionAction {
    match event {
        SessionEvent::Frame(f) => frame_action(protocol, f@),
        SessionEvent::ReadFailed => SessionAction::ReportReadFailure,
        SessionEvent::EndOfCapture => SessionAction::Stop,
        SessionEvent::SendFailed => SessionAction::ReportSendFailure,
    }
}

impl CaptureSession {
    /// A running session for `protocol`.
    pub fn new(protocol: Protocol) -> (r: CaptureSession)
        ensures
            r.protocol == protocol,
            r.running,
    {
        CaptureSession { protocol, running: true }
    }

    /// Decides what the loop does on `event`. Only the end of the capture stops
    /// the session; a frame that cannot be classified, a failed read and a refused
    /// packet leave it running.
    pub fn step(&mut self, event: &SessionEvent) -> (a: SessionAction)
        requires
            old(self).running,
        ensures
            a == next_action(old(self).protocol, *event),
            final(self).protocol == old(self).protocol,
            final(self).running == !(a is Stop),
            final(self).running <==> !(*event is EndOfCapture),
    {
        match event {
            SessionEvent::Frame(f) => match classify_frame(f.as_slice()) {
                Ok(p) => {
                    let q = p.protocol();
                    if q.same_as(&self.protocol) {
                        SessionAction::Send(p)
                    } else {
                        SessionAction::Drop(DropReason::OtherProtocol(q))
                    }
                },
                Err(e) => SessionAction::Drop(DropReason::Malformed(e)),
            },
            SessionEvent::ReadFailed => SessionAction::ReportReadFailure,
            SessionEvent::EndOfCapture => {
                self.running = false;
                SessionAction::Stop
            },
            SessionEvent::SendFailed => SessionAction::ReportSendFailure,
        }
    }
}

/// A frame that fails to decode does not end a session: the session drops it and
/// keeps running, so the next read is made, and a following frame that decodes to
/// a packet of the session's protocol is sent.
pub proof fn lemma_decode_failure_keeps_session(
    protocol: Protocol,
    failed: Vec<u8>,
    next: Vec<u8>,
    p: Packet,
)
    requires
        frame_classified(failed@) is Err,
        frame_classified(next@) == Ok::<Packet, DecodeError>(p),
        packet_protocol(p) == protocol,
    ensures
        next_action(protocol, SessionEvent::Frame(failed)) == SessionAction::Drop(
            DropReason::Malformed(frame_classified(failed@)->Err_0),
        ),
        !(next_action(protocol, SessionEvent::Frame(failed)) is Stop),
        next_action(protocol, SessionEvent::Frame(next)) == SessionAction::Send(p),
{
}

} // verus!
