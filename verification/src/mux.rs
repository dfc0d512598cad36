//! The stdin forwarder's decision logic.
//!
//! During the run phase one concurrent task decodes frames arriving from the
//! client and feeds `Stdin` payloads to the child. The task's loop is plain
//! plumbing; every decision it takes — forward, ignore, stop — is made here.

use vstd::prelude::*;
use crate::codec::Frame;
use crate::codec::FrameType;
use crate::codec::FrameView;

verus! {

/// What one attempt to read a frame from the connection produced.
pub enum FrameRead {
    /// A whole frame arrived.
    Received { frame: Frame },
    /// The peer closed the connection before any header byte.
    EndOfStream,
    /// The read failed: a framing error or a dead connection.
    TransportFailed,
}

/// The ghost mirror of a `FrameRead`.
pub ghost enum FrameReadView {
    Received { frame: FrameView },
    EndOfStream,
    TransportFailed,
}

impl View for FrameRead {
    type V = FrameReadView;

    open spec fn view(&self) -> FrameReadView {
        match self {
            FrameRead::Received { frame } => FrameReadView::Received { frame: frame@ },
            FrameRead::EndOfStream => FrameReadView::EndOfStream,
            FrameRead::TransportFailed => FrameReadView::TransportFailed,
        }
    }
}

/// What the forwarder does next.
pub enum ForwardDecision {
    /// Write `data` to the child's stdin and flush.
    WriteStdin { data: Vec<u8> },
    /// A frame of another type arrived during the run phase: discarded,
    /// not an error.
    Ignore,
    /// Stop the forwarder: the orchestrator signalled process exit, the
    /// peer closed, or the transport failed.
    Stop,
}

/// The ghost mirror of a `ForwardDecision`.
pub ghost enum ForwardDecisionView {
    WriteStdin { data: Seq<u8> },
    Ignore,
    Stop,
}

impl View for ForwardDecision {
    type V = ForwardDecisionView;

    open spec fn view(&self) -> ForwardDecisionView {
        match self {
            ForwardDecision::WriteStdin { data } => ForwardDecisionView::WriteStdin {
                data: data@,
            },
            ForwardDecision::Ignore => ForwardDecisionView::Ignore,
            ForwardDecision::Stop => ForwardDecisionView::Stop,
        }
    }
}

/// The forwarder's whole policy: stop once the orchestrator has signalled —
/// checked before every read, so the forwarder never waits on a connection
/// for a child that is gone — stop on end-of-stream or transport failure,
/// forward exactly the payload of a `Stdin` frame, and silently discard any
/// other frame type.
pub open spec fn spec_forward_decision(stop_requested: bool, read: FrameReadView)
    -> ForwardDecisionView {
    if stop_requested {
        ForwardDecisionView::Stop
    } else {
        match read {
            FrameReadView::Received { frame } => {
                if frame.frame_type == FrameType::Stdin {
                    ForwardDecisionView::WriteStdin { data: frame.payload }
                } else {
                    ForwardDecisionView::Ignore
                }
            }
            FrameReadView::EndOfStream => ForwardDecisionView::Stop,
            FrameReadView::TransportFailed => ForwardDecisionView::Stop,
        }
    }
}

/// Decide the forwarder's next move after one read attempt.
///
/// `stop_requested` is the orchestrator's process-exit signal, sampled just
/// before the read.
pub fn forward_decision(stop_requested: bool, read: FrameRead) -> (d: ForwardDecision)
    ensures
        d@ == spec_forward_decision(stop_requested, read@),
{
    if stop_requested {
        return ForwardDecision::Stop;
    }
    match read {
        FrameRead::Received { frame } => {
            if matches!(frame.frame_type, FrameType::Stdin) {
                ForwardDecision::WriteStdin { data: frame.payload }
            } else {
                ForwardDecision::Ignore
            }
        }
        FrameRead::EndOfStream => ForwardDecision::Stop,
        FrameRead::TransportFailed => ForwardDecision::Stop,
    }
}

} // verus!
