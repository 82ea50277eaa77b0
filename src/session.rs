//! Decisions of the decode loop: which packets are decoded, and which
//! buffers feed the envelope and by which path.

use crate::downmix::IntEncoding;
use vstd::prelude::*;

verus! {

/// What reading the next packet gave.
#[derive(PartialEq, Eq, Structural, Clone, Copy, Debug)]
pub enum PacketEvent {
    /// The source has no more packets, or reading failed.
    Exhausted,
    /// A packet of the given track was read.
    Packet { track: u32 },
}

/// What the loop does with a packet.
#[derive(PartialEq, Eq, Structural, Clone, Copy, Debug)]
pub enum PacketAction {
    /// Stop decoding.
    Stop,
    /// Go on to the next packet.
    Skip,
    /// Decode the packet.
    Decode,
}

/// Only packets of the selected track are decoded; the end of the source
/// ends the loop.
pub fn packet_action(selected_track: u32, event: PacketEvent) -> (r: PacketAction)
    ensures
        event is Exhausted ==> r == PacketAction::Stop,
        event matches PacketEvent::Packet { track } ==> (track == selected_track ==> r
            == PacketAction::Decode) && (track != selected_track ==> r == PacketAction::Skip),
{
    match event {
        PacketEvent::Exhausted => PacketAction::Stop,
        PacketEvent::Packet { track } => if track == selected_track {
            PacketAction::Decode
        } else {
            PacketAction::Skip
        },
    }
}

/// The per-sample encoding of a decoded buffer.
#[derive(PartialEq, Eq, Structural, Clone, Copy, Debug)]
pub enum SampleFormat {
    Float32,
    Signed16,
    Signed32,
    Unsigned8,
    /// Any other encoding.
    Other,
}

/// How a decoded buffer reaches the envelope.
#[derive(PartialEq, Eq, Structural, Clone, Copy, Debug)]
pub enum BufferRoute {
    /// Samples are used as they are.
    Float,
    /// Samples go through the exact integer downmix.
    Integer(IntEncoding),
    /// The buffer contributes no frames.
    Skip,
}

/// Float samples are used directly, the three integer encodings are
/// normalized, and any other encoding is skipped without error.
pub fn route_buffer(format: SampleFormat) -> (r: BufferRoute)
    ensures
        format == SampleFormat::Float32 <==> r == BufferRoute::Float,
        format == SampleFormat::Signed16 <==> r == BufferRoute::Integer(IntEncoding::Signed16),
        format == SampleFormat::Signed32 <==> r == BufferRoute::Integer(IntEncoding::Signed32),
        format == SampleFormat::Unsigned8 <==> r == BufferRoute::Integer(IntEncoding::Unsigned8),
        format == SampleFormat::Other <==> r == BufferRoute::Skip,
{
    match format {
        SampleFormat::Float32 => BufferRoute::Float,
        SampleFormat::Signed16 => BufferRoute::Integer(IntEncoding::Signed16),
        SampleFormat::Signed32 => BufferRoute::Integer(IntEncoding::Signed32),
        SampleFormat::Unsigned8 => BufferRoute::Integer(IntEncoding::Unsigned8),
        SampleFormat::Other => BufferRoute::Skip,
    }
}

} // verus!
