//! Where processed frames go: the sink that drops them, and the packets in
//! which a frame, an empty result or a failure is sent to a peer.

use vstd::prelude::*;

verus! {

/// The sink that drops every frame.
#[derive(Copy, Clone, Default, Debug, PartialEq, Eq)]
pub struct NoOutput;

/// What the pipeline gave for one frame, as far as an output sends it.
pub enum FrameOutcome {
    /// A frame, encoded as JPEG.
    Encoded(Vec<u8>),
    /// A frame that could not be encoded.
    EncodingFailed,
    /// No frame.
    Empty,
    /// A failure, with its message as UTF-8 bytes.
    Failed(Vec<u8>),
}

/// Header of a packet that carries an encoded frame.
pub open spec fn frame_header() -> Seq<u8> {
    seq![0u8, 0u8, 0u8, 0u8]
}

/// The packet sent when there is no frame: the ASCII text `null`.
pub open spec fn empty_packet() -> Seq<u8> {
    seq![110u8, 117u8, 108u8, 108u8]
}

/// Header of a packet that carries a failure message: the ASCII text `SOS`.
pub open spec fn failure_header() -> Seq<u8> {
    seq![83u8, 79u8, 83u8]
}

/// The packet sent for `o`, if any.
pub open spec fn packet_of(o: FrameOutcome) -> Option<Seq<u8>> {
    match o {
        FrameOutcome::Encoded(jpeg) => Some(frame_header() + jpeg@),
        FrameOutcome::EncodingFailed => None,
        FrameOutcome::Empty => Some(empty_packet()),
        FrameOutcome::Failed(msg) => Some(failure_header() + msg@),
    }
}

fn append_bytes(out: &mut Vec<u8>, src: &[u8])
    ensures
        final(out)@ == old(out)@ + src@,
{
    let mut i: usize = 0;
    while i < src.len()
        invariant
            i <= src@.len(),
            out@ == old(out)@ + src@.subrange(0, i as int),
        decreases src@.len() - i,
    {
        out.push(src[i]);
        i = i + 1;
    }
    assert(src@.subrange(0, src@.len() as int) =~= src@);
}

/// The packet that sends `o` to a peer; nothing is sent for a frame that could not be encoded.
pub fn packet(o: &FrameOutcome) -> (r: Option<Vec<u8>>)
    ensures
        r is Some <==> packet_of(*o) is Some,
        r matches Some(p) ==> packet_of(*o) == Some(p@),
{
    match o {
        FrameOutcome::Encoded(jpeg) => {
            let mut p: Vec<u8> = vec![0u8, 0u8, 0u8, 0u8];
            append_bytes(&mut p, jpeg.as_slice());
            assert(p@ =~= frame_header() + jpeg@);
            Some(p)
        },
        FrameOutcome::EncodingFailed => None,
        FrameOutcome::Empty => {
            let p: Vec<u8> = vec![110u8, 117u8, 108u8, 108u8];
            assert(p@ =~= empty_packet());
            Some(p)
        },
        FrameOutcome::Failed(msg) => {
            let mut p: Vec<u8> = vec![83u8, 79u8, 83u8];
            append_bytes(&mut p, msg.as_slice());
            assert(p@ =~= failure_header() + msg@);
            Some(p)
        },
    }
}

} // verus!
