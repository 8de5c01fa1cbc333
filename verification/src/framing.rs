//! The frame layer: a message body on the wire is preceded by its length
//! as 4 big-endian bytes. [`frame_message`] builds an outbound frame;
//! [`FrameReader`] takes bytes as they arrive from a connection and hands
//! back complete frames, never touching a body before it is whole and
//! rejecting an oversized frame before its body is read.

use vstd::prelude::*;
use crate::codec::MESSAGE_MAX_SIZE;
use crate::codec::decode_body;
use crate::codec::encodable;
use crate::codec::encode_body;
use crate::codec::lp;
use crate::errors::NetError;
use crate::messages::ClipboardMessage;
use crate::wire::be_val;
use crate::wire::be_extend;
use crate::wire::be_read;
use crate::wire::lemma_be_val_bound;
use crate::wire::pow256;

verus! {

/// The length a byte stream claims for its next frame's body.
pub open spec fn declared_len(b: Seq<u8>) -> nat
    recommends
        b.len() >= 4,
{
    be_val(b.subrange(0, 4))
}

/// The stream's next frame declares a body over the maximum message size.
pub open spec fn frame_oversize(b: Seq<u8>) -> bool {
    b.len() >= 4 && declared_len(b) > MESSAGE_MAX_SIZE
}

/// The stream holds a whole frame of acceptable size.
pub open spec fn frame_complete(b: Seq<u8>) -> bool {
    b.len() >= 4 && declared_len(b) <= MESSAGE_MAX_SIZE && b.len() >= 4 + declared_len(b)
}

/// The body of the stream's first frame.
pub open spec fn frame_body(b: Seq<u8>) -> Seq<u8>
    recommends
        frame_complete(b),
{
    b.subrange(4, 4 + declared_len(b) as int)
}

/// What remains of the stream after its first frame.
pub open spec fn frame_rest(b: Seq<u8>) -> Seq<u8>
    recommends
        frame_complete(b),
{
    b.subrange(4 + declared_len(b) as int, b.len() as int)
}

proof fn lemma_pow256_4()
    ensures
        pow256(4) == 0x100000000,
{
    reveal_with_fuel(pow256, 5);
}

/// Encodes `m` and wraps it in a length-prefixed frame, ready to be
/// written to every peer. Fails with `EncodeFailed` exactly when the body
/// would exceed the maximum message size.
pub fn frame_message(m: &ClipboardMessage) -> (r: Result<Vec<u8>, NetError>)
    ensures
        r is Ok <==> encodable(m@),
        r is Ok ==> r.unwrap()@ == lp(encode_body(m@)),
        r is Err ==> r.unwrap_err() == NetError::EncodeFailed,
{
    let body = match m.to_bytes() {
        Ok(b) => b,
        Err(e) => {
            return Err(e);
        },
    };
    let mut out: Vec<u8> = Vec::new();
    be_extend(&mut out, body.len() as u64, 4);
    out.extend_from_slice(body.as_slice());
    assert(out@ =~= lp(encode_body(m@)));
    Ok(out)
}

/// What one polling step of a [`FrameReader`] yields.
pub enum FrameStep {
    /// The buffered bytes do not yet hold a whole frame.
    NeedMore,
    /// The next frame declares a body larger than the maximum message
    /// size; it is rejected without its body being read.
    TooLarge,
    /// A whole frame's body, removed from the buffer.
    Frame(Vec<u8>),
}

/// An incremental deframer for one connection's inbound byte stream.
pub struct FrameReader {
    buf: Vec<u8>,
}

impl View for FrameReader {
    type V = Seq<u8>;

    closed spec fn view(&self) -> Seq<u8> {
        self.buf@
    }
}

impl FrameReader {
    /// A reader with nothing buffered.
    pub fn new() -> (r: FrameReader)
        ensures
            r@ == Seq::<u8>::empty(),
    {
        FrameReader { buf: Vec::new() }
    }

    /// Buffers bytes read from the connection.
    pub fn feed(&mut self, chunk: &[u8])
        ensures
            final(self)@ == old(self)@ + chunk@,
    {
        self.buf.extend_from_slice(chunk);
    }

    /// Tries to take one whole frame's body off the buffer.
    ///
    /// While the buffer holds fewer bytes than the frame declares, the
    /// result is `NeedMore` and the buffer is untouched: no part of a
    /// partial frame is ever interpreted. A frame whose declared length
    /// exceeds the maximum message size yields `TooLarge` with its body
    /// unread; the caller must then drop the connection, since the stream
    /// position is lost.
    pub fn poll(&mut self) -> (r: FrameStep)
        ensures
            !frame_oversize(old(self)@) && !frame_complete(old(self)@) ==> (r is NeedMore
                && final(self)@ == old(self)@),
            frame_oversize(old(self)@) ==> (r is TooLarge && final(self)@ == old(self)@),
            frame_complete(old(self)@) ==> (r matches FrameStep::Frame(body) && body@
                == frame_body(old(self)@) && final(self)@ == frame_rest(old(self)@)),
    {
        let n = self.buf.len();
        if n < 4 {
            return FrameStep::NeedMore;
        }
        let l64 = be_read(self.buf.as_slice(), 0, 4);
        proof {
            lemma_be_val_bound(self.buf@.subrange(0, 4));
            lemma_pow256_4();
        }
        if l64 > MESSAGE_MAX_SIZE as u64 {
            return FrameStep::TooLarge;
        }
        let l = l64 as usize;
        if n - 4 < l {
            return FrameStep::NeedMore;
        }
        let pre = Ghost(self.buf@);
        let tail = self.buf.split_off(4 + l);
        let body = self.buf.split_off(4);
        self.buf = tail;
        assert(body@ =~= pre@.subrange(4, 4 + l as int));
        assert(self.buf@ =~= pre@.subrange(4 + l as int, pre@.len() as int));
        FrameStep::Frame(body)
    }

    /// What one step of a reader task yields.
    ///
    /// This is the decision core of the per-peer reader loop: the caller
    /// reads raw bytes, [`Self::feed`]s them, and calls this until it
    /// returns `NeedMore`; on `Err` the caller removes the peer and stops.
    pub fn next_message(&mut self) -> (r: Result<Option<ClipboardMessage>, NetError>)
        ensures
            r matches Ok(None) <==> !frame_oversize(old(self)@) && !frame_complete(old(self)@),
            r matches Ok(None) ==> final(self)@ == old(self)@,
            r matches Err(e) ==> (e == NetError::FrameTooLarge && frame_oversize(old(self)@)
                && final(self)@ == old(self)@) || (e == NetError::MalformedPayload
                && frame_complete(old(self)@) && decode_body(frame_body(old(self)@)) is None
                && final(self)@ == frame_rest(old(self)@)),
            r matches Ok(Some(m)) ==> frame_complete(old(self)@) && decode_body(
                frame_body(old(self)@),
            ) == Some(m@) && final(self)@ == frame_rest(old(self)@),
    {
        match self.poll() {
            FrameStep::NeedMore => Ok(None),
            FrameStep::TooLarge => Err(NetError::FrameTooLarge),
            FrameStep::Frame(body) => match ClipboardMessage::from_bytes(body.as_slice()) {
                Ok(m) => Ok(Some(m)),
                Err(_) => Err(NetError::MalformedPayload),
            },
        }
    }
}

} // verus!
