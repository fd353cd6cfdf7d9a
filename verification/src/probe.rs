//! The probe's end of the stream, without the stream itself.
//!
//! A message on the stream is one length byte followed by that many payload
//! bytes. [`TCPProbe`] holds the bytes that wait to be written to the stream
//! and the bytes that were read from it. Whoever owns the stream writes the
//! first and supplies the second; every decision about the bytes is made here.

use vstd::prelude::*;
use crate::error::{DebugProbeError, ProbeCreationError};

verus! {

/// The largest payload that the length prefix can announce.
pub const MAX_PAYLOAD_LEN: usize = 255;

/// A payload as it stands on the stream: its length, then its bytes.
pub open spec fn framed(payload: Seq<u8>) -> Seq<u8>
    recommends
        payload.len() <= 255,
{
    seq![payload.len() as u8] + payload
}

/// What reading one message yields, where `stream` is all that can be read.
/// Without a length byte the read fails at once; with fewer bytes behind it
/// than it announces, the read of the payload fails.
pub open spec fn received(stream: Seq<u8>) -> Result<Seq<u8>, DebugProbeError> {
    if stream.len() == 0 {
        Err(DebugProbeError::CouldNotRecv)
    } else if stream.len() < 1 + stream[0] {
        Err(DebugProbeError::CouldNotRead)
    } else {
        Ok(stream.subrange(1, 1 + stream[0]))
    }
}

/// What is left of `stream` once one message was read from it. A read that
/// failed on a short payload has used up all there was.
pub open spec fn remaining(stream: Seq<u8>) -> Seq<u8> {
    if stream.len() == 0 {
        stream
    } else if stream.len() < 1 + stream[0] {
        Seq::empty()
    } else {
        stream.subrange(1 + stream[0], stream.len() as int)
    }
}

/// How many bytes `stream` lacks to hold one whole message.
pub open spec fn wanted(stream: Seq<u8>) -> nat {
    if stream.len() == 0 {
        1
    } else if stream.len() < 1 + stream[0] {
        (1 + stream[0] - stream.len()) as nat
    } else {
        0
    }
}

/// A payload that was framed is read back unchanged, and what stood behind it
/// on the stream is left for the next read.
pub proof fn lemma_framing_round_trip(payload: Seq<u8>, rest: Seq<u8>)
    requires
        payload.len() <= 255,
    ensures
        received(framed(payload) + rest) == Ok::<Seq<u8>, DebugProbeError>(payload),
        remaining(framed(payload) + rest) == rest,
        wanted(framed(payload) + rest) == 0,
        received(framed(payload)) == Ok::<Seq<u8>, DebugProbeError>(payload),
        remaining(framed(payload)) == Seq::<u8>::empty(),
{
    let stream = framed(payload) + rest;
    assert(stream[0] == payload.len());
    assert(stream.subrange(1, 1 + stream[0]) =~= payload);
    assert(stream.subrange(1 + stream[0], stream.len() as int) =~= rest);
    assert(framed(payload) + Seq::<u8>::empty() =~= framed(payload));
    lemma_framing_round_trip_alone(payload);
}

proof fn lemma_framing_round_trip_alone(payload: Seq<u8>)
    requires
        payload.len() <= 255,
    ensures
        received(framed(payload)) == Ok::<Seq<u8>, DebugProbeError>(payload),
        remaining(framed(payload)) == Seq::<u8>::empty(),
{
    let stream = framed(payload);
    assert(stream[0] == payload.len());
    assert(stream.subrange(1, 1 + stream[0]) =~= payload);
    assert(stream.subrange(1 + stream[0], stream.len() as int) =~= Seq::<u8>::empty());
}

/// The probe's end of the stream.
#[derive(Debug)]
pub struct TCPProbe {
    /// Bytes of framed messages that are not yet written to the stream.
    outgoing: Vec<u8>,
    /// Bytes read from the stream that no message has used yet.
    incoming: Vec<u8>,
}

impl TCPProbe {
    /// The bytes that wait to be written to the stream.
    pub closed spec fn outgoing(&self) -> Seq<u8> {
        self.outgoing@
    }

    /// The bytes that were read from the stream and not yet used.
    pub closed spec fn incoming(&self) -> Seq<u8> {
        self.incoming@
    }

    /// The probe behind a stream that was just opened, or the failure to open
    /// it. `established` says whether the stream was opened.
    pub fn connect(established: bool) -> (r: Result<Self, ProbeCreationError>)
        ensures
            established ==> r is Ok && r->Ok_0.outgoing() == Seq::<u8>::empty()
                && r->Ok_0.incoming() == Seq::<u8>::empty(),
            !established ==> r == Err::<Self, ProbeCreationError>(ProbeCreationError::CouldNotOpen),
    {
        if established {
            Ok(TCPProbe { outgoing: Vec::new(), incoming: Vec::new() })
        } else {
            Err(ProbeCreationError::CouldNotOpen)
        }
    }

    /// Queues one message for the stream: the length byte, then the payload.
    /// A payload of more than 255 bytes is refused, and nothing is queued.
    pub fn send_message(&mut self, msg: &[u8]) -> (r: Result<(), DebugProbeError>)
        ensures
            msg@.len() > 255 ==> r == Err::<(), DebugProbeError>(DebugProbeError::CommandTooBig)
                && *final(self) == *old(self),
            msg@.len() <= 255 ==> r == Ok::<(), DebugProbeError>(()) && final(self).outgoing()
                == old(self).outgoing() + framed(msg@),
            final(self).incoming() == old(self).incoming(),
    {
        if msg.len() > MAX_PAYLOAD_LEN {
            return Err(DebugProbeError::CommandTooBig);
        }
        let size: u8 = msg.len() as u8;
        self.outgoing.push(size);
        self.outgoing.extend_from_slice(msg);
        assert(self.outgoing@ =~= old(self).outgoing@ + framed(msg@));
        Ok(())
    }

    /// The bytes that are to be written to the stream now.
    pub fn pending_output(&self) -> (bytes: &[u8])
        ensures
            bytes@ == self.outgoing(),
    {
        self.outgoing.as_slice()
    }

    /// Takes note of what became of writing [`Self::pending_output`] to the
    /// stream. Written or not, the bytes are no longer queued; a failed write
    /// is reported as such.
    pub fn output_written(&mut self, written: bool) -> (r: Result<(), DebugProbeError>)
        ensures
            r == (if written {
                Ok::<(), DebugProbeError>(())
            } else {
                Err::<(), DebugProbeError>(DebugProbeError::CouldNotSend)
            }),
            final(self).outgoing() == Seq::<u8>::empty(),
            final(self).incoming() == old(self).incoming(),
    {
        self.outgoing.clear();
        if written {
            Ok(())
        } else {
            Err(DebugProbeError::CouldNotSend)
        }
    }

    /// How many bytes must still be read from the stream before one whole
    /// message is there: one where nothing is there, else what the length
    /// byte announces and is not there yet.
    pub fn bytes_wanted(&self) -> (n: usize)
        ensures
            n == wanted(self.incoming()),
    {
        let have: usize = self.incoming.len();
        if have == 0 {
            return 1;
        }
        let size: usize = self.incoming[0] as usize;
        if have - 1 < size {
            size - (have - 1)
        } else {
            0
        }
    }

    /// Adds bytes that were read from the stream.
    pub fn feed(&mut self, data: &[u8])
        ensures
            final(self).incoming() == old(self).incoming() + data@,
            final(self).outgoing() == old(self).outgoing(),
    {
        self.incoming.extend_from_slice(data);
        assert(self.incoming@ =~= old(self).incoming@ + data@);
    }

    /// Reads one message from the bytes that the stream supplied: the length
    /// byte, then as many payload bytes as it says. An empty payload is a
    /// message like any other.
    pub fn recv_message(&mut self) -> (r: Result<Vec<u8>, DebugProbeError>)
        ensures
            match received(old(self).incoming()) {
                Ok(payload) => r is Ok && r->Ok_0@ == payload,
                Err(e) => r == Err::<Vec<u8>, DebugProbeError>(e),
            },
            final(self).incoming() == remaining(old(self).incoming()),
            final(self).outgoing() == old(self).outgoing(),
    {
        let have: usize = self.incoming.len();
        if have == 0 {
            return Err(DebugProbeError::CouldNotRecv);
        }
        let size: usize = self.incoming[0] as usize;
        if have - 1 < size {
            self.incoming.clear();
            return Err(DebugProbeError::CouldNotRead);
        }
        let mut rest: Vec<u8> = self.incoming.split_off(1 + size);
        let msg: Vec<u8> = self.incoming.split_off(1);
        self.incoming.clear();
        self.incoming.append(&mut rest);
        assert(msg@ =~= old(self).incoming@.subrange(1, 1 + size));
        assert(self.incoming@ =~= remaining(old(self).incoming@));
        Ok(msg)
    }
}

} // verus!
