//! Commands, replies and their wire encoding.
//!
//! A payload is one opcode byte followed by the command's fields, multi-byte
//! fields most significant byte first. A reply payload starts with a status
//! byte; zero means success. Each command type names the reply type that
//! answers it, so the decoder of a reply is fixed by the command's type.

use vstd::prelude::*;
use crate::error::DebugProbeError;

verus! {

/// The big-endian bytes of a 32-bit value, most significant first.
pub open spec fn u32_be_bytes(v: u32) -> Seq<u8> {
    seq![(v >> 24) as u8, (v >> 16) as u8, (v >> 8) as u8, v as u8]
}

/// The big-endian bytes of a 64-bit value, most significant first.
pub open spec fn u64_be_bytes(v: u64) -> Seq<u8> {
    seq![
        (v >> 56) as u8,
        (v >> 48) as u8,
        (v >> 40) as u8,
        (v >> 32) as u8,
        (v >> 24) as u8,
        (v >> 16) as u8,
        (v >> 8) as u8,
        v as u8,
    ]
}

/// The 32-bit value whose big-endian bytes are the first four of `b`.
pub open spec fn u32_from_be_bytes(b: Seq<u8>) -> u32
    recommends
        b.len() == 4,
{
    ((b[0] as u32) << 24) | ((b[1] as u32) << 16) | ((b[2] as u32) << 8) | (b[3] as u32)
}

/// Reading back the big-endian bytes of a value gives the value.
pub proof fn lemma_u32_be_round_trip(v: u32)
    ensures
        u32_be_bytes(v).len() == 4,
        u32_from_be_bytes(u32_be_bytes(v)) == v,
{
    assert((((v >> 24) as u8 as u32) << 24) | (((v >> 16) as u8 as u32) << 16) | (((v >> 8) as u8
        as u32) << 8) | (v as u8 as u32) == v) by (bit_vector);
}

/// Appends the big-endian bytes of `v` to `buf`.
fn push_u32_be(buf: &mut Vec<u8>, v: u32)
    ensures
        final(buf)@ == old(buf)@ + u32_be_bytes(v),
{
    buf.push(#[verifier::truncate] ((v >> 24) as u8));
    buf.push(#[verifier::truncate] ((v >> 16) as u8));
    buf.push(#[verifier::truncate] ((v >> 8) as u8));
    buf.push(#[verifier::truncate] (v as u8));
    assert(buf@ =~= old(buf)@ + u32_be_bytes(v));
}

/// Appends the big-endian bytes of `v` to `buf`.
fn push_u64_be(buf: &mut Vec<u8>, v: u64)
    ensures
        final(buf)@ == old(buf)@ + u64_be_bytes(v),
{
    buf.push(#[verifier::truncate] ((v >> 56) as u8));
    buf.push(#[verifier::truncate] ((v >> 48) as u8));
    buf.push(#[verifier::truncate] ((v >> 40) as u8));
    buf.push(#[verifier::truncate] ((v >> 32) as u8));
    buf.push(#[verifier::truncate] ((v >> 24) as u8));
    buf.push(#[verifier::truncate] ((v >> 16) as u8));
    buf.push(#[verifier::truncate] ((v >> 8) as u8));
    buf.push(#[verifier::truncate] (v as u8));
    assert(buf@ =~= old(buf)@ + u64_be_bytes(v));
}

/// The kind of a command, which is the first byte of its payload.
#[derive(Clone, Copy, Debug, PartialEq, Eq, Structural)]
pub enum Opcode {
    ReadDP,
    WriteDP,
    ReadAP,
    WriteAP,
    SwjSequence,
}

impl Opcode {
    /// The byte that stands for the opcode on the wire.
    pub open spec fn spec_byte(self) -> u8 {
        match self {
            Opcode::ReadDP => 0x00,
            Opcode::WriteDP => 0x01,
            Opcode::ReadAP => 0x02,
            Opcode::WriteAP => 0x03,
            Opcode::SwjSequence => 0x04,
        }
    }

    pub fn byte(self) -> (b: u8)
        ensures
            b == self.spec_byte(),
    {
        match self {
            Opcode::ReadDP => 0x00,
            Opcode::WriteDP => 0x01,
            Opcode::ReadAP => 0x02,
            Opcode::WriteAP => 0x03,
            Opcode::SwjSequence => 0x04,
        }
    }
}

/// A reply that can be read from a reply payload.
pub trait CommandReply: Sized {
    /// What a reply payload stands for: the reply, or the failure it reports.
    spec fn decoded(data: Seq<u8>) -> Result<Self, DebugProbeError>;

    /// The payload by which the remote side reports this reply as a success:
    /// a zero status, then what the reply carries.
    spec fn success_payload(&self) -> Seq<u8>;

    /// Decodes a reply payload.
    fn deserialize(data: &[u8]) -> (r: Result<Self, DebugProbeError>)
        ensures
            r == Self::decoded(data@),
    ;

    /// The payload of a successful reply is one to five bytes long and
    /// decodes to the reply.
    proof fn lemma_success_payload_decodes(&self)
        ensures
            1 <= self.success_payload().len() <= 5,
            Self::decoded(self.success_payload()) == Ok::<Self, DebugProbeError>(*self),
    ;
}

/// A command that can be written as a payload, and the reply that answers it.
pub trait Command {
    type Reply: CommandReply;

    /// The kind of the command.
    spec fn opcode(&self) -> Opcode;

    /// The payload of the command: its opcode byte, then its fields.
    spec fn encoded(&self) -> Seq<u8>;

    /// Encodes the command as a payload. This succeeds for every command.
    fn serialize(&self) -> (r: Result<Vec<u8>, DebugProbeError>)
        ensures
            r is Ok,
            r->Ok_0@ == self.encoded(),
            self.encoded().len() >= 1,
            self.encoded()[0] == self.opcode().spec_byte(),
    ;
}

/// The reply to a read command: the value read.
#[derive(Clone, Copy, Debug, PartialEq, Eq)]
pub struct ReadStatus(pub u32);

impl CommandReply for ReadStatus {
    /// An empty payload lacks its status. A nonzero status is a failure,
    /// whatever follows it. After a zero status exactly four bytes must
    /// follow, which are the value.
    open spec fn decoded(data: Seq<u8>) -> Result<Self, DebugProbeError> {
        if data.len() == 0 {
            Err(DebugProbeError::MissingStatus)
        } else if data[0] != 0 {
            Err(DebugProbeError::ReadCommandError(data[0]))
        } else if data.len() != 5 {
            Err(DebugProbeError::InvalidPacketLength)
        } else {
            Ok(ReadStatus(u32_from_be_bytes(data.subrange(1, 5))))
        }
    }

    open spec fn success_payload(&self) -> Seq<u8> {
        seq![0u8] + u32_be_bytes(self.0)
    }

    proof fn lemma_success_payload_decodes(&self) {
        let data = self.success_payload();
        lemma_u32_be_round_trip(self.0);
        assert(data.len() == 5);
        assert(data[0] == 0);
        assert(data.subrange(1, 5) =~= u32_be_bytes(self.0));
    }

    fn deserialize(data: &[u8]) -> (r: Result<Self, DebugProbeError>) {
        if data.len() == 0 {
            return Err(DebugProbeError::MissingStatus);
        }
        let status: u8 = data[0];
        if status != 0 {
            return Err(DebugProbeError::ReadCommandError(status));
        }
        if data.len() != 5 {
            return Err(DebugProbeError::InvalidPacketLength);
        }
        let value: u32 = ((data[1] as u32) << 24) | ((data[2] as u32) << 16) | ((data[3] as u32)
            << 8) | (data[4] as u32);
        Ok(ReadStatus(value))
    }
}

/// The reply to a write or sequence command: nothing but success.
#[derive(Clone, Copy, Debug, PartialEq, Eq)]
pub struct WriteStatus(pub ());

impl CommandReply for WriteStatus {
    /// An empty payload lacks its status. A nonzero status is a failure.
    /// What follows the status byte is not looked at.
    open spec fn decoded(data: Seq<u8>) -> Result<Self, DebugProbeError> {
        if data.len() == 0 {
            Err(DebugProbeError::MissingStatus)
        } else if data[0] != 0 {
            Err(DebugProbeError::WriteCommandError(data[0]))
        } else {
            Ok(WriteStatus(()))
        }
    }

    open spec fn success_payload(&self) -> Seq<u8> {
        seq![0u8]
    }

    proof fn lemma_success_payload_decodes(&self) {
    }

    fn deserialize(data: &[u8]) -> (r: Result<Self, DebugProbeError>) {
        if data.len() == 0 {
            return Err(DebugProbeError::MissingStatus);
        }
        let status: u8 = data[0];
        if status != 0 {
            return Err(DebugProbeError::WriteCommandError(status));
        }
        Ok(WriteStatus(()))
    }
}

/// Read the debug-port register at the given address.
#[derive(Clone, Copy, Debug, PartialEq, Eq)]
pub struct ReadRawDp(pub u8);

impl Command for ReadRawDp {
    type Reply = ReadStatus;

    open spec fn opcode(&self) -> Opcode {
        Opcode::ReadDP
    }

    open spec fn encoded(&self) -> Seq<u8> {
        seq![0x00u8, self.0]
    }

    fn serialize(&self) -> (r: Result<Vec<u8>, DebugProbeError>) {
        let mut msg: Vec<u8> = Vec::new();
        msg.push(Opcode::ReadDP.byte());
        msg.push(self.0);
        assert(msg@ =~= self.encoded());
        Ok(msg)
    }
}

/// Write a value to the debug-port register at the given address.
#[derive(Clone, Copy, Debug, PartialEq, Eq)]
pub struct WriteRawDp(pub u8, pub u32);

impl Command for WriteRawDp {
    type Reply = WriteStatus;

    open spec fn opcode(&self) -> Opcode {
        Opcode::WriteDP
    }

    open spec fn encoded(&self) -> Seq<u8> {
        seq![0x01u8, self.0] + u32_be_bytes(self.1)
    }

    fn serialize(&self) -> (r: Result<Vec<u8>, DebugProbeError>) {
        let mut msg: Vec<u8> = Vec::new();
        msg.push(Opcode::WriteDP.byte());
        msg.push(self.0);
        assert(msg@ =~= seq![0x01u8, self.0]);
        push_u32_be(&mut msg, self.1);
        Ok(msg)
    }
}

/// Read the access-port register at the given address.
#[derive(Clone, Copy, Debug, PartialEq, Eq)]
pub struct ReadRawAp(pub u8);

impl Command for ReadRawAp {
    type Reply = ReadStatus;

    open spec fn opcode(&self) -> Opcode {
        Opcode::ReadAP
    }

    open spec fn encoded(&self) -> Seq<u8> {
        seq![0x02u8, self.0]
    }

    fn serialize(&self) -> (r: Result<Vec<u8>, DebugProbeError>) {
        let mut msg: Vec<u8> = Vec::new();
        msg.push(Opcode::ReadAP.byte());
        msg.push(self.0);
        assert(msg@ =~= self.encoded());
        Ok(msg)
    }
}

/// Write a value to the access-port register at the given address.
#[derive(Clone, Copy, Debug, PartialEq, Eq)]
pub struct WriteRawAp(pub u8, pub u32);

impl Command for WriteRawAp {
    type Reply = WriteStatus;

    open spec fn opcode(&self) -> Opcode {
        Opcode::WriteAP
    }

    open spec fn encoded(&self) -> Seq<u8> {
        seq![0x03u8, self.0] + u32_be_bytes(self.1)
    }

    fn serialize(&self) -> (r: Result<Vec<u8>, DebugProbeError>) {
        let mut msg: Vec<u8> = Vec::new();
        msg.push(Opcode::WriteAP.byte());
        msg.push(self.0);
        assert(msg@ =~= seq![0x03u8, self.0]);
        push_u32_be(&mut msg, self.1);
        Ok(msg)
    }
}

/// Emit the low `.0` bits of the pattern `.1` on the debug wire.
#[derive(Clone, Copy, Debug, PartialEq, Eq)]
pub struct SWJSequence(pub u8, pub u64);

impl Command for SWJSequence {
    type Reply = WriteStatus;

    open spec fn opcode(&self) -> Opcode {
        Opcode::SwjSequence
    }

    open spec fn encoded(&self) -> Seq<u8> {
        seq![0x04u8, self.0] + u64_be_bytes(self.1)
    }

    fn serialize(&self) -> (r: Result<Vec<u8>, DebugProbeError>) {
        let mut msg: Vec<u8> = Vec::new();
        msg.push(Opcode::SwjSequence.byte());
        msg.push(self.0);
        assert(msg@ =~= seq![0x04u8, self.0]);
        push_u64_be(&mut msg, self.1);
        Ok(msg)
    }
}

/// For every command, the successful reply of the shape that the command's
/// type names decodes to what it carries: a read command gets back the value
/// in the reply, a write or sequence command gets back success.
pub proof fn lemma_command_reply_round_trip<Cmd: Command>(cmd: Cmd, reply: Cmd::Reply)
    ensures
        <Cmd::Reply as CommandReply>::decoded(reply.success_payload()) == Ok::<
            Cmd::Reply,
            DebugProbeError,
        >(reply),
{
    reply.lemma_success_payload_decodes();
}

/// A reply to a read command with a zero status and the four big-endian bytes
/// of `value` decodes to `value`.
pub proof fn lemma_read_reply_round_trip(value: u32)
    ensures
        ReadStatus::decoded(seq![0u8] + u32_be_bytes(value)) == Ok::<ReadStatus, DebugProbeError>(
            ReadStatus(value),
        ),
{
    ReadStatus(value).lemma_success_payload_decodes();
}

/// A reply to a write or sequence command that starts with a zero status
/// decodes to success, whatever follows the status.
pub proof fn lemma_write_reply_round_trip(data: Seq<u8>)
    requires
        data.len() >= 1,
        data[0] == 0,
    ensures
        WriteStatus::decoded(data) == Ok::<WriteStatus, DebugProbeError>(WriteStatus(())),
{
}

/// A reply with a nonzero status fails to decode in both shapes, with the
/// status as the only thing read from it: what follows the status byte has no
/// part in the result.
pub proof fn lemma_nonzero_status_fails(data: Seq<u8>)
    requires
        data.len() >= 1,
        data[0] != 0,
    ensures
        ReadStatus::decoded(data) == Err::<ReadStatus, DebugProbeError>(
            DebugProbeError::ReadCommandError(data[0]),
        ),
        WriteStatus::decoded(data) == Err::<WriteStatus, DebugProbeError>(
            DebugProbeError::WriteCommandError(data[0]),
        ),
{
}

/// A reply to a read command with a zero status and a value that is not four
/// bytes long fails to decode, as a packet of invalid length.
pub proof fn lemma_wrong_value_length_fails(data: Seq<u8>)
    requires
        data.len() >= 1,
        data[0] == 0,
        data.len() - 1 != 4,
    ensures
        ReadStatus::decoded(data) == Err::<ReadStatus, DebugProbeError>(
            DebugProbeError::InvalidPacketLength,
        ),
{
}

/// An empty reply fails to decode in both shapes, for want of a status.
pub proof fn lemma_empty_reply_fails()
    ensures
        ReadStatus::decoded(Seq::<u8>::empty()) == Err::<ReadStatus, DebugProbeError>(
            DebugProbeError::MissingStatus,
        ),
        WriteStatus::decoded(Seq::<u8>::empty()) == Err::<WriteStatus, DebugProbeError>(
            DebugProbeError::MissingStatus,
        ),
{
}

} // verus!
