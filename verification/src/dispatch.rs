//! One command and its reply as a single exchange.
//!
//! The probe cannot touch the stream, so an exchange proceeds in steps. Each
//! step takes what the stream did last and says what is to happen next: write
//! the queued bytes, read so many bytes, or stop with the result. The order
//! is fixed: encode, send, receive, decode; the first failure ends the
//! exchange. One command is outstanding at a time.

use vstd::prelude::*;
use crate::commands::{Command, CommandReply};
use crate::error::DebugProbeError;
use crate::probe::{framed, lemma_framing_round_trip, received, remaining, wanted, TCPProbe};

verus! {

/// What the stream did with the last thing asked of it.
#[derive(Debug, PartialEq, Eq)]
pub enum Event {
    /// Nothing was asked yet: the exchange begins.
    Start,
    /// The queued bytes were written (`true`), or writing them failed.
    Written(bool),
    /// The bytes asked for were read, or reading them failed (`None`).
    Received(Option<Vec<u8>>),
}

/// What is to happen next in an exchange.
#[derive(Debug, PartialEq, Eq)]
pub enum Progress<T> {
    /// Write the probe's pending output to the stream, then report
    /// [`Event::Written`].
    Write,
    /// Read this many bytes from the stream, then report [`Event::Received`].
    Read(usize),
    /// The exchange is over, with this result.
    Done(T),
}

/// A step's outcome with the result of a finished exchange passed through `f`.
pub open spec fn map_progress<A, B>(p: Progress<A>, f: spec_fn(A) -> B) -> Progress<B> {
    match p {
        Progress::Write => Progress::Write,
        Progress::Read(n) => Progress::Read(n),
        Progress::Done(a) => Progress::Done(f(a)),
    }
}

/// What reading one reply yields: the failure of the read, or else what the
/// payload decodes to.
pub open spec fn reply_in<R: CommandReply>(stream: Seq<u8>) -> Result<R, DebugProbeError> {
    match received(stream) {
        Ok(payload) => R::decoded(payload),
        Err(e) => Err(e),
    }
}

/// The bytes at hand for the reply once `event` has happened: what was there,
/// and what was just read.
pub open spec fn supplied(incoming: Seq<u8>, event: Event) -> Seq<u8> {
    match event {
        Event::Received(Some(bytes)) => incoming + bytes@,
        _ => incoming,
    }
}

/// What is to happen while the reply is awaited with `stream` at hand: read
/// what the message lacks, or decode the message that is there.
pub open spec fn awaiting<R: CommandReply>(stream: Seq<u8>) -> Progress<
    Result<R, DebugProbeError>,
> {
    if wanted(stream) > 0 {
        Progress::Read(wanted(stream) as usize)
    } else {
        Progress::Done(reply_in::<R>(stream))
    }
}

/// What is to happen next in the exchange of a command with the given
/// payload, after `event`, where `incoming` was read before it.
///
/// At the start a payload of more than 255 bytes ends the exchange; any other
/// is to be written. A failed write ends it. After a write, and after each
/// read, the reply is awaited. A failed read ends it with the failure of
/// reading the message from what is there.
pub open spec fn progress<R: CommandReply>(payload: Seq<u8>, incoming: Seq<u8>, event: Event)
    -> Progress<Result<R, DebugProbeError>> {
    match event {
        Event::Start => if payload.len() > 255 {
            Progress::Done(Err(DebugProbeError::CommandTooBig))
        } else {
            Progress::Write
        },
        Event::Written(false) => Progress::Done(Err(DebugProbeError::CouldNotSend)),
        Event::Written(true) => awaiting::<R>(incoming),
        Event::Received(Some(bytes)) => awaiting::<R>(incoming + bytes@),
        Event::Received(None) => Progress::Done(reply_in::<R>(incoming)),
    }
}

/// The bytes queued for the stream after a step of the exchange.
pub open spec fn queued_after(outgoing: Seq<u8>, payload: Seq<u8>, event: Event) -> Seq<u8> {
    match event {
        Event::Start => if payload.len() > 255 {
            outgoing
        } else {
            outgoing + framed(payload)
        },
        Event::Written(_) => Seq::empty(),
        Event::Received(_) => outgoing,
    }
}

/// The bytes read and not yet used after a step of the exchange.
pub open spec fn held_after(incoming: Seq<u8>, event: Event) -> Seq<u8> {
    match event {
        Event::Start => incoming,
        Event::Written(false) => incoming,
        Event::Written(true) => if wanted(incoming) > 0 {
            incoming
        } else {
            remaining(incoming)
        },
        Event::Received(Some(bytes)) => if wanted(incoming + bytes@) > 0 {
            incoming + bytes@
        } else {
            remaining(incoming + bytes@)
        },
        Event::Received(None) => remaining(incoming),
    }
}

impl TCPProbe {
    /// Reads one message and decodes it as a reply.
    fn recv_reply<R: CommandReply>(&mut self) -> (r: Result<R, DebugProbeError>)
        ensures
            r == reply_in::<R>(old(self).incoming()),
            final(self).incoming() == remaining(old(self).incoming()),
            final(self).outgoing() == old(self).outgoing(),
    {
        match self.recv_message() {
            Ok(payload) => R::deserialize(payload.as_slice()),
            Err(e) => Err(e),
        }
    }

    /// Asks for what the reply lacks, or decodes the reply that is there.
    fn await_reply<R: CommandReply>(&mut self) -> (p: Progress<Result<R, DebugProbeError>>)
        ensures
            p == awaiting::<R>(old(self).incoming()),
            final(self).incoming() == (if wanted(old(self).incoming()) > 0 {
                old(self).incoming()
            } else {
                remaining(old(self).incoming())
            }),
            final(self).outgoing() == old(self).outgoing(),
    {
        let lacking: usize = self.bytes_wanted();
        if lacking > 0 {
            Progress::Read(lacking)
        } else {
            Progress::Done(self.recv_reply::<R>())
        }
    }

    /// One step of the exchange of `cmd`: takes note of `event` and says what
    /// is to happen next. The reply is decoded as the type that the command
    /// names.
    pub fn do_command<Cmd: Command>(&mut self, cmd: &Cmd, event: Event) -> (p: Progress<
        Result<Cmd::Reply, DebugProbeError>,
    >)
        ensures
            p == progress::<Cmd::Reply>(cmd.encoded(), old(self).incoming(), event),
            final(self).outgoing() == queued_after(old(self).outgoing(), cmd.encoded(), event),
            final(self).incoming() == held_after(old(self).incoming(), event),
            event is Start && cmd.encoded().len() > 255 ==> *final(self) == *old(self),
    {
        match event {
            Event::Start => {
                let sent = match cmd.serialize() {
                    Ok(payload) => self.send_message(payload.as_slice()),
                    Err(e) => Err(e),
                };
                match sent {
                    Ok(()) => Progress::Write,
                    Err(e) => Progress::Done(Err(e)),
                }
            },
            Event::Written(written) => match self.output_written(written) {
                Ok(()) => self.await_reply::<Cmd::Reply>(),
                Err(e) => Progress::Done(Err(e)),
            },
            Event::Received(Some(bytes)) => {
                self.feed(bytes.as_slice());
                self.await_reply::<Cmd::Reply>()
            },
            Event::Received(None) => Progress::Done(self.recv_reply::<Cmd::Reply>()),
        }
    }
}

/// A reply that the remote side framed and wrote is decoded from its
/// payload alone: the framing adds and loses nothing.
pub proof fn lemma_framed_reply_decodes<R: CommandReply>(payload: Seq<u8>, rest: Seq<u8>)
    requires
        payload.len() <= 255,
    ensures
        reply_in::<R>(framed(payload) + rest) == R::decoded(payload),
        reply_in::<R>(framed(payload)) == R::decoded(payload),
{
    lemma_framing_round_trip(payload, rest);
}

/// A whole round trip on the stream: where the remote side answers with the
/// framed payload of a successful reply, reading the reply of the command's
/// type yields that reply and leaves nothing behind.
pub proof fn lemma_round_trip_on_the_stream<Cmd: Command>(cmd: Cmd, reply: Cmd::Reply)
    ensures
        reply_in::<Cmd::Reply>(framed(reply.success_payload())) == Ok::<
            Cmd::Reply,
            DebugProbeError,
        >(reply),
        remaining(framed(reply.success_payload())) == Seq::<u8>::empty(),
{
    reply.lemma_success_payload_decodes();
    lemma_framing_round_trip(reply.success_payload(), Seq::empty());
    lemma_framed_reply_decodes::<Cmd::Reply>(reply.success_payload(), Seq::empty());
}

/// The steps of an exchange that meets no failure, on a probe that holds no
/// bytes: the command is written, its length byte is read, then its payload,
/// and the exchange ends with the reply that the remote side sent. `header`
/// and `body` are what the two reads bring: the length byte and the payload
/// of the successful reply.
pub proof fn lemma_exchange_yields_reply<Cmd: Command>(
    cmd: Cmd,
    reply: Cmd::Reply,
    header: Vec<u8>,
    body: Vec<u8>,
)
    requires
        cmd.encoded().len() <= 255,
        header@ + body@ == framed(reply.success_payload()),
        header@.len() == 1,
    ensures
        progress::<Cmd::Reply>(cmd.encoded(), Seq::empty(), Event::Start) == Progress::<
            Result<Cmd::Reply, DebugProbeError>,
        >::Write,
        progress::<Cmd::Reply>(cmd.encoded(), Seq::empty(), Event::Written(true))
            == Progress::<Result<Cmd::Reply, DebugProbeError>>::Read(1),
        progress::<Cmd::Reply>(cmd.encoded(), Seq::empty(), Event::Received(Some(header)))
            == Progress::<Result<Cmd::Reply, DebugProbeError>>::Read(body@.len() as usize),
        held_after(Seq::empty(), Event::Received(Some(header))) == header@,
        progress::<Cmd::Reply>(cmd.encoded(), header@, Event::Received(Some(body)))
            == Progress::Done(Ok::<Cmd::Reply, DebugProbeError>(reply)),
        held_after(header@, Event::Received(Some(body))) == Seq::<u8>::empty(),
{
    let payload = reply.success_payload();
    reply.lemma_success_payload_decodes();
    lemma_framing_round_trip(payload, Seq::empty());
    lemma_framed_reply_decodes::<Cmd::Reply>(payload, Seq::empty());
    let stream = framed(payload);
    assert(Seq::<u8>::empty() + header@ =~= header@);
    assert(header@[0] == stream[0]);
    assert(stream[0] == payload.len());
    assert(body@.len() == payload.len());
    assert(body@.len() >= 1);
    assert(wanted(header@) == body@.len());
}

} // verus!
