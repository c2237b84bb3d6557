//! One worker's outbound side: the bytes that wait for the network, and the
//! rule that says when they are due.
//!
//! A [`Client`] owns no socket. Whoever owns the connection asks
//! [`Client::progress`] what to do, writes [`Client::pending`] when told to,
//! and reports how many bytes the network took.

use vstd::prelude::*;
use crate::color::Color;
use crate::position::Position;
use crate::protocol::{command, encode};

verus! {

/// `bytes::BytesMut`, taken as it is: a growable run of bytes whose front
/// can be cut off.
#[verifier::external_type_specification]
#[verifier::external_body]
pub struct ExBytesMut(bytes::BytesMut);

/// The bytes that a `bytes::BytesMut` holds, in order.
pub uninterp spec fn buffered(buffer: bytes::BytesMut) -> Seq<u8>;

/// `bytes::BytesMut::new`: a buffer that holds no bytes.
#[verifier::external_body]
fn buffer_new() -> (buffer: bytes::BytesMut)
    ensures
        buffered(buffer) == Seq::<u8>::empty(),
{
    bytes::BytesMut::new()
}

/// `bytes::BytesMut::len`: the number of bytes held.
#[verifier::external_body]
fn buffer_len(buffer: &bytes::BytesMut) -> (len: usize)
    ensures
        len == buffered(*buffer).len(),
{
    buffer.len()
}

/// `bytes::BufMut::put_slice` of a `BytesMut`: appends `extend` to the bytes
/// held. The buffer must have room for all of it, and it has room for
/// `isize::MAX` bytes less those held.
#[verifier::external_body]
fn buffer_put(buffer: &mut bytes::BytesMut, extend: &[u8])
    requires
        buffered(*old(buffer)).len() + extend@.len() <= isize::MAX,
    ensures
        buffered(*final(buffer)) == buffered(*old(buffer)) + extend@,
{
    bytes::BufMut::put_slice(buffer, extend)
}

/// `bytes::Buf::advance` of a `BytesMut`: drops the first `count` bytes
/// held, of which there must be that many.
#[verifier::external_body]
fn buffer_advance(buffer: &mut bytes::BytesMut, count: usize)
    requires
        count <= buffered(*old(buffer)).len(),
    ensures
        buffered(*final(buffer)) == buffered(*old(buffer)).skip(count as int),
{
    bytes::Buf::advance(buffer, count)
}

/// `AsRef<[u8]>` of a `BytesMut`: the bytes held, as a slice.
#[verifier::external_body]
fn buffer_slice(buffer: &bytes::BytesMut) -> (slice: &[u8])
    ensures
        slice@ == buffered(*buffer),
{
    buffer.as_ref()
}

/// Why a client gave up.
#[derive(Debug, Clone, Copy, PartialEq, Eq, Structural)]
pub enum ClientError {
    /// A write took no byte, so the peer has closed; or it reported more
    /// bytes than were pending.
    Connection,
    /// The send buffer cannot hold the command.
    Encoding,
}

/// What the owner of the connection reports to [`Client::progress`].
#[derive(Debug, Clone, Copy, PartialEq, Eq, Structural)]
pub enum WriteEvent {
    /// Nothing was written yet: a flush begins.
    Begin,
    /// The last write took this many of the pending bytes.
    Written(usize),
}

/// What the owner of the connection does next.
#[derive(Debug, Clone, Copy, PartialEq, Eq, Structural)]
pub enum Step {
    /// Write the pending bytes once and report the count.
    Write,
    /// Nothing is due: go on producing.
    Idle,
}

/// Bytes are due once there are any, and at least `min_bytes_for_sending`.
pub open spec fn due(pending: Seq<u8>, min_bytes_for_sending: u32) -> bool {
    pending.len() > 0 && pending.len() >= min_bytes_for_sending
}

/// The step that follows when `pending` is what waits.
pub open spec fn step_for(pending: Seq<u8>, min_bytes_for_sending: u32) -> Step {
    if due(pending, min_bytes_for_sending) {
        Step::Write
    } else {
        Step::Idle
    }
}

/// What is still pending after `event`: an accepted write removes the bytes
/// it took from the front, anything else removes nothing.
pub open spec fn remaining(pending: Seq<u8>, event: WriteEvent) -> Seq<u8> {
    match event {
        WriteEvent::Written(count) if 0 < count <= pending.len() => pending.skip(count as int),
        _ => pending,
    }
}

/// The answer to `event`. A write that took no byte means that the peer has
/// closed, and one that claims more bytes than were pending cannot have
/// happened: both end the flush with an error. Otherwise the next step
/// depends on what is still pending.
pub open spec fn outcome(pending: Seq<u8>, min_bytes_for_sending: u32, event: WriteEvent) -> Result<
    Step,
    ClientError,
> {
    match event {
        WriteEvent::Written(count) if count == 0 || count > pending.len() => Err(
            ClientError::Connection,
        ),
        _ => Ok(step_for(remaining(pending, event), min_bytes_for_sending)),
    }
}

/// What a whole flush leaves pending when the network answers its writes
/// with the counts `writes`, in order; the error if one of them ends it.
/// The flush stops as soon as nothing is due, or when `writes` runs out.
pub open spec fn flushed(pending: Seq<u8>, min_bytes_for_sending: u32, writes: Seq<usize>) -> Result<
    Seq<u8>,
    ClientError,
>
    decreases writes.len(),
{
    if !due(pending, min_bytes_for_sending) || writes.len() == 0 {
        Ok(pending)
    } else {
        match outcome(pending, min_bytes_for_sending, WriteEvent::Written(writes[0])) {
            Err(error) => Err(error),
            Ok(_) => flushed(
                remaining(pending, WriteEvent::Written(writes[0])),
                min_bytes_for_sending,
                writes.drop_first(),
            ),
        }
    }
}

/// Whether `bytes` can join `pending`: the buffer holds up to `isize::MAX`
/// bytes, and refuses as a whole what would pass that.
pub open spec fn queued(pending: Seq<u8>, bytes: Seq<u8>) -> Result<(), ClientError> {
    if pending.len() + bytes.len() <= isize::MAX {
        Ok(())
    } else {
        Err(ClientError::Encoding)
    }
}

/// The bytes encoded for one connection and not yet taken by the network.
pub struct Client {
    send_buffer: bytes::BytesMut,
}

impl View for Client {
    type V = Seq<u8>;

    /// The pending bytes, oldest first.
    closed spec fn view(&self) -> Seq<u8> {
        buffered(self.send_buffer)
    }
}

impl Client {
    /// A client with nothing pending.
    pub fn new() -> (client: Client)
        ensures
            client@ == Seq::<u8>::empty(),
    {
        Client { send_buffer: buffer_new() }
    }

    /// Number of pending bytes.
    pub fn pending_len(&self) -> (len: usize)
        ensures
            len == self@.len(),
    {
        buffer_len(&self.send_buffer)
    }

    /// The pending bytes: what the next write offers to the network.
    pub fn pending(&self) -> (bytes: &[u8])
        ensures
            bytes@ == self@,
    {
        buffer_slice(&self.send_buffer)
    }

    /// Appends `bytes` to what is pending. Nothing is sent.
    ///
    /// Fails, and leaves the buffer as it was, exactly when the buffer has
    /// no room for all of `bytes`.
    pub fn enqueue(&mut self, bytes: &[u8]) -> (result: Result<(), ClientError>)
        ensures
            result == queued(old(self)@, bytes@),
            final(self)@ == (if result is Ok {
                old(self)@ + bytes@
            } else {
                old(self)@
            }),
    {
        let held = buffer_len(&self.send_buffer);
        let limit = isize::MAX as usize;
        if held > limit || bytes.len() > limit - held {
            return Err(ClientError::Encoding);
        }
        buffer_put(&mut self.send_buffer, bytes);
        Ok(())
    }

    /// Appends the command that draws `color` at `position`; a colour that
    /// is not drawn appends nothing.
    pub fn enqueue_pixel(&mut self, position: Position, color: Color) -> (result: Result<
        (),
        ClientError,
    >)
        ensures
            result == queued(old(self)@, command(position, color)),
            final(self)@ == (if result is Ok {
                old(self)@ + command(position, color)
            } else {
                old(self)@
            }),
    {
        let line = encode(position, color);
        self.enqueue(line.as_slice())
    }

    /// Decides the next step of a flush.
    ///
    /// A flush begins with [`WriteEvent::Begin`]. While the answer is
    /// [`Step::Write`], the owner of the connection writes [`Client::pending`]
    /// once and reports the count with [`WriteEvent::Written`]. The bytes
    /// that a write took leave the buffer; the flush is over when fewer than
    /// `min_bytes_for_sending` bytes are left, or none.
    pub fn progress(&mut self, min_bytes_for_sending: u32, event: WriteEvent) -> (result: Result<
        Step,
        ClientError,
    >)
        ensures
            final(self)@ == remaining(old(self)@, event),
            result == outcome(old(self)@, min_bytes_for_sending, event),
    {
        if let WriteEvent::Written(count) = event {
            if count == 0 || count > buffer_len(&self.send_buffer) {
                return Err(ClientError::Connection);
            }
            buffer_advance(&mut self.send_buffer, count);
        }
        let len = buffer_len(&self.send_buffer);
        if len > 0 && len >= min_bytes_for_sending as usize {
            Ok(Step::Write)
        } else {
            Ok(Step::Idle)
        }
    }
}

/// Below the threshold nothing is written: a flush that begins there is
/// over at once and leaves the buffer alone. So is one on an empty buffer.
pub proof fn lemma_no_write_below_threshold(pending: Seq<u8>, min_bytes_for_sending: u32)
    requires
        pending.len() < min_bytes_for_sending || pending.len() == 0,
    ensures
        outcome(pending, min_bytes_for_sending, WriteEvent::Begin) == Ok::<Step, ClientError>(
            Step::Idle,
        ),
        remaining(pending, WriteEvent::Begin) == pending,
        forall|writes: Seq<usize>|
            flushed(pending, min_bytes_for_sending, writes) == Ok::<Seq<u8>, ClientError>(pending),
{
    assert forall|writes: Seq<usize>|
        flushed(pending, min_bytes_for_sending, writes) == Ok::<Seq<u8>, ClientError>(
            pending,
        ) by {}
}

/// A write that takes no byte ends the flush with a connection error and
/// loses nothing of what is pending.
pub proof fn lemma_zero_byte_write_fails(pending: Seq<u8>, min_bytes_for_sending: u32)
    ensures
        outcome(pending, min_bytes_for_sending, WriteEvent::Written(0)) == Err::<Step, ClientError>(
            ClientError::Connection,
        ),
        remaining(pending, WriteEvent::Written(0)) == pending,
{
}

/// A partial write is a success: the bytes it took are gone, the rest
/// follows in order, and the flush goes on exactly while the rest is due.
pub proof fn lemma_partial_write_continues(
    pending: Seq<u8>,
    min_bytes_for_sending: u32,
    count: usize,
)
    requires
        0 < count <= pending.len(),
    ensures
        remaining(pending, WriteEvent::Written(count)) == pending.skip(count as int),
        remaining(pending, WriteEvent::Written(count)).len() == pending.len() - count,
        outcome(pending, min_bytes_for_sending, WriteEvent::Written(count)) == Ok::<
            Step,
            ClientError,
        >(step_for(pending.skip(count as int), min_bytes_for_sending)),
{
}

/// A flush loses no byte and reorders none: what it leaves is the end of
/// what was pending. If the network answered at least as many writes as
/// there were bytes, the flush has come to its end: what is left is below
/// the threshold, or nothing.
pub proof fn lemma_flush_drains(pending: Seq<u8>, min_bytes_for_sending: u32, writes: Seq<usize>)
    ensures
        flushed(pending, min_bytes_for_sending, writes) matches Ok(rest) ==> {
            &&& rest.len() <= pending.len()
            &&& rest == pending.skip(pending.len() - rest.len())
            &&& writes.len() >= pending.len() ==> !due(rest, min_bytes_for_sending)
            &&& min_bytes_for_sending <= 1 && writes.len() >= pending.len() ==> rest.len() == 0
        },
    decreases writes.len(),
{
    if !due(pending, min_bytes_for_sending) || writes.len() == 0 {
        assert(pending.skip(0) =~= pending);
    } else {
        let event = WriteEvent::Written(writes[0]);
        if outcome(pending, min_bytes_for_sending, event) is Ok {
            let next = remaining(pending, event);
            lemma_flush_drains(next, min_bytes_for_sending, writes.drop_first());
            assert(flushed(pending, min_bytes_for_sending, writes) == flushed(
                next,
                min_bytes_for_sending,
                writes.drop_first(),
            ));
            if flushed(pending, min_bytes_for_sending, writes) is Ok {
                let rest = flushed(pending, min_bytes_for_sending, writes)->Ok_0;
                assert(rest == next.skip(next.len() - rest.len()));
                assert(rest =~= pending.skip(pending.len() - rest.len()));
            }
        }
    }
}

/// Once the threshold is met and the network takes all that is offered,
/// one write empties the buffer and the flush is over.
pub proof fn lemma_whole_write_empties(pending: Seq<u8>, min_bytes_for_sending: u32)
    requires
        due(pending, min_bytes_for_sending),
        pending.len() <= usize::MAX,
    ensures
        outcome(pending, min_bytes_for_sending, WriteEvent::Begin) == Ok::<Step, ClientError>(
            Step::Write,
        ),
        remaining(pending, WriteEvent::Written(pending.len() as usize)).len() == 0,
        outcome(pending, min_bytes_for_sending, WriteEvent::Written(pending.len() as usize))
            == Ok::<Step, ClientError>(Step::Idle),
{
}

} // verus!
