//! What the driver asks of the bus and of the ready line, and the bytes
//! that go over the bus.

use crate::reg::{Reg, COMMS_REQUEST_ADDR, MAX_WRITE_LEN};
use crate::wire::{be16_bytes, le16, u16_from_le, u16_to_be};
use crate::{Error, Iqs7211e};
use vstd::prelude::*;

verus! {

/// One thing that the driver asks of the ready line or of the bus.
#[derive(Debug)]
pub enum Request {
    /// Wait until the device signals that it is ready to communicate.
    AwaitReady,
    /// Read `len` bytes, starting at the register.
    Read { reg: Reg, len: usize },
    /// Write the bytes, starting at the register.
    Write { reg: Reg, data: Vec<u8> },
}

/// A request, with the bytes to write as a sequence.
pub enum RequestView {
    AwaitReady,
    Read { reg: Reg, len: nat },
    Write { reg: Reg, data: Seq<u8> },
}

impl View for Request {
    type V = RequestView;

    open spec fn view(&self) -> RequestView {
        match self {
            Request::AwaitReady => RequestView::AwaitReady,
            Request::Read { reg, len } => RequestView::Read { reg: *reg, len: *len as nat },
            Request::Write { reg, data } => RequestView::Write { reg: *reg, data: data@ },
        }
    }
}

/// How a request ended.
#[derive(Debug)]
pub enum Response<E> {
    /// The device is ready.
    Ready,
    /// The bytes that were read.
    Data(Vec<u8>),
    /// The write went through.
    Written,
    /// The transport failed.
    Failed(E),
}

/// A response, with the bytes read as a sequence.
pub enum ResponseView<E> {
    Ready,
    Data(Seq<u8>),
    Written,
    Failed(E),
}

impl<E> View for Response<E> {
    type V = ResponseView<E>;

    open spec fn view(&self) -> ResponseView<E> {
        match self {
            Response::Ready => ResponseView::Ready,
            Response::Data(bytes) => ResponseView::Data(bytes@),
            Response::Written => ResponseView::Written,
            Response::Failed(e) => ResponseView::Failed(*e),
        }
    }
}

/// Whether `response` is a way in which `request` can end: with a failure
/// of the transport, or with what was asked for.
pub open spec fn answers<E>(request: RequestView, response: ResponseView<E>) -> bool {
    match response {
        ResponseView::Failed(_) => true,
        ResponseView::Ready => request is AwaitReady,
        ResponseView::Data(bytes) => (request matches RequestView::Read { len, .. } && bytes.len()
            == len),
        ResponseView::Written => request is Write,
    }
}

/// The bytes of one bus write: the register address, then the payload.
pub open spec fn write_frame_bytes(reg: Reg, data: Seq<u8>) -> Seq<u8> {
    seq![reg.addr()] + data
}

/// The bytes that go over the bus to write `data` at `reg`. One write
/// carries at most 31 bytes of payload; a longer one is refused as a whole.
pub fn write_frame<E>(reg: Reg, data: &[u8]) -> (frame: Result<Vec<u8>, Error<E>>)
    ensures
        data@.len() <= MAX_WRITE_LEN ==> (frame matches Ok(bytes) && bytes@ == write_frame_bytes(
            reg,
            data@,
        )),
        data@.len() > MAX_WRITE_LEN ==> (frame matches Err(Error::BufferOverflow)),
{
    if data.len() > MAX_WRITE_LEN {
        return Err(Error::BufferOverflow);
    }
    let mut frame: Vec<u8> = Vec::new();
    frame.push(reg.addr());
    frame.extend_from_slice(data);
    Ok(frame)
}

/// A value with a place in the register map: a block of `N` bytes.
pub trait Record<const N: usize>: Sized {
    /// Every field fits the bits that the registers give it.
    spec fn in_range(&self) -> bool;

    /// The register bytes of the value.
    spec fn bytes(&self) -> Seq<u8>;

    /// The value that register bytes stand for, if they stand for one.
    spec fn of_bytes(bytes: Seq<u8>) -> Option<Self>;

    /// The register bytes of the value.
    fn pack(&self) -> (b: [u8; N])
        ensures
            b@ == self.bytes(),
    ;

    /// The value that the register bytes stand for, if they stand for one.
    fn unpack(b: [u8; N]) -> (v: Option<Self>)
        ensures
            v == Self::of_bytes(b@),
    ;

    /// A value within its bits is what its own bytes stand for.
    proof fn lemma_of_bytes(&self)
        requires
            self.in_range(),
        ensures
            self.bytes().len() == N,
            Self::of_bytes(self.bytes()) == Some(*self),
    ;
}

/// What a read of a record gives, from the bytes that the device answered:
/// the value they stand for, or an error where they stand for none.
pub open spec fn read_result<const N: usize, T: Record<N>, E>(raw: Seq<u8>) -> Result<
    T,
    Error<E>,
> {
    match T::of_bytes(raw) {
        Some(value) => Ok(value),
        None => Err(Error::BufferOverflow),
    }
}

impl Iqs7211e {
    /// The record that the bytes read from its registers stand for.
    pub fn read<const N: usize, T: Record<N>, E>(raw: [u8; N]) -> (value: Result<T, Error<E>>)
        ensures
            value == read_result::<N, T, E>(raw@),
    {
        match T::unpack(raw) {
            Some(value) => Ok(value),
            None => Err(Error::BufferOverflow),
        }
    }

    /// The bytes that go over the bus to write a record at `reg`: the
    /// register address, then the bytes of the record. A record of more
    /// than 31 bytes is refused.
    pub fn write<const N: usize, T: Record<N>, E>(reg: Reg, value: T) -> (frame: Result<
        Vec<u8>,
        Error<E>,
    >)
        ensures
            N <= MAX_WRITE_LEN ==> (frame matches Ok(bytes) && bytes@ == write_frame_bytes(
                reg,
                value.bytes(),
            )),
            N > MAX_WRITE_LEN ==> (frame matches Err(Error::BufferOverflow)),
    {
        let block = value.pack();
        write_frame(reg, block.as_slice())
    }
}

/// A record that was written is read back: for every record with its
/// fields within their bits, the frame of its write holds the register
/// address and then `N` bytes, and a read that is answered with those
/// bytes gives the record again.
pub proof fn lemma_read_back<const N: usize, T: Record<N>, E>(reg: Reg, value: T)
    requires
        value.in_range(),
    ensures
        write_frame_bytes(reg, value.bytes()).len() == N + 1,
        write_frame_bytes(reg, value.bytes())[0] == reg.addr(),
        read_result::<N, T, E>(write_frame_bytes(reg, value.bytes()).subrange(1, N + 1)) == Ok::<
            T,
            Error<E>,
        >(value),
{
    value.lemma_of_bytes();
    assert(write_frame_bytes(reg, value.bytes()).subrange(1, N + 1) =~= value.bytes());
}

/// The address byte that starts a read at `reg`.
pub fn read_frame(reg: Reg) -> (frame: [u8; 1])
    ensures
        frame@ == seq![reg.addr()],
{
    let frame = [reg.addr()];
    assert(frame@ =~= seq![reg.addr()]);
    frame
}

/// The address bytes that start a read on an extended page: the 16-bit
/// address, most significant byte first.
pub fn read_ext_frame(addr: u16) -> (frame: [u8; 2])
    ensures
        frame@ == be16_bytes(addr),
{
    u16_to_be(addr)
}

/// The bytes that ask the device for a communication window while its ready
/// line is idle.
pub fn force_comms_frame() -> (frame: [u8; 2])
    ensures
        frame@ == seq![COMMS_REQUEST_ADDR, 0u8],
{
    let frame = [COMMS_REQUEST_ADDR, 0];
    assert(frame@ =~= seq![COMMS_REQUEST_ADDR, 0u8]);
    frame
}

/// The number that the two bytes of a register stand for, least significant
/// byte first.
pub fn read_u16(bytes: [u8; 2]) -> (v: u16)
    ensures
        v == le16(bytes@[0], bytes@[1]),
{
    u16_from_le(bytes[0], bytes[1])
}

/// A copy of the bytes of `block`.
pub fn to_vec<const N: usize>(block: &[u8; N]) -> (v: Vec<u8>)
    ensures
        v@ == block@,
{
    let mut v: Vec<u8> = Vec::new();
    let mut i: usize = 0;
    while i < N
        invariant
            i <= N,
            v@ == block@.subrange(0, i as int),
        decreases N - i,
    {
        v.push(block[i]);
        assert(v@ =~= block@.subrange(0, i + 1));
        i += 1;
    }
    assert(v@ =~= block@);
    v
}

/// A copy of the bytes of `block` from `start` up to `end`.
pub fn slice_to_vec<const N: usize>(block: &[u8; N], start: usize, end: usize) -> (v: Vec<u8>)
    requires
        start <= end <= N,
    ensures
        v@ == block@.subrange(start as int, end as int),
{
    let mut v: Vec<u8> = Vec::new();
    let mut i: usize = start;
    while i < end
        invariant
            start <= i <= end <= N,
            v@ == block@.subrange(start as int, i as int),
        decreases end - i,
    {
        v.push(block[i]);
        assert(v@ =~= block@.subrange(start as int, i + 1));
        i += 1;
    }
    v
}

} // verus!
