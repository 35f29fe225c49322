//! Serial chainload session.
//!
//! A synchronous, half-duplex state machine over a byte transport, with
//! no retries and no timeouts. The session announces itself with a magic
//! line and three ETX bytes, receives a 4-byte little-endian payload
//! length, acknowledges it, streams the payload into the fixed load
//! region, and then hands control to the freshly loaded program. The
//! bytes themselves arrive through whatever reads the transport; every
//! decision in between is made here. The load region is modeled as the
//! growing byte sequence `loaded`: byte `i` of it stands for the byte
//! written at the load address plus `i`.

use vstd::prelude::*;

verus! {

use crate::boot::KERNEL_LOAD_ADDR;

/// The protocol phase the session is in; driven strictly by bytes
/// arriving on the transport.
#[derive(Clone, Copy, Debug, PartialEq, Eq, Structural)]
pub enum ChainloadState {
    /// Nothing sent yet: the size request is owed.
    AwaitSizeRequest,
    /// The size request went out; four length bytes are owed.
    AwaitSize,
    /// The length arrived; `remaining` payload bytes are still owed.
    ReceivingPayload { remaining: u32 },
    /// The whole payload arrived: control may transfer.
    Launch,
}

/// Bytes of the size request: the eight-byte ASCII magic line naming the
/// protocol and version, then three ETX bytes asking for the length.
pub open spec fn size_request_bytes() -> Seq<u8> {
    seq![0x52u8, 0x42u8, 0x49u8, 0x4eu8, 0x36u8, 0x34u8, 0x0du8, 0x0au8, 0x03u8, 0x03u8, 0x03u8]
}

/// The two-byte ASCII acknowledgment sent once the length has arrived.
pub open spec fn ack_bytes() -> Seq<u8> {
    seq![0x4fu8, 0x4bu8]
}

/// The 32-bit payload length assembled little-endian from the four
/// transport bytes.
pub open spec fn le32(b0: u8, b1: u8, b2: u8, b3: u8) -> u32 {
    (b0 as u32) | ((b1 as u32) << 8) | ((b2 as u32) << 16) | ((b3 as u32) << 24)
}

/// Payload bytes still owed in the given state; zero outside the
/// receiving phase.
pub open spec fn remaining_of(s: ChainloadState) -> u32 {
    match s {
        ChainloadState::ReceivingPayload { remaining } => remaining,
        _ => 0,
    }
}

/// One chainload session: the protocol phase, the announced payload
/// length, and the bytes written to the load region so far.
pub struct ChainloadSession {
    pub state: ChainloadState,
    pub expected: u32,
    pub loaded: Vec<u8>,
}

impl ChainloadSession {
    /// Phase and load region agree: nothing is loaded before the length
    /// arrives, during reception exactly the still-owed bytes are
    /// missing, and at launch the whole announced payload is in place.
    pub open spec fn wf(self) -> bool {
        match self.state {
            ChainloadState::AwaitSizeRequest => self.loaded@.len() == 0 && self.expected == 0,
            ChainloadState::AwaitSize => self.loaded@.len() == 0 && self.expected == 0,
            ChainloadState::ReceivingPayload { remaining } => 1 <= remaining && remaining
                <= self.expected && self.loaded@.len() + remaining == self.expected,
            ChainloadState::Launch => self.loaded@.len() == self.expected,
        }
    }

    /// A fresh session that has sent nothing yet.
    pub fn new() -> (s: ChainloadSession)
        ensures
            s.wf(),
            s.state is AwaitSizeRequest,
            s.loaded@.len() == 0,
            s.expected == 0,
    {
        ChainloadSession { state: ChainloadState::AwaitSizeRequest, expected: 0, loaded: Vec::new() }
    }

    /// Opens the session: yields the magic line and the three ETX bytes
    /// to send, and starts waiting for the four length bytes.
    pub fn start(&mut self) -> (out: Vec<u8>)
        requires
            old(self).wf(),
            old(self).state is AwaitSizeRequest,
        ensures
            final(self).wf(),
            final(self).state is AwaitSize,
            final(self).loaded@ == old(self).loaded@,
            final(self).expected == old(self).expected,
            out@ == size_request_bytes(),
    {
        self.state = ChainloadState::AwaitSize;
        let mut out: Vec<u8> = Vec::new();
        out.push(0x52);
        out.push(0x42);
        out.push(0x49);
        out.push(0x4e);
        out.push(0x36);
        out.push(0x34);
        out.push(0x0d);
        out.push(0x0a);
        out.push(0x03);
        out.push(0x03);
        out.push(0x03);
        proof {
            assert(out@ =~= size_request_bytes());
        }
        out
    }

    /// Accepts the four length bytes, interpreted little-endian, and
    /// yields the acknowledgment to send. A zero length means the whole
    /// payload has already arrived; otherwise that many bytes are owed.
    pub fn receive_size(&mut self, b0: u8, b1: u8, b2: u8, b3: u8) -> (ack: Vec<u8>)
        requires
            old(self).wf(),
            old(self).state is AwaitSize,
        ensures
            final(self).wf(),
            final(self).expected == le32(b0, b1, b2, b3),
            final(self).loaded@ == old(self).loaded@,
            le32(b0, b1, b2, b3) == 0 ==> final(self).state is Launch,
            le32(b0, b1, b2, b3) != 0 ==> final(self).state == (ChainloadState::ReceivingPayload {
                remaining: le32(b0, b1, b2, b3),
            }),
            ack@ == ack_bytes(),
    {
        let size: u32 = (b0 as u32) | ((b1 as u32) << 8) | ((b2 as u32) << 16) | ((b3 as u32)
            << 24);
        self.expected = size;
        if size == 0 {
            self.state = ChainloadState::Launch;
        } else {
            self.state = ChainloadState::ReceivingPayload { remaining: size };
        }
        let mut ack: Vec<u8> = Vec::new();
        ack.push(0x4f);
        ack.push(0x4b);
        proof {
            assert(ack@ =~= ack_bytes());
        }
        ack
    }

    /// Accepts one payload byte: it goes to the next cell of the load
    /// region. When it was the last owed byte the session is ready to
    /// launch.
    pub fn receive_byte(&mut self, b: u8)
        requires
            old(self).wf(),
            old(self).state is ReceivingPayload,
        ensures
            final(self).wf(),
            final(self).loaded@ == old(self).loaded@.push(b),
            final(self).expected == old(self).expected,
            remaining_of(old(self).state) == 1 ==> final(self).state is Launch,
            remaining_of(old(self).state) > 1 ==> final(self).state
                == (ChainloadState::ReceivingPayload {
                remaining: (remaining_of(old(self).state) - 1) as u32,
            }),
    {
        let remaining: u32 = match self.state {
            ChainloadState::ReceivingPayload { remaining } => remaining,
            _ => 0,
        };
        self.loaded.push(b);
        if remaining == 1 {
            self.state = ChainloadState::Launch;
        } else {
            self.state = ChainloadState::ReceivingPayload { remaining: remaining - 1 };
        }
    }

    /// Whether the whole announced payload is in place, so that control
    /// may transfer to the load address.
    pub fn ready_to_launch(&self) -> (r: bool)
        ensures
            r == (self.state is Launch),
    {
        match self.state {
            ChainloadState::Launch => true,
            _ => false,
        }
    }

    /// The fixed entry address a completed session transfers control to:
    /// the base of the load region, called as a no-argument,
    /// non-returning entry point.
    pub fn launch_address(&self) -> (a: u64)
        ensures
            a == KERNEL_LOAD_ADDR,
    {
        KERNEL_LOAD_ADDR
    }
}

} // verus!
