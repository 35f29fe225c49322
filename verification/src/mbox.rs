//! Mailbox property-protocol client.
//!
//! Requests to the VideoCore co-processor travel through a single shared
//! buffer of 36 32-bit words. Word 0 holds the total buffer size in
//! bytes, word 1 the request/response code, word 2 the tag id, word 3 the
//! tag value-buffer size in bytes, word 4 the tag request code, words 5
//! onward the tag argument/result values, and the final populated word the
//! End tag. The hardware FIFO exchange itself happens behind the
//! [`MboxTransport`] trait: the production transport polls the mailbox
//! registers, while [`SimTransport`] is a verified stand-in that delivers
//! a scripted response, so every decoding decision here is checked for
//! all possible responses.

use vstd::prelude::*;

verus! {

/// Number of 32-bit words in the shared message buffer.
pub const BUFFER_WORDS: usize = 36;

/// Word 1 of a request: this buffer carries a request.
pub const REQUEST_CODE: u32 = 0;

/// Word 1 of a response: the peripheral handled the request.
pub const RESPONSE_SUCCESS: u32 = 0x8000_0000;

/// Word 1 of a response: the peripheral could not parse the request.
pub const RESPONSE_ERROR: u32 = 0x8000_0001;

/// Closing word of every request: the End tag.
pub const END_TAG: u32 = 0;

/// Failure of a property call, as surfaced to the caller.
#[derive(Clone, Copy, Debug, PartialEq, Eq, Structural)]
pub enum MboxError {
    /// The peripheral parsed the request but signaled failure.
    ResponseError,
    /// Any response code other than the two documented sentinels.
    UnknownError,
}

/// The mailbox queues. Only the ARM-to-VideoCore property channel is used
/// operationally; the channel id rides in the low four bits of the
/// exchanged buffer address.
#[derive(Clone, Copy, Debug, PartialEq, Eq, Structural)]
pub enum Channel {
    PowerManagement,
    Framebuffer,
    VirtualUART,
    VCHIQ,
    Leds,
    Buttons,
    TouchScreen,
    Count,
    ArmToVCProperty,
    VCToArmProperty,
}

impl Channel {
    /// The numeric id of this channel on the wire.
    pub open spec fn id_spec(self) -> u32 {
        match self {
            Channel::PowerManagement => 0,
            Channel::Framebuffer => 1,
            Channel::VirtualUART => 2,
            Channel::VCHIQ => 3,
            Channel::Leds => 4,
            Channel::Buttons => 5,
            Channel::TouchScreen => 6,
            Channel::Count => 7,
            Channel::ArmToVCProperty => 8,
            Channel::VCToArmProperty => 9,
        }
    }

    /// The numeric id of this channel on the wire.
    pub fn id(self) -> (r: u32)
        ensures
            r == self.id_spec(),
    {
        match self {
            Channel::PowerManagement => 0,
            Channel::Framebuffer => 1,
            Channel::VirtualUART => 2,
            Channel::VCHIQ => 3,
            Channel::Leds => 4,
            Channel::Buttons => 5,
            Channel::TouchScreen => 6,
            Channel::Count => 7,
            Channel::ArmToVCProperty => 8,
            Channel::VCToArmProperty => 9,
        }
    }

    /// The channel with the given id. Ids ten and above name no channel.
    pub fn from(value: u32) -> (r: Channel)
        requires
            value < 10,
        ensures
            r.id_spec() == value,
    {
        match value {
            0 => Channel::PowerManagement,
            1 => Channel::Framebuffer,
            2 => Channel::VirtualUART,
            3 => Channel::VCHIQ,
            4 => Channel::Leds,
            5 => Channel::Buttons,
            6 => Channel::TouchScreen,
            7 => Channel::Count,
            8 => Channel::ArmToVCProperty,
            _ => Channel::VCToArmProperty,
        }
    }
}

/// The property tags of the mailbox interface. Each maps to a fixed
/// request/result shape; the operations offered by [`Mbox`] are all
/// instances of one generic call parameterized by the tag catalog below.
#[derive(Clone, Copy, Debug, PartialEq, Eq, Structural)]
pub enum Tag {
    GetFirmwareRevision,
    GetBoardModel,
    GetBoardRevision,
    GetBoardMAC,
    GetBoardSerial,
    GetARMMemory,
    GetVCMemory,
    GetClocks,
    GetCommandLine,
    GetDMAChannels,
    GetPowerState,
    GetTiming,
    SetPowerState,
    GetClockState,
    GetClockRate,
    GetMaxClockRate,
    GetMinClockRate,
    GetTurbo,
    SetClockState,
    SetClockRate,
    SetTurbo,
    GetVoltage,
    GetMaxVoltage,
    GetTemperature,
    GetMinVoltage,
    GetMaxTemperature,
    SetVoltage,
    AllocateMemory,
    LockMemory,
    UnlockMemory,
    ReleaseMemory,
    ExecuteCode,
    GetDispmanxMemoryHandle,
    GetEDIDBlock,
    AllocateBuffer,
    BlankScreen,
    GetPhysicalHeightWidth,
    GetVirtualHeightWidth,
    GetDepth,
    GetPixelOrder,
    GetAlphaMode,
    GetPitch,
    GetVirtualOffset,
    GetOverscan,
    GetPalette,
    TestPhysicalHeightWidth,
    TestVirtualHeightWidth,
    TestDepth,
    TestPixelOrder,
    TestAlphaMode,
    TestVirtualOffset,
    TestOverscan,
    TestPalette,
    ReleaseBuffer,
    SetPhysicalHeightWidth,
    SetVirtualHeightWidth,
    SetDepth,
    SetPixelOrder,
    SetAlphaMode,
    SetVirtualOffset,
    SetOverscan,
    SetPalette,
    SetCursorInfo,
    SetCursorState,
    End,
}

impl Tag {
    /// The numeric tag id on the wire.
    pub open spec fn id_spec(self) -> u32 {
        match self {
            Tag::GetFirmwareRevision => 0x0000_0001,
            Tag::GetBoardModel => 0x0001_0001,
            Tag::GetBoardRevision => 0x0001_0002,
            Tag::GetBoardMAC => 0x0001_0003,
            Tag::GetBoardSerial => 0x0001_0004,
            Tag::GetARMMemory => 0x0001_0005,
            Tag::GetVCMemory => 0x0001_0006,
            Tag::GetClocks => 0x0001_0007,
            Tag::GetCommandLine => 0x0005_0001,
            Tag::GetDMAChannels => 0x0006_0001,
            Tag::GetPowerState => 0x0002_0001,
            Tag::GetTiming => 0x0002_0002,
            Tag::SetPowerState => 0x0002_8001,
            Tag::GetClockState => 0x0003_0001,
            Tag::GetClockRate => 0x0003_0002,
            Tag::GetMaxClockRate => 0x0003_0004,
            Tag::GetMinClockRate => 0x0003_0007,
            Tag::GetTurbo => 0x0003_0009,
            Tag::SetClockState => 0x0003_8001,
            Tag::SetClockRate => 0x0003_8002,
            Tag::SetTurbo => 0x0003_8009,
            Tag::GetVoltage => 0x0003_0003,
            Tag::GetMaxVoltage => 0x0003_0005,
            Tag::GetTemperature => 0x0003_0006,
            Tag::GetMinVoltage => 0x0003_0008,
            Tag::GetMaxTemperature => 0x0003_000a,
            Tag::SetVoltage => 0x0003_8003,
            Tag::AllocateMemory => 0x0003_000c,
            Tag::LockMemory => 0x0003_000d,
            Tag::UnlockMemory => 0x0003_000e,
            Tag::ReleaseMemory => 0x0003_000f,
            Tag::ExecuteCode => 0x0003_0010,
            Tag::GetDispmanxMemoryHandle => 0x0003_0014,
            Tag::GetEDIDBlock => 0x0003_0020,
            Tag::AllocateBuffer => 0x0004_0001,
            Tag::BlankScreen => 0x0004_0002,
            Tag::GetPhysicalHeightWidth => 0x0004_0003,
            Tag::GetVirtualHeightWidth => 0x0004_0004,
            Tag::GetDepth => 0x0004_0005,
            Tag::GetPixelOrder => 0x0004_0006,
            Tag::GetAlphaMode => 0x0004_0007,
            Tag::GetPitch => 0x0004_0008,
            Tag::GetVirtualOffset => 0x0004_0009,
            Tag::GetOverscan => 0x0004_000a,
            Tag::GetPalette => 0x0004_000b,
            Tag::TestPhysicalHeightWidth => 0x0004_4003,
            Tag::TestVirtualHeightWidth => 0x0004_4004,
            Tag::TestDepth => 0x0004_4005,
            Tag::TestPixelOrder => 0x0004_4006,
            Tag::TestAlphaMode => 0x0004_4007,
            Tag::TestVirtualOffset => 0x0004_4009,
            Tag::TestOverscan => 0x0004_400a,
            Tag::TestPalette => 0x0004_400b,
            Tag::ReleaseBuffer => 0x0004_8001,
            Tag::SetPhysicalHeightWidth => 0x0004_8003,
            Tag::SetVirtualHeightWidth => 0x0004_8004,
            Tag::SetDepth => 0x0004_8005,
            Tag::SetPixelOrder => 0x0004_8006,
            Tag::SetAlphaMode => 0x0004_8007,
            Tag::SetVirtualOffset => 0x0004_8009,
            Tag::SetOverscan => 0x0004_800a,
            Tag::SetPalette => 0x0004_800b,
            Tag::SetCursorInfo => 0x0000_8010,
            Tag::SetCursorState => 0x0000_8011,
            Tag::End => 0,
        }
    }

    /// The numeric tag id on the wire.
    pub fn id(self) -> (r: u32)
        ensures
            r == self.id_spec(),
    {
        match self {
            Tag::GetFirmwareRevision => 0x0000_0001,
            Tag::GetBoardModel => 0x0001_0001,
            Tag::GetBoardRevision => 0x0001_0002,
            Tag::GetBoardMAC => 0x0001_0003,
            Tag::GetBoardSerial => 0x0001_0004,
            Tag::GetARMMemory => 0x0001_0005,
            Tag::GetVCMemory => 0x0001_0006,
            Tag::GetClocks => 0x0001_0007,
            Tag::GetCommandLine => 0x0005_0001,
            Tag::GetDMAChannels => 0x0006_0001,
            Tag::GetPowerState => 0x0002_0001,
            Tag::GetTiming => 0x0002_0002,
            Tag::SetPowerState => 0x0002_8001,
            Tag::GetClockState => 0x0003_0001,
            Tag::GetClockRate => 0x0003_0002,
            Tag::GetMaxClockRate => 0x0003_0004,
            Tag::GetMinClockRate => 0x0003_0007,
            Tag::GetTurbo => 0x0003_0009,
            Tag::SetClockState => 0x0003_8001,
            Tag::SetClockRate => 0x0003_8002,
            Tag::SetTurbo => 0x0003_8009,
            Tag::GetVoltage => 0x0003_0003,
            Tag::GetMaxVoltage => 0x0003_0005,
            Tag::GetTemperature => 0x0003_0006,
            Tag::GetMinVoltage => 0x0003_0008,
            Tag::GetMaxTemperature => 0x0003_000a,
            Tag::SetVoltage => 0x0003_8003,
            Tag::AllocateMemory => 0x0003_000c,
            Tag::LockMemory => 0x0003_000d,
            Tag::UnlockMemory => 0x0003_000e,
            Tag::ReleaseMemory => 0x0003_000f,
            Tag::ExecuteCode => 0x0003_0010,
            Tag::GetDispmanxMemoryHandle => 0x0003_0014,
            Tag::GetEDIDBlock => 0x0003_0020,
            Tag::AllocateBuffer => 0x0004_0001,
            Tag::BlankScreen => 0x0004_0002,
            Tag::GetPhysicalHeightWidth => 0x0004_0003,
            Tag::GetVirtualHeightWidth => 0x0004_0004,
            Tag::GetDepth => 0x0004_0005,
            Tag::GetPixelOrder => 0x0004_0006,
            Tag::GetAlphaMode => 0x0004_0007,
            Tag::GetPitch => 0x0004_0008,
            Tag::GetVirtualOffset => 0x0004_0009,
            Tag::GetOverscan => 0x0004_000a,
            Tag::GetPalette => 0x0004_000b,
            Tag::TestPhysicalHeightWidth => 0x0004_4003,
            Tag::TestVirtualHeightWidth => 0x0004_4004,
            Tag::TestDepth => 0x0004_4005,
            Tag::TestPixelOrder => 0x0004_4006,
            Tag::TestAlphaMode => 0x0004_4007,
            Tag::TestVirtualOffset => 0x0004_4009,
            Tag::TestOverscan => 0x0004_400a,
            Tag::TestPalette => 0x0004_400b,
            Tag::ReleaseBuffer => 0x0004_8001,
            Tag::SetPhysicalHeightWidth => 0x0004_8003,
            Tag::SetVirtualHeightWidth => 0x0004_8004,
            Tag::SetDepth => 0x0004_8005,
            Tag::SetPixelOrder => 0x0004_8006,
            Tag::SetAlphaMode => 0x0004_8007,
            Tag::SetVirtualOffset => 0x0004_8009,
            Tag::SetOverscan => 0x0004_800a,
            Tag::SetPalette => 0x0004_800b,
            Tag::SetCursorInfo => 0x0000_8010,
            Tag::SetCursorState => 0x0000_8011,
            Tag::End => 0,
        }
    }

    /// Whether the catalog defines a request/result shape for this tag,
    /// that is, whether the client offers an operation built on it.
    pub open spec fn cataloged(self) -> bool {
        match self {
            Tag::GetBoardSerial => true,
            Tag::GetFirmwareRevision => true,
            Tag::GetBoardModel => true,
            Tag::GetBoardRevision => true,
            Tag::GetBoardMAC => true,
            Tag::GetARMMemory => true,
            Tag::GetVCMemory => true,
            Tag::GetDMAChannels => true,
            Tag::GetPowerState => true,
            Tag::GetTiming => true,
            Tag::SetPowerState => true,
            Tag::GetClockState => true,
            Tag::SetClockState => true,
            Tag::GetClockRate => true,
            Tag::SetClockRate => true,
            _ => false,
        }
    }

    /// Number of argument words the catalog prescribes for a request
    /// carrying this tag.
    pub open spec fn req_args_spec(self) -> nat {
        match self {
            Tag::GetPowerState => 1,
            Tag::GetTiming => 2,
            Tag::SetPowerState => 2,
            Tag::GetClockState => 1,
            Tag::SetClockState => 2,
            Tag::GetClockRate => 1,
            Tag::SetClockRate => 3,
            _ => 0,
        }
    }

    /// Number of result words the catalog prescribes for a response
    /// carrying this tag.
    pub open spec fn resp_args_spec(self) -> nat {
        match self {
            Tag::GetFirmwareRevision => 1,
            Tag::GetBoardModel => 1,
            Tag::GetBoardRevision => 1,
            Tag::GetDMAChannels => 1,
            _ => 2,
        }
    }

    /// Number of value words the tag's value buffer spans: enough for the
    /// larger of its argument and result lists.
    pub open spec fn value_slots_spec(self) -> nat {
        if self.req_args_spec() >= self.resp_args_spec() {
            self.req_args_spec()
        } else {
            self.resp_args_spec()
        }
    }

    /// Number of argument words the catalog prescribes.
    pub fn req_args(self) -> (n: usize)
        ensures
            n == self.req_args_spec(),
    {
        match self {
            Tag::GetPowerState => 1,
            Tag::GetTiming => 2,
            Tag::SetPowerState => 2,
            Tag::GetClockState => 1,
            Tag::SetClockState => 2,
            Tag::GetClockRate => 1,
            Tag::SetClockRate => 3,
            _ => 0,
        }
    }

    /// Number of result words the catalog prescribes.
    pub fn resp_args(self) -> (n: usize)
        ensures
            n == self.resp_args_spec(),
    {
        match self {
            Tag::GetFirmwareRevision => 1,
            Tag::GetBoardModel => 1,
            Tag::GetBoardRevision => 1,
            Tag::GetDMAChannels => 1,
            _ => 2,
        }
    }

    /// Number of value words the tag's value buffer spans.
    pub fn value_slots(self) -> (n: usize)
        ensures
            n == self.value_slots_spec(),
            n <= 3,
    {
        let r: usize = self.req_args();
        let p: usize = self.resp_args();
        proof {
            lemma_catalog_bounds(self);
        }
        if r >= p {
            r
        } else {
            p
        }
    }
}

/// The catalog never asks for more than three value words.
pub proof fn lemma_catalog_bounds(tag: Tag)
    ensures
        tag.req_args_spec() <= 3,
        tag.resp_args_spec() <= 2,
        tag.value_slots_spec() <= 3,
{
}

/// The devices whose power state the peripheral manages.
#[derive(Clone, Copy, Debug, PartialEq, Eq, Structural)]
pub enum Power {
    SDCard,
    Uart0,
    Uart1,
    USBHCD,
    I2C0,
    I2C1,
    I2C2,
    SPI,
    CCP2TX,
}

impl Power {
    /// The numeric device id on the wire.
    pub open spec fn id_spec(self) -> u32 {
        match self {
            Power::SDCard => 0,
            Power::Uart0 => 1,
            Power::Uart1 => 2,
            Power::USBHCD => 3,
            Power::I2C0 => 4,
            Power::I2C1 => 5,
            Power::I2C2 => 6,
            Power::SPI => 7,
            Power::CCP2TX => 8,
        }
    }

    /// The numeric device id on the wire.
    pub fn id(self) -> (r: u32)
        ensures
            r == self.id_spec(),
    {
        match self {
            Power::SDCard => 0,
            Power::Uart0 => 1,
            Power::Uart1 => 2,
            Power::USBHCD => 3,
            Power::I2C0 => 4,
            Power::I2C1 => 5,
            Power::I2C2 => 6,
            Power::SPI => 7,
            Power::CCP2TX => 8,
        }
    }
}

/// The clocks whose state and rate the peripheral manages.
#[allow(non_camel_case_types)]
#[derive(Clone, Copy, Debug, PartialEq, Eq, Structural)]
pub enum Clocks {
    _reserved,
    EMMC,
    UART,
    ARM,
    CORE,
    V3D,
    H264,
    ISP,
    SDRAM,
    PIXEL,
    PWM,
    EMMC2,
}

impl Clocks {
    /// The numeric clock id on the wire.
    pub open spec fn id_spec(self) -> u32 {
        match self {
            Clocks::_reserved => 0,
            Clocks::EMMC => 1,
            Clocks::UART => 2,
            Clocks::ARM => 3,
            Clocks::CORE => 4,
            Clocks::V3D => 5,
            Clocks::H264 => 6,
            Clocks::ISP => 7,
            Clocks::SDRAM => 8,
            Clocks::PIXEL => 9,
            Clocks::PWM => 0xa,
            Clocks::EMMC2 => 0xc,
        }
    }

    /// The numeric clock id on the wire.
    pub fn id(self) -> (r: u32)
        ensures
            r == self.id_spec(),
    {
        match self {
            Clocks::_reserved => 0,
            Clocks::EMMC => 1,
            Clocks::UART => 2,
            Clocks::ARM => 3,
            Clocks::CORE => 4,
            Clocks::V3D => 5,
            Clocks::H264 => 6,
            Clocks::ISP => 7,
            Clocks::SDRAM => 8,
            Clocks::PIXEL => 9,
            Clocks::PWM => 0xa,
            Clocks::EMMC2 => 0xc,
        }
    }
}

/// The voltage domains the peripheral manages.
#[allow(non_camel_case_types)]
#[derive(Clone, Copy, Debug, PartialEq, Eq, Structural)]
pub enum Voltage {
    _reserved,
    CORE,
    SDRAM_C,
    SDRAM_P,
    SDRAM_I,
}

impl Voltage {
    /// The numeric voltage domain id on the wire.
    pub open spec fn id_spec(self) -> u32 {
        match self {
            Voltage::_reserved => 0,
            Voltage::CORE => 1,
            Voltage::SDRAM_C => 2,
            Voltage::SDRAM_P => 3,
            Voltage::SDRAM_I => 4,
        }
    }

    /// The numeric voltage domain id on the wire.
    pub fn id(self) -> (r: u32)
        ensures
            r == self.id_spec(),
    {
        match self {
            Voltage::_reserved => 0,
            Voltage::CORE => 1,
            Voltage::SDRAM_C => 2,
            Voltage::SDRAM_P => 3,
            Voltage::SDRAM_I => 4,
        }
    }
}

/// Request codes: word 1 of every outgoing buffer.
#[derive(Clone, Copy, Debug, PartialEq, Eq, Structural)]
pub enum Request {
    Request,
}

impl Request {
    /// The numeric request code on the wire.
    pub fn code(self) -> (r: u32)
        ensures
            r == REQUEST_CODE,
    {
        match self {
            Request::Request => 0,
        }
    }
}

/// A response header, decoded from word 1 of the buffer after an
/// exchange; never persisted past the call that produced it.
#[derive(Clone, Copy, Debug, PartialEq, Eq, Structural)]
pub enum Response {
    Success,
    Error,
    UnknownError,
}

impl Response {
    /// Decodes the 32-bit response sentinel. Exactly `0x8000_0000` is
    /// success, exactly `0x8000_0001` a parse failure, anything else
    /// unknown.
    pub fn from(value: u32) -> (r: Response)
        ensures
            r is Success <==> value == RESPONSE_SUCCESS,
            r is Error <==> value == RESPONSE_ERROR,
            r is UnknownError <==> (value != RESPONSE_SUCCESS && value != RESPONSE_ERROR),
    {
        match value {
            0x8000_0000 => Response::Success,
            0x8000_0001 => Response::Error,
            _ => Response::UnknownError,
        }
    }
}

/// The message buffer as a request carrying `tag` and `args` leaves it:
/// size and request code, the tag header, the argument words, zeroes in
/// the remaining value slots, the End tag, and the old contents beyond.
pub open spec fn build_spec(b: Seq<u32>, tag: Tag, args: Seq<u32>) -> Seq<u32> {
    Seq::new(
        b.len(),
        |i: int|
            {
                let v = tag.value_slots_spec() as int;
                if i == 0 {
                    (4 * (v + 6)) as u32
                } else if i == 1 {
                    REQUEST_CODE
                } else if i == 2 {
                    tag.id_spec()
                } else if i == 3 {
                    (4 * v) as u32
                } else if i == 4 {
                    REQUEST_CODE
                } else if 5 <= i && i < 5 + args.len() {
                    args[i - 5]
                } else if i < 5 + v {
                    0u32
                } else if i == 5 + v {
                    END_TAG
                } else {
                    b[i]
                }
            },
    )
}

/// The message buffer as one exchange leaves it: the delivered response
/// code in word 1, the delivered result words from word 5 on, and the
/// submitted contents everywhere else.
pub open spec fn deliver_spec(b: Seq<u32>, code: u32, words: Seq<u32>) -> Seq<u32> {
    Seq::new(
        b.len(),
        |i: int|
            if i == 1 {
                code
            } else if 5 <= i && i < 5 + words.len() {
                words[i - 5]
            } else {
                b[i]
            },
    )
}

/// What value slot `i` holds after an exchange that delivered `words`
/// over a request that carried `args`: the delivered word where one was
/// delivered, else the argument the request placed there, else zero.
pub open spec fn value_slot(args: Seq<u32>, words: Seq<u32>, i: int) -> u32 {
    if 0 <= i && i < words.len() {
        words[i]
    } else if 0 <= i && i < args.len() {
        args[i]
    } else {
        0u32
    }
}

/// The result words a property call on `tag` decodes out of a successful
/// exchange that delivered `words` over arguments `args`.
pub open spec fn response_values(tag: Tag, args: Seq<u32>, words: Seq<u32>) -> Seq<u32> {
    Seq::new(tag.resp_args_spec(), |i: int| value_slot(args, words, i))
}

/// The outcome a response code decodes to.
pub open spec fn status_of(code: u32) -> Result<(), MboxError> {
    if code == RESPONSE_SUCCESS {
        Ok(())
    } else if code == RESPONSE_ERROR {
        Err(MboxError::ResponseError)
    } else {
        Err(MboxError::UnknownError)
    }
}

/// A result with its payload forgotten: only success or the error kind.
pub open spec fn result_status<A>(r: Result<A, MboxError>) -> Result<(), MboxError> {
    match r {
        Ok(_) => Ok(()),
        Err(e) => Err(e),
    }
}

/// One property exchange with the co-processor: submit the message
/// buffer on a channel, wait for the matching completion, and observe
/// what the peripheral wrote back. `response_code` and `response_words`
/// name what the transport delivers into the response-code word and the
/// value slots. The production transport drives the mailbox registers;
/// [`SimTransport`] replays a scripted response.
pub trait MboxTransport {
    /// The response code this transport delivers into word 1.
    spec fn response_code(&self) -> u32;

    /// The result words this transport delivers from word 5 on.
    spec fn response_words(&self) -> Seq<u32>;

    /// Performs the exchange on the buffer just populated by the caller.
    fn exchange(&mut self, buffer: &mut Vec<u32>, channel: u32)
        requires
            old(buffer)@.len() == BUFFER_WORDS,
        ensures
            final(buffer)@ == deliver_spec(
                old(buffer)@,
                old(self).response_code(),
                old(self).response_words(),
            ),
    ;
}

/// A simulated transport: the test double of the hardware register
/// bridge. It delivers a scripted response code and scripted result
/// words into the buffer and touches nothing else.
pub struct SimTransport {
    pub code: u32,
    pub words: Vec<u32>,
}

impl MboxTransport for SimTransport {
    open spec fn response_code(&self) -> u32 {
        self.code
    }

    open spec fn response_words(&self) -> Seq<u32> {
        self.words@
    }

    fn exchange(&mut self, buffer: &mut Vec<u32>, channel: u32) {
        buffer.set(1, self.code);
        let n: usize = if self.words.len() < 31 {
            self.words.len()
        } else {
            31
        };
        let mut i: usize = 0;
        while i < n
            invariant
                i <= n,
                n <= self.words@.len(),
                n <= 31,
                self.code == old(self).code,
                self.words@ == old(self).words@,
                buffer@.len() == BUFFER_WORDS,
                buffer@[1] == self.code,
                n == if self.words@.len() < 31 { self.words@.len() as int } else { 31 },
                forall|j: int| 5 <= j < 5 + i ==> #[trigger] buffer@[j] == self.words@[j - 5],
                forall|j: int|
                    0 <= j < BUFFER_WORDS && j != 1 && !(5 <= j < 5 + i) ==> #[trigger] buffer@[j]
                        == old(buffer)@[j],
            decreases n - i,
        {
            buffer.set(5 + i, self.words[i]);
            i += 1;
        }
        proof {
            assert(buffer@ =~= deliver_spec(
                old(buffer)@,
                old(self).response_code(),
                old(self).response_words(),
            ));
        }
    }
}

/// The mailbox client. It owns the message buffer that requests are
/// built into and responses arrive in.
pub struct Mbox {
    pub buffer: Vec<u32>,
}

impl Mbox {
    /// The buffer spans exactly `BUFFER_WORDS` words.
    pub open spec fn wf(self) -> bool {
        self.buffer@.len() == BUFFER_WORDS
    }

    /// A fresh client with a zeroed message buffer.
    pub fn new() -> (m: Mbox)
        ensures
            m.wf(),
            forall|i: int| 0 <= i < BUFFER_WORDS ==> m.buffer@[i] == 0u32,
    {
        let mut buffer: Vec<u32> = Vec::new();
        let mut i: usize = 0;
        while i < BUFFER_WORDS
            invariant
                i <= BUFFER_WORDS,
                buffer@.len() == i,
                forall|j: int| 0 <= j < i ==> buffer@[j] == 0u32,
            decreases BUFFER_WORDS - i,
        {
            buffer.push(0);
            i += 1;
        }
        Mbox { buffer }
    }

    /// Populates the buffer with a request for `tag` carrying `args`,
    /// exactly as [`build_spec`] lays it out.
    pub fn build_request(&mut self, tag: Tag, args: &Vec<u32>)
        requires
            old(self).wf(),
            tag.cataloged(),
            args@.len() == tag.req_args_spec(),
        ensures
            final(self).wf(),
            final(self).buffer@ == build_spec(old(self).buffer@, tag, args@),
    {
        let slots: usize = tag.value_slots();
        let slots32: u32 = slots as u32;
        self.buffer.set(0, 4 * (slots32 + 6));
        self.buffer.set(1, Request::Request.code());
        self.buffer.set(2, tag.id());
        self.buffer.set(3, 4 * slots32);
        self.buffer.set(4, REQUEST_CODE);
        let mut i: usize = 0;
        while i < args.len()
            invariant
                i <= args@.len(),
                args@.len() == tag.req_args_spec(),
                tag.cataloged(),
                slots == tag.value_slots_spec(),
                slots <= 3,
                slots32 == slots,
                self.buffer@.len() == BUFFER_WORDS,
                self.buffer@[0] == 4 * (slots32 + 6),
                self.buffer@[1] == REQUEST_CODE,
                self.buffer@[2] == tag.id_spec(),
                self.buffer@[3] == 4 * slots32,
                self.buffer@[4] == REQUEST_CODE,
                forall|j: int| 5 <= j < 5 + i ==> #[trigger] self.buffer@[j] == args@[j - 5],
                forall|j: int|
                    5 + i <= j < BUFFER_WORDS ==> #[trigger] self.buffer@[j] == old(
                        self,
                    ).buffer@[j],
            decreases args@.len() - i,
        {
            proof {
                lemma_catalog_bounds(tag);
            }
            self.buffer.set(5 + i, args[i]);
            i += 1;
        }
        proof {
            lemma_catalog_bounds(tag);
        }
        while i < slots
            invariant
                args@.len() <= i <= slots,
                args@.len() == tag.req_args_spec(),
                tag.cataloged(),
                slots == tag.value_slots_spec(),
                slots <= 3,
                slots32 == slots,
                self.buffer@.len() == BUFFER_WORDS,
                self.buffer@[0] == 4 * (slots32 + 6),
                self.buffer@[1] == REQUEST_CODE,
                self.buffer@[2] == tag.id_spec(),
                self.buffer@[3] == 4 * slots32,
                self.buffer@[4] == REQUEST_CODE,
                forall|j: int|
                    5 <= j < 5 + args@.len() ==> #[trigger] self.buffer@[j] == args@[j - 5],
                forall|j: int| 5 + args@.len() <= j < 5 + i ==> #[trigger] self.buffer@[j] == 0u32,
                forall|j: int|
                    5 + i <= j < BUFFER_WORDS ==> #[trigger] self.buffer@[j] == old(
                        self,
                    ).buffer@[j],
            decreases slots - i,
        {
            self.buffer.set(5 + i, 0);
            i += 1;
        }
        self.buffer.set(5 + slots, END_TAG);
        proof {
            assert(self.buffer@ =~= build_spec(old(self).buffer@, tag, args@));
        }
    }

    /// Submits the populated buffer on `channel` through the transport
    /// and decodes word 1 of the response: success, the peripheral's
    /// parse failure, or an unknown code.
    pub fn call<T: MboxTransport>(&mut self, transport: &mut T, channel: Channel) -> (r: Result<
        (),
        MboxError,
    >)
        requires
            old(self).wf(),
        ensures
            final(self).wf(),
            final(self).buffer@ == deliver_spec(
                old(self).buffer@,
                old(transport).response_code(),
                old(transport).response_words(),
            ),
            r == status_of(old(transport).response_code()),
    {
        let ch: u32 = channel.id();
        transport.exchange(&mut self.buffer, ch);
        let code: u32 = self.buffer[1];
        match Response::from(code) {
            Response::Success => Ok(()),
            Response::Error => Err(MboxError::ResponseError),
            Response::UnknownError => Err(MboxError::UnknownError),
        }
    }

    /// Decodes word 1 of the buffer as it stands: what the last
    /// exchange made of the request. For callers that drive the FIFO
    /// themselves and hand the completed buffer back.
    pub fn decode_status(&self) -> (r: Result<(), MboxError>)
        requires
            self.wf(),
        ensures
            r == status_of(self.buffer@[1]),
    {
        let code: u32 = self.buffer[1];
        match Response::from(code) {
            Response::Success => Ok(()),
            Response::Error => Err(MboxError::ResponseError),
            Response::UnknownError => Err(MboxError::UnknownError),
        }
    }

    /// The one table-driven property operation: builds the request for
    /// `tag` from `args`, performs the exchange on the property channel,
    /// and on success returns the tag's result words.
    pub fn perform_property_call<T: MboxTransport>(
        &mut self,
        transport: &mut T,
        tag: Tag,
        args: &Vec<u32>,
    ) -> (r: Result<Vec<u32>, MboxError>)
        requires
            old(self).wf(),
            tag.cataloged(),
            args@.len() == tag.req_args_spec(),
        ensures
            final(self).wf(),
            final(self).buffer@ == deliver_spec(
                build_spec(old(self).buffer@, tag, args@),
                old(transport).response_code(),
                old(transport).response_words(),
            ),
            result_status(r) == status_of(old(transport).response_code()),
            r matches Ok(vals) ==> vals@ == response_values(
                tag,
                args@,
                old(transport).response_words(),
            ),
    {
        self.build_request(tag, args);
        match self.call(transport, Channel::ArmToVCProperty) {
            Err(e) => Err(e),
            Ok(()) => {
                let n: usize = tag.resp_args();
                proof {
                    lemma_catalog_bounds(tag);
                }
                let mut vals: Vec<u32> = Vec::new();
                let mut i: usize = 0;
                while i < n
                    invariant
                        i <= n,
                        n == tag.resp_args_spec(),
                        n <= 2,
                        self.wf(),
                        self.buffer@ == deliver_spec(
                            build_spec(old(self).buffer@, tag, args@),
                            old(transport).response_code(),
                            old(transport).response_words(),
                        ),
                        vals@.len() == i,
                        forall|j: int| 0 <= j < i ==> vals@[j] == self.buffer@[5 + j],
                    decreases n - i,
                {
                    vals.push(self.buffer[5 + i]);
                    i += 1;
                }
                proof {
                    lemma_catalog_bounds(tag);
                    assert(vals@ =~= response_values(
                        tag,
                        args@,
                        old(transport).response_words(),
                    ));
                }
                Ok(vals)
            },
        }
    }
}

/// A 64-bit quantity reassembled from the two 32-bit halves a response
/// delivers, low word first.
pub open spec fn join_u64(low: u32, high: u32) -> u64 {
    ((high as u64) << 32) | (low as u64)
}

impl Mbox {
    /// The board's serial number: the two result words of
    /// `GetBoardSerial`, low word first.
    pub fn get_board_serial<T: MboxTransport>(&mut self, transport: &mut T) -> (r: Result<
        u64,
        MboxError,
    >)
        requires
            old(self).wf(),
        ensures
            final(self).wf(),
            final(self).buffer@ == deliver_spec(
                build_spec(old(self).buffer@, Tag::GetBoardSerial, Seq::<u32>::empty()),
                old(transport).response_code(),
                old(transport).response_words(),
            ),
            result_status(r) == status_of(old(transport).response_code()),
            r matches Ok(v) ==> v == join_u64(
                value_slot(Seq::<u32>::empty(), old(transport).response_words(), 0),
                value_slot(Seq::<u32>::empty(), old(transport).response_words(), 1),
            ),
    {
        let args: Vec<u32> = Vec::new();
        proof {
            assert(args@ =~= Seq::<u32>::empty());
        }
        match self.perform_property_call(transport, Tag::GetBoardSerial, &args) {
            Err(e) => Err(e),
            Ok(vals) => {
                let low: u32 = vals[0];
                let high: u32 = vals[1];
                Ok(((high as u64) << 32) | (low as u64))
            },
        }
    }

    /// The firmware revision: the one result word of
    /// `GetFirmwareRevision`.
    pub fn get_firmware_revision<T: MboxTransport>(&mut self, transport: &mut T) -> (r: Result<
        u32,
        MboxError,
    >)
        requires
            old(self).wf(),
        ensures
            final(self).wf(),
            final(self).buffer@ == deliver_spec(
                build_spec(old(self).buffer@, Tag::GetFirmwareRevision, Seq::<u32>::empty()),
                old(transport).response_code(),
                old(transport).response_words(),
            ),
            result_status(r) == status_of(old(transport).response_code()),
            r matches Ok(v) ==> v == value_slot(
                Seq::<u32>::empty(),
                old(transport).response_words(),
                0,
            ),
    {
        let args: Vec<u32> = Vec::new();
        proof {
            assert(args@ =~= Seq::<u32>::empty());
        }
        match self.perform_property_call(transport, Tag::GetFirmwareRevision, &args) {
            Err(e) => Err(e),
            Ok(vals) => Ok(vals[0]),
        }
    }

    /// The board model: the one result word of `GetBoardModel`.
    pub fn get_board_model<T: MboxTransport>(&mut self, transport: &mut T) -> (r: Result<
        u32,
        MboxError,
    >)
        requires
            old(self).wf(),
        ensures
            final(self).wf(),
            final(self).buffer@ == deliver_spec(
                build_spec(old(self).buffer@, Tag::GetBoardModel, Seq::<u32>::empty()),
                old(transport).response_code(),
                old(transport).response_words(),
            ),
            result_status(r) == status_of(old(transport).response_code()),
            r matches Ok(v) ==> v == value_slot(
                Seq::<u32>::empty(),
                old(transport).response_words(),
                0,
            ),
    {
        let args: Vec<u32> = Vec::new();
        proof {
            assert(args@ =~= Seq::<u32>::empty());
        }
        match self.perform_property_call(transport, Tag::GetBoardModel, &args) {
            Err(e) => Err(e),
            Ok(vals) => Ok(vals[0]),
        }
    }

    /// The board revision: the one result word of `GetBoardRevision`.
    pub fn get_board_revision<T: MboxTransport>(&mut self, transport: &mut T) -> (r: Result<
        u32,
        MboxError,
    >)
        requires
            old(self).wf(),
        ensures
            final(self).wf(),
            final(self).buffer@ == deliver_spec(
                build_spec(old(self).buffer@, Tag::GetBoardRevision, Seq::<u32>::empty()),
                old(transport).response_code(),
                old(transport).response_words(),
            ),
            result_status(r) == status_of(old(transport).response_code()),
            r matches Ok(v) ==> v == value_slot(
                Seq::<u32>::empty(),
                old(transport).response_words(),
                0,
            ),
    {
        let args: Vec<u32> = Vec::new();
        proof {
            assert(args@ =~= Seq::<u32>::empty());
        }
        match self.perform_property_call(transport, Tag::GetBoardRevision, &args) {
            Err(e) => Err(e),
            Ok(vals) => Ok(vals[0]),
        }
    }

    /// The board's MAC address: the two result words of `GetBoardMAC`
    /// reassembled low word first into a 48-bit value.
    pub fn get_board_mac<T: MboxTransport>(&mut self, transport: &mut T) -> (r: Result<
        u64,
        MboxError,
    >)
        requires
            old(self).wf(),
        ensures
            final(self).wf(),
            final(self).buffer@ == deliver_spec(
                build_spec(old(self).buffer@, Tag::GetBoardMAC, Seq::<u32>::empty()),
                old(transport).response_code(),
                old(transport).response_words(),
            ),
            result_status(r) == status_of(old(transport).response_code()),
            r matches Ok(v) ==> v == join_u64(
                value_slot(Seq::<u32>::empty(), old(transport).response_words(), 0),
                value_slot(Seq::<u32>::empty(), old(transport).response_words(), 1),
            ),
    {
        let args: Vec<u32> = Vec::new();
        proof {
            assert(args@ =~= Seq::<u32>::empty());
        }
        match self.perform_property_call(transport, Tag::GetBoardMAC, &args) {
            Err(e) => Err(e),
            Ok(vals) => {
                let low: u32 = vals[0];
                let high: u32 = vals[1];
                Ok(((high as u64) << 32) | (low as u64))
            },
        }
    }

    /// The ARM memory split: base address and size, the two result words
    /// of `GetARMMemory`.
    pub fn get_arm_memory<T: MboxTransport>(&mut self, transport: &mut T) -> (r: Result<
        (u32, u32),
        MboxError,
    >)
        requires
            old(self).wf(),
        ensures
            final(self).wf(),
            final(self).buffer@ == deliver_spec(
                build_spec(old(self).buffer@, Tag::GetARMMemory, Seq::<u32>::empty()),
                old(transport).response_code(),
                old(transport).response_words(),
            ),
            result_status(r) == status_of(old(transport).response_code()),
            r matches Ok(p) ==> p.0 == value_slot(
                Seq::<u32>::empty(),
                old(transport).response_words(),
                0,
            ) && p.1 == value_slot(Seq::<u32>::empty(), old(transport).response_words(), 1),
    {
        let args: Vec<u32> = Vec::new();
        proof {
            assert(args@ =~= Seq::<u32>::empty());
        }
        match self.perform_property_call(transport, Tag::GetARMMemory, &args) {
            Err(e) => Err(e),
            Ok(vals) => Ok((vals[0], vals[1])),
        }
    }

    /// The VideoCore memory split: base address and size, the two result
    /// words of `GetVCMemory`.
    pub fn get_vc_memory<T: MboxTransport>(&mut self, transport: &mut T) -> (r: Result<
        (u32, u32),
        MboxError,
    >)
        requires
            old(self).wf(),
        ensures
            final(self).wf(),
            final(self).buffer@ == deliver_spec(
                build_spec(old(self).buffer@, Tag::GetVCMemory, Seq::<u32>::empty()),
                old(transport).response_code(),
                old(transport).response_words(),
            ),
            result_status(r) == status_of(old(transport).response_code()),
            r matches Ok(p) ==> p.0 == value_slot(
                Seq::<u32>::empty(),
                old(transport).response_words(),
                0,
            ) && p.1 == value_slot(Seq::<u32>::empty(), old(transport).response_words(), 1),
    {
        let args: Vec<u32> = Vec::new();
        proof {
            assert(args@ =~= Seq::<u32>::empty());
        }
        match self.perform_property_call(transport, Tag::GetVCMemory, &args) {
            Err(e) => Err(e),
            Ok(vals) => Ok((vals[0], vals[1])),
        }
    }

    /// The mask of usable DMA channels: the one result word of
    /// `GetDMAChannels`.
    pub fn get_dma_channels<T: MboxTransport>(&mut self, transport: &mut T) -> (r: Result<
        u32,
        MboxError,
    >)
        requires
            old(self).wf(),
        ensures
            final(self).wf(),
            final(self).buffer@ == deliver_spec(
                build_spec(old(self).buffer@, Tag::GetDMAChannels, Seq::<u32>::empty()),
                old(transport).response_code(),
                old(transport).response_words(),
            ),
            result_status(r) == status_of(old(transport).response_code()),
            r matches Ok(v) ==> v == value_slot(
                Seq::<u32>::empty(),
                old(transport).response_words(),
                0,
            ),
    {
        let args: Vec<u32> = Vec::new();
        proof {
            assert(args@ =~= Seq::<u32>::empty());
        }
        match self.perform_property_call(transport, Tag::GetDMAChannels, &args) {
            Err(e) => Err(e),
            Ok(vals) => Ok(vals[0]),
        }
    }

    /// The power state of `device`: device id and state word, from
    /// `GetPowerState` on the device's id.
    pub fn get_power_state<T: MboxTransport>(&mut self, transport: &mut T, device: Power) -> (r:
        Result<(u32, u32), MboxError>)
        requires
            old(self).wf(),
        ensures
            final(self).wf(),
            final(self).buffer@ == deliver_spec(
                build_spec(old(self).buffer@, Tag::GetPowerState, seq![device.id_spec()]),
                old(transport).response_code(),
                old(transport).response_words(),
            ),
            result_status(r) == status_of(old(transport).response_code()),
            r matches Ok(p) ==> p.0 == value_slot(
                seq![device.id_spec()],
                old(transport).response_words(),
                0,
            ) && p.1 == value_slot(seq![device.id_spec()], old(transport).response_words(), 1),
    {
        let mut args: Vec<u32> = Vec::new();
        args.push(device.id());
        proof {
            assert(args@ =~= seq![device.id_spec()]);
        }
        match self.perform_property_call(transport, Tag::GetPowerState, &args) {
            Err(e) => Err(e),
            Ok(vals) => Ok((vals[0], vals[1])),
        }
    }

    /// The wait time for `device` after a state change: from `GetTiming`
    /// on the device's id and the probed state.
    pub fn get_timing<T: MboxTransport>(
        &mut self,
        transport: &mut T,
        device: Power,
        state: u32,
    ) -> (r: Result<(u32, u32), MboxError>)
        requires
            old(self).wf(),
        ensures
            final(self).wf(),
            final(self).buffer@ == deliver_spec(
                build_spec(old(self).buffer@, Tag::GetTiming, seq![device.id_spec(), state]),
                old(transport).response_code(),
                old(transport).response_words(),
            ),
            result_status(r) == status_of(old(transport).response_code()),
            r matches Ok(p) ==> p.0 == value_slot(
                seq![device.id_spec(), state],
                old(transport).response_words(),
                0,
            ) && p.1 == value_slot(
                seq![device.id_spec(), state],
                old(transport).response_words(),
                1,
            ),
    {
        let mut args: Vec<u32> = Vec::new();
        args.push(device.id());
        args.push(state);
        proof {
            assert(args@ =~= seq![device.id_spec(), state]);
        }
        match self.perform_property_call(transport, Tag::GetTiming, &args) {
            Err(e) => Err(e),
            Ok(vals) => Ok((vals[0], vals[1])),
        }
    }

    /// Sets the power state of `device` and returns the device id and
    /// resulting state word, from `SetPowerState`.
    pub fn set_power_state<T: MboxTransport>(
        &mut self,
        transport: &mut T,
        device: Power,
        state: u32,
    ) -> (r: Result<(u32, u32), MboxError>)
        requires
            old(self).wf(),
        ensures
            final(self).wf(),
            final(self).buffer@ == deliver_spec(
                build_spec(old(self).buffer@, Tag::SetPowerState, seq![device.id_spec(), state]),
                old(transport).response_code(),
                old(transport).response_words(),
            ),
            result_status(r) == status_of(old(transport).response_code()),
            r matches Ok(p) ==> p.0 == value_slot(
                seq![device.id_spec(), state],
                old(transport).response_words(),
                0,
            ) && p.1 == value_slot(
                seq![device.id_spec(), state],
                old(transport).response_words(),
                1,
            ),
    {
        let mut args: Vec<u32> = Vec::new();
        args.push(device.id());
        args.push(state);
        proof {
            assert(args@ =~= seq![device.id_spec(), state]);
        }
        match self.perform_property_call(transport, Tag::SetPowerState, &args) {
            Err(e) => Err(e),
            Ok(vals) => Ok((vals[0], vals[1])),
        }
    }

    /// The state of `clock`: clock id and state word, from
    /// `GetClockState` on the clock's id.
    pub fn get_clock_state<T: MboxTransport>(&mut self, transport: &mut T, clock: Clocks) -> (r:
        Result<(u32, u32), MboxError>)
        requires
            old(self).wf(),
        ensures
            final(self).wf(),
            final(self).buffer@ == deliver_spec(
                build_spec(old(self).buffer@, Tag::GetClockState, seq![clock.id_spec()]),
                old(transport).response_code(),
                old(transport).response_words(),
            ),
            result_status(r) == status_of(old(transport).response_code()),
            r matches Ok(p) ==> p.0 == value_slot(
                seq![clock.id_spec()],
                old(transport).response_words(),
                0,
            ) && p.1 == value_slot(seq![clock.id_spec()], old(transport).response_words(), 1),
    {
        let mut args: Vec<u32> = Vec::new();
        args.push(clock.id());
        proof {
            assert(args@ =~= seq![clock.id_spec()]);
        }
        match self.perform_property_call(transport, Tag::GetClockState, &args) {
            Err(e) => Err(e),
            Ok(vals) => Ok((vals[0], vals[1])),
        }
    }

    /// Sets the state of `clock` and returns the clock id and resulting
    /// state word, from `SetClockState`.
    pub fn set_clock_state<T: MboxTransport>(
        &mut self,
        transport: &mut T,
        clock: Clocks,
        state: u32,
    ) -> (r: Result<(u32, u32), MboxError>)
        requires
            old(self).wf(),
        ensures
            final(self).wf(),
            final(self).buffer@ == deliver_spec(
                build_spec(old(self).buffer@, Tag::SetClockState, seq![clock.id_spec(), state]),
                old(transport).response_code(),
                old(transport).response_words(),
            ),
            result_status(r) == status_of(old(transport).response_code()),
            r matches Ok(p) ==> p.0 == value_slot(
                seq![clock.id_spec(), state],
                old(transport).response_words(),
                0,
            ) && p.1 == value_slot(
                seq![clock.id_spec(), state],
                old(transport).response_words(),
                1,
            ),
    {
        let mut args: Vec<u32> = Vec::new();
        args.push(clock.id());
        args.push(state);
        proof {
            assert(args@ =~= seq![clock.id_spec(), state]);
        }
        match self.perform_property_call(transport, Tag::SetClockState, &args) {
            Err(e) => Err(e),
            Ok(vals) => Ok((vals[0], vals[1])),
        }
    }

    /// The rate of `clock` in Hz: clock id and rate, from `GetClockRate`
    /// on the clock's id.
    pub fn get_clock_rate<T: MboxTransport>(&mut self, transport: &mut T, clock: Clocks) -> (r:
        Result<(u32, u32), MboxError>)
        requires
            old(self).wf(),
        ensures
            final(self).wf(),
            final(self).buffer@ == deliver_spec(
                build_spec(old(self).buffer@, Tag::GetClockRate, seq![clock.id_spec()]),
                old(transport).response_code(),
                old(transport).response_words(),
            ),
            result_status(r) == status_of(old(transport).response_code()),
            r matches Ok(p) ==> p.0 == value_slot(
                seq![clock.id_spec()],
                old(transport).response_words(),
                0,
            ) && p.1 == value_slot(seq![clock.id_spec()], old(transport).response_words(), 1),
    {
        let mut args: Vec<u32> = Vec::new();
        args.push(clock.id());
        proof {
            assert(args@ =~= seq![clock.id_spec()]);
        }
        match self.perform_property_call(transport, Tag::GetClockRate, &args) {
            Err(e) => Err(e),
            Ok(vals) => Ok((vals[0], vals[1])),
        }
    }

    /// Sets the rate of `clock`, optionally skipping the turbo setting,
    /// and returns the clock id and resulting rate, from `SetClockRate`.
    pub fn set_clock_rate<T: MboxTransport>(
        &mut self,
        transport: &mut T,
        clock: Clocks,
        clock_speed: u32,
        skip_setting_turbo: u32,
    ) -> (r: Result<(u32, u32), MboxError>)
        requires
            old(self).wf(),
        ensures
            final(self).wf(),
            final(self).buffer@ == deliver_spec(
                build_spec(old(self).buffer@, Tag::SetClockRate, seq![clock.id_spec(), clock_speed, skip_setting_turbo]),
                old(transport).response_code(),
                old(transport).response_words(),
            ),
            result_status(r) == status_of(old(transport).response_code()),
            r matches Ok(p) ==> p.0 == value_slot(
                seq![clock.id_spec(), clock_speed, skip_setting_turbo],
                old(transport).response_words(),
                0,
            ) && p.1 == value_slot(
                seq![clock.id_spec(), clock_speed, skip_setting_turbo],
                old(transport).response_words(),
                1,
            ),
    {
        let mut args: Vec<u32> = Vec::new();
        args.push(clock.id());
        args.push(clock_speed);
        args.push(skip_setting_turbo);
        proof {
            assert(args@ =~= seq![clock.id_spec(), clock_speed, skip_setting_turbo]);
        }
        match self.perform_property_call(transport, Tag::SetClockRate, &args) {
            Err(e) => Err(e),
            Ok(vals) => Ok((vals[0], vals[1])),
        }
    }
}

/// Framing law: every built request announces its own length in its
/// first byte — four bytes for each of the three leading words, the
/// tag's argument block, and the closing word — and its last populated
/// word is the End tag.
pub proof fn lemma_built_request_framing(b: Seq<u32>, tag: Tag, args: Seq<u32>)
    requires
        b.len() == BUFFER_WORDS,
        tag.cataloged(),
        args.len() == tag.req_args_spec(),
    ensures
        build_spec(b, tag, args)[0] == 4 * (3 + (tag.value_slots_spec() + 2) + 1),
        build_spec(b, tag, args)[5 + tag.value_slots_spec() as int] == END_TAG,
{
    lemma_catalog_bounds(tag);
}

/// Round-trip law for the board MAC: a successful exchange that delivers
/// the two halves of the address decodes to success, and reassembly
/// yields exactly `high << 32 | low`.
pub proof fn lemma_mac_round_trip(low: u32, high: u32)
    ensures
        status_of(RESPONSE_SUCCESS) == Ok::<(), MboxError>(()),
        join_u64(
            value_slot(Seq::<u32>::empty(), seq![low, high], 0),
            value_slot(Seq::<u32>::empty(), seq![low, high], 1),
        ) == ((high as u64) << 32) | (low as u64),
{
}

/// Determinism law: two exchanges of the same operation with identical
/// delivered responses decode to the same status and the same result
/// words, whatever either message buffer held beforehand.
pub proof fn lemma_property_call_deterministic(
    b1: Seq<u32>,
    b2: Seq<u32>,
    tag: Tag,
    args: Seq<u32>,
    code: u32,
    words: Seq<u32>,
)
    requires
        b1.len() == BUFFER_WORDS,
        b2.len() == BUFFER_WORDS,
        tag.cataloged(),
        args.len() == tag.req_args_spec(),
    ensures
        ({
            let f1 = deliver_spec(build_spec(b1, tag, args), code, words);
            let f2 = deliver_spec(build_spec(b2, tag, args), code, words);
            &&& status_of(f1[1]) == status_of(f2[1])
            &&& f1.subrange(5, 5 + tag.resp_args_spec() as int) == f2.subrange(
                5,
                5 + tag.resp_args_spec() as int,
            )
        }),
{
    lemma_catalog_bounds(tag);
    let f1 = deliver_spec(build_spec(b1, tag, args), code, words);
    let f2 = deliver_spec(build_spec(b2, tag, args), code, words);
    assert(f1.subrange(5, 5 + tag.resp_args_spec() as int) =~= f2.subrange(
        5,
        5 + tag.resp_args_spec() as int,
    ));
}

/// The word written to the mailbox WRITE register: the buffer address
/// with its low four bits replaced by the channel id.
pub fn mailbox_write_word(buffer_addr: u32, channel: u32) -> (r: u32)
    ensures
        r == (buffer_addr & !0xFu32) | (channel & 0xFu32),
{
    (buffer_addr & !0xFu32) | (channel & 0xFu32)
}

/// Whether a word read from the mailbox READ register answers the
/// request issued on `channel` for the buffer at `buffer_addr`: its low
/// four bits carry the channel and its high bits the buffer address.
/// Responses that match neither are foreign and are discarded by the
/// poll loop around the FIFO.
pub fn response_matches(resp: u32, channel: u32, buffer_addr: u32) -> (r: bool)
    ensures
        r <==> (resp & 0xFu32 == channel && (resp & !0xFu32) == buffer_addr),
{
    (resp & 0xF) == channel && (resp & !0xFu32) == buffer_addr
}

} // verus!
