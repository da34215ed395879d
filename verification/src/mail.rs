//! Property-tag requests over the mailbox: the shared message buffer,
//! the tag vocabulary, and one encode/decode pair per firmware
//! property.
//!
//! The buffer layout is a binary contract with the firmware: word 0 the
//! total buffer size in bytes, word 1 the request code, word 2 the tag,
//! word 3 the value-buffer size in bytes, word 4 the request indicator,
//! then the tag-specific payload, closed by the end-tag word 0.
//! Setters pass their inputs in the payload and read back the values
//! the firmware actually applied, which are authoritative.

use vstd::prelude::*;

use crate::mailbox::call_outcome;
use crate::mailbox::reply_arrives;
use crate::mailbox::Channel;
use crate::mailbox::FirmwareResponse;
use crate::mailbox::Mbox;
use crate::mailbox::MboxError;

verus! {

/// Number of 32-bit words in the mailbox message buffer.
pub const BUFFER_WORDS: usize = 36;

/// Request code placed in word 1 of every outgoing message.
pub const REQUEST_CODE: u32 = 0;

/// Property tags of the firmware interface.
#[derive(Clone, Copy, Debug, PartialEq, Eq, Structural)]
pub enum Tag {
    GetFirmwareRevision,
    GetBoardModel,
    GetBoardRevision,
    GetBoardMAC,
    GetBoardSerial,
    GetARMMemory,
    GetVCMemory,
    GetClocks,
    GetCommandLine,
    GetDMAChannels,
    GetPowerState,
    GetTiming,
    SetPowerState,
    GetClockState,
    GetClockRate,
    GetMaxClockRate,
    GetMinClockRate,
    GetTurbo,
    SetClockState,
    SetClockRate,
    SetTurbo,
    GetVoltage,
    GetMaxVoltage,
    GetTemperature,
    GetMinVoltage,
    GetMaxTemperature,
    SetVoltage,
    AllocateMemory,
    LockMemory,
    UnlockMemory,
    ReleaseMemory,
    ExecuteCode,
    GetDispmanxMemoryHandle,
    GetEDIDBlock,
    AllocateBuffer,
    BlankScreen,
    GetPhysicalHeightWidth,
    GetVirtualHeightWidth,
    GetDepth,
    GetPixelOrder,
    GetAlphaMode,
    GetPitch,
    GetVirtualOffset,
    GetOverscan,
    GetPalette,
    TestPhysicalHeightWidth,
    TestVirtualHeightWidth,
    TestDepth,
    TestPixelOrder,
    TestAlphaMode,
    TestVirtualOffset,
    TestOverscan,
    TestPalette,
    ReleaseBuffer,
    SetPhysicalHeightWidth,
    SetVirtualHeightWidth,
    SetDepth,
    SetPixelOrder,
    SetAlphaMode,
    SetVirtualOffset,
    SetOverscan,
    SetPalette,
    SetCursorInfo,
    SetCursorState,
    End,
}

impl Tag {
    pub open spec fn spec_value(self) -> u32 {
        match self {
            Tag::GetFirmwareRevision => 0x00000001,
            Tag::GetBoardModel => 0x00010001,
            Tag::GetBoardRevision => 0x00010002,
            Tag::GetBoardMAC => 0x00010003,
            Tag::GetBoardSerial => 0x10004,
            Tag::GetARMMemory => 0x00010005,
            Tag::GetVCMemory => 0x00010006,
            Tag::GetClocks => 0x00010007,
            Tag::GetCommandLine => 0x00050001,
            Tag::GetDMAChannels => 0x00060001,
            Tag::GetPowerState => 0x00020001,
            Tag::GetTiming => 0x00020002,
            Tag::SetPowerState => 0x00028001,
            Tag::GetClockState => 0x00030001,
            Tag::GetClockRate => 0x00030002,
            Tag::GetMaxClockRate => 0x00030004,
            Tag::GetMinClockRate => 0x00030007,
            Tag::GetTurbo => 0x00030009,
            Tag::SetClockState => 0x00038001,
            Tag::SetClockRate => 0x00038002,
            Tag::SetTurbo => 0x00038009,
            Tag::GetVoltage => 0x00030003,
            Tag::GetMaxVoltage => 0x00030005,
            Tag::GetTemperature => 0x00030006,
            Tag::GetMinVoltage => 0x00030008,
            Tag::GetMaxTemperature => 0x0003000a,
            Tag::SetVoltage => 0x00038003,
            Tag::AllocateMemory => 0x0003000c,
            Tag::LockMemory => 0x0003000d,
            Tag::UnlockMemory => 0x0003000e,
            Tag::ReleaseMemory => 0x0003000f,
            Tag::ExecuteCode => 0x00030010,
            Tag::GetDispmanxMemoryHandle => 0x00030014,
            Tag::GetEDIDBlock => 0x00030020,
            Tag::AllocateBuffer => 0x00040001,
            Tag::BlankScreen => 0x00040002,
            Tag::GetPhysicalHeightWidth => 0x00040003,
            Tag::GetVirtualHeightWidth => 0x00040004,
            Tag::GetDepth => 0x00040005,
            Tag::GetPixelOrder => 0x00040006,
            Tag::GetAlphaMode => 0x00040007,
            Tag::GetPitch => 0x00040008,
            Tag::GetVirtualOffset => 0x00040009,
            Tag::GetOverscan => 0x0004000a,
            Tag::GetPalette => 0x0004000b,
            Tag::TestPhysicalHeightWidth => 0x00044003,
            Tag::TestVirtualHeightWidth => 0x00044004,
            Tag::TestDepth => 0x00044005,
            Tag::TestPixelOrder => 0x00044006,
            Tag::TestAlphaMode => 0x00044007,
            Tag::TestVirtualOffset => 0x00044009,
            Tag::TestOverscan => 0x0004400a,
            Tag::TestPalette => 0x0004400b,
            Tag::ReleaseBuffer => 0x00048001,
            Tag::SetPhysicalHeightWidth => 0x00048003,
            Tag::SetVirtualHeightWidth => 0x00048004,
            Tag::SetDepth => 0x00048005,
            Tag::SetPixelOrder => 0x00048006,
            Tag::SetAlphaMode => 0x00048007,
            Tag::SetVirtualOffset => 0x00048009,
            Tag::SetOverscan => 0x0004800a,
            Tag::SetPalette => 0x0004800b,
            Tag::SetCursorInfo => 0x00008010,
            Tag::SetCursorState => 0x00008011,
            Tag::End => 0,
        }
    }

    /// The tag identifier placed in word 2 of the request.
    pub fn value(self) -> (r: u32)
        ensures
            r == self.spec_value(),
    {
        match self {
            Tag::GetFirmwareRevision => 0x00000001,
            Tag::GetBoardModel => 0x00010001,
            Tag::GetBoardRevision => 0x00010002,
            Tag::GetBoardMAC => 0x00010003,
            Tag::GetBoardSerial => 0x10004,
            Tag::GetARMMemory => 0x00010005,
            Tag::GetVCMemory => 0x00010006,
            Tag::GetClocks => 0x00010007,
            Tag::GetCommandLine => 0x00050001,
            Tag::GetDMAChannels => 0x00060001,
            Tag::GetPowerState => 0x00020001,
            Tag::GetTiming => 0x00020002,
            Tag::SetPowerState => 0x00028001,
            Tag::GetClockState => 0x00030001,
            Tag::GetClockRate => 0x00030002,
            Tag::GetMaxClockRate => 0x00030004,
            Tag::GetMinClockRate => 0x00030007,
            Tag::GetTurbo => 0x00030009,
            Tag::SetClockState => 0x00038001,
            Tag::SetClockRate => 0x00038002,
            Tag::SetTurbo => 0x00038009,
            Tag::GetVoltage => 0x00030003,
            Tag::GetMaxVoltage => 0x00030005,
            Tag::GetTemperature => 0x00030006,
            Tag::GetMinVoltage => 0x00030008,
            Tag::GetMaxTemperature => 0x0003000a,
            Tag::SetVoltage => 0x00038003,
            Tag::AllocateMemory => 0x0003000c,
            Tag::LockMemory => 0x0003000d,
            Tag::UnlockMemory => 0x0003000e,
            Tag::ReleaseMemory => 0x0003000f,
            Tag::ExecuteCode => 0x00030010,
            Tag::GetDispmanxMemoryHandle => 0x00030014,
            Tag::GetEDIDBlock => 0x00030020,
            Tag::AllocateBuffer => 0x00040001,
            Tag::BlankScreen => 0x00040002,
            Tag::GetPhysicalHeightWidth => 0x00040003,
            Tag::GetVirtualHeightWidth => 0x00040004,
            Tag::GetDepth => 0x00040005,
            Tag::GetPixelOrder => 0x00040006,
            Tag::GetAlphaMode => 0x00040007,
            Tag::GetPitch => 0x00040008,
            Tag::GetVirtualOffset => 0x00040009,
            Tag::GetOverscan => 0x0004000a,
            Tag::GetPalette => 0x0004000b,
            Tag::TestPhysicalHeightWidth => 0x00044003,
            Tag::TestVirtualHeightWidth => 0x00044004,
            Tag::TestDepth => 0x00044005,
            Tag::TestPixelOrder => 0x00044006,
            Tag::TestAlphaMode => 0x00044007,
            Tag::TestVirtualOffset => 0x00044009,
            Tag::TestOverscan => 0x0004400a,
            Tag::TestPalette => 0x0004400b,
            Tag::ReleaseBuffer => 0x00048001,
            Tag::SetPhysicalHeightWidth => 0x00048003,
            Tag::SetVirtualHeightWidth => 0x00048004,
            Tag::SetDepth => 0x00048005,
            Tag::SetPixelOrder => 0x00048006,
            Tag::SetAlphaMode => 0x00048007,
            Tag::SetVirtualOffset => 0x00048009,
            Tag::SetOverscan => 0x0004800a,
            Tag::SetPalette => 0x0004800b,
            Tag::SetCursorInfo => 0x00008010,
            Tag::SetCursorState => 0x00008011,
            Tag::End => 0,
        }
    }
}

/// Power domains addressable through the power-state tags.
#[derive(Clone, Copy, Debug, PartialEq, Eq, Structural)]
pub enum Power {
    SDCard,
    Uart0,
    Uart1,
    USBHCD,
    I2C0,
    I2C1,
    I2C2,
    SPI,
    CCP2TX,
}

impl Power {
    pub open spec fn spec_value(self) -> u32 {
        match self {
            Power::SDCard => 0,
            Power::Uart0 => 1,
            Power::Uart1 => 2,
            Power::USBHCD => 3,
            Power::I2C0 => 4,
            Power::I2C1 => 5,
            Power::I2C2 => 6,
            Power::SPI => 7,
            Power::CCP2TX => 8,
        }
    }

    /// The device identifier carried in the payload.
    pub fn value(self) -> (r: u32)
        ensures
            r == self.spec_value(),
    {
        match self {
            Power::SDCard => 0,
            Power::Uart0 => 1,
            Power::Uart1 => 2,
            Power::USBHCD => 3,
            Power::I2C0 => 4,
            Power::I2C1 => 5,
            Power::I2C2 => 6,
            Power::SPI => 7,
            Power::CCP2TX => 8,
        }
    }
}

/// Clock domains addressable through the clock tags.
#[allow(non_camel_case_types)]
#[derive(Clone, Copy, Debug, PartialEq, Eq, Structural)]
pub enum Clocks {
    _reserved,
    EMMC,
    UART,
    ARM,
    CORE,
    V3D,
    H264,
    ISP,
    SDRAM,
    PIXEL,
    PWM,
    EMMC2,
}

impl Clocks {
    pub open spec fn spec_value(self) -> u32 {
        match self {
            Clocks::_reserved => 0,
            Clocks::EMMC => 1,
            Clocks::UART => 2,
            Clocks::ARM => 3,
            Clocks::CORE => 4,
            Clocks::V3D => 5,
            Clocks::H264 => 6,
            Clocks::ISP => 7,
            Clocks::SDRAM => 8,
            Clocks::PIXEL => 9,
            Clocks::PWM => 0xa,
            Clocks::EMMC2 => 0xc,
        }
    }

    /// The clock identifier carried in the payload.
    pub fn value(self) -> (r: u32)
        ensures
            r == self.spec_value(),
    {
        match self {
            Clocks::_reserved => 0,
            Clocks::EMMC => 1,
            Clocks::UART => 2,
            Clocks::ARM => 3,
            Clocks::CORE => 4,
            Clocks::V3D => 5,
            Clocks::H264 => 6,
            Clocks::ISP => 7,
            Clocks::SDRAM => 8,
            Clocks::PIXEL => 9,
            Clocks::PWM => 0xa,
            Clocks::EMMC2 => 0xc,
        }
    }
}

/// Voltage rails addressable through the voltage tags.
#[allow(non_camel_case_types)]
#[derive(Clone, Copy, Debug, PartialEq, Eq, Structural)]
pub enum Voltage {
    _reserved,
    CORE,
    SDRAM_C,
    SDRAM_P,
    SDRAM_I,
}

impl Voltage {
    pub open spec fn spec_value(self) -> u32 {
        match self {
            Voltage::_reserved => 0,
            Voltage::CORE => 1,
            Voltage::SDRAM_C => 2,
            Voltage::SDRAM_P => 3,
            Voltage::SDRAM_I => 4,
        }
    }

    /// The rail identifier carried in the payload.
    pub fn value(self) -> (r: u32)
        ensures
            r == self.spec_value(),
    {
        match self {
            Voltage::_reserved => 0,
            Voltage::CORE => 1,
            Voltage::SDRAM_C => 2,
            Voltage::SDRAM_P => 3,
            Voltage::SDRAM_I => 4,
        }
    }
}

/// Request indicator for outgoing messages.
#[derive(Clone, Copy, Debug, PartialEq, Eq, Structural)]
pub enum Request {
    Request,
}

impl Request {
    pub open spec fn spec_value(self) -> u32 {
        match self {
            Request::Request => 0,
        }
    }

    /// The request code placed in word 1.
    pub fn value(self) -> (r: u32)
        ensures
            r == self.spec_value(),
    {
        match self {
            Request::Request => 0,
        }
    }
}

/// The complete request as the layout prescribes: five header words,
/// the payload, and the end-tag word.
pub open spec fn request_words(tag: u32, payload: Seq<u32>) -> Seq<u32> {
    seq![
        (4 * (payload.len() + 6)) as u32,
        REQUEST_CODE,
        tag,
        (4 * payload.len()) as u32,
        0u32,
    ] + payload + seq![0u32]
}

/// Two response words assembled into one 64-bit value.
pub open spec fn word_pair_u64(hi: u32, lo: u32) -> u64 {
    (((hi as u64) << 32) | (lo as u64)) as u64
}

/// Result of a property call whose value lives in response word 5.
pub open spec fn word_outcome(fw: FirmwareResponse) -> Result<u32, MboxError> {
    match call_outcome(fw.code()) {
        Ok(_) => Ok(fw.buffer@[5]),
        Err(e) => Err(e),
    }
}

/// Result of a property call whose value pair lives in response words
/// 5 and 6. Every getter/setter pair of a two-word property decodes
/// through this one function, so both read the same fixed offsets.
pub open spec fn pair_outcome(fw: FirmwareResponse) -> Result<(u32, u32), MboxError> {
    match call_outcome(fw.code()) {
        Ok(_) => Ok((fw.buffer@[5], fw.buffer@[6])),
        Err(e) => Err(e),
    }
}

/// Result of a property call whose 64-bit value lives in response
/// words 5 (low half) and 6 (high half).
pub open spec fn wide_outcome(fw: FirmwareResponse) -> Result<u64, MboxError> {
    match call_outcome(fw.code()) {
        Ok(_) => Ok(word_pair_u64(fw.buffer@[6], fw.buffer@[5])),
        Err(e) => Err(e),
    }
}

/// Law: every encoded tag request declares its own length — word 0 is
/// four bytes for each word written — and its last written word is the
/// end tag 0.
pub proof fn lemma_request_well_formed(tag: u32, payload: Seq<u32>)
    requires
        payload.len() + 6 <= BUFFER_WORDS,
    ensures
        request_words(tag, payload).len() == payload.len() + 6,
        request_words(tag, payload)[0] == 4 * (payload.len() + 6),
        request_words(tag, payload).last() == 0,
{
    assert(request_words(tag, payload)[payload.len() + 5 as int] == 0);
}

/// Law: every getter/setter pair of a two-word property decodes the
/// same fixed response offsets of the completed exchange — words 5 and
/// 6 — so applying a setter and re-reading through the getter surface
/// the same pair.
pub proof fn lemma_pair_offsets_shared(fw: FirmwareResponse)
    requires
        call_outcome(fw.code()) is Ok,
    ensures
        pair_outcome(fw) == Ok::<(u32, u32), MboxError>((fw.buffer@[5], fw.buffer@[6])),
{
}

/// Everything a property call needs from its surroundings: a
/// well-formed message buffer, a well-formed observation of the
/// hardware, a 16-byte-aligned buffer address, and the guarantee that
/// the firmware's reply occurs in the observed words.
pub open spec fn property_call_pre(mail: Mail, fw: FirmwareResponse, buf_addr: u32) -> bool {
    &&& mail.wf()
    &&& fw.wf()
    &&& buf_addr & 0xF == 0
    &&& reply_arrives(fw.words@, buf_addr, Channel::ArmToVCProperty.spec_value())
}

/// The shared mailbox message buffer, one call's scratch area at a
/// time. `sent` records the request most recently encoded into it,
/// which the firmware's reply later overwrites.
pub struct Mail {
    pub buffer: Vec<u32>,
    pub sent: Ghost<Seq<u32>>,
}

impl Mail {
    pub open spec fn wf(&self) -> bool {
        self.buffer@.len() == BUFFER_WORDS
    }

    pub fn new() -> (r: Mail)
        ensures
            r.wf(),
            forall|j: int| 0 <= j < BUFFER_WORDS ==> r.buffer@[j] == 0,
    {
        let mut buffer: Vec<u32> = Vec::new();
        let mut i: usize = 0;
        while i < BUFFER_WORDS
            invariant
                i <= BUFFER_WORDS,
                buffer@.len() == i,
                forall|j: int| 0 <= j < i ==> buffer@[j] == 0,
            decreases BUFFER_WORDS - i,
        {
            buffer.push(0);
            i += 1;
        }
        Mail { buffer, sent: Ghost(Seq::empty()) }
    }

    /// Take over the buffer contents the firmware left behind.
    pub(crate) fn adopt(&mut self, buffer: &Vec<u32>)
        requires
            old(self).wf(),
            buffer@.len() == BUFFER_WORDS,
        ensures
            final(self).wf(),
            final(self).buffer@ == buffer@,
            final(self).sent == old(self).sent,
    {
        let mut i: usize = 0;
        while i < BUFFER_WORDS
            invariant
                i <= BUFFER_WORDS,
                self.buffer@.len() == BUFFER_WORDS,
                buffer@.len() == BUFFER_WORDS,
                self.sent == old(self).sent,
                forall|j: int| 0 <= j < i ==> self.buffer@[j] == buffer@[j],
            decreases BUFFER_WORDS - i,
        {
            let w = buffer[i];
            self.buffer.set(i, w);
            i += 1;
        }
        proof {
            assert(self.buffer@ =~= buffer@);
        }
    }

    /// Populate the buffer with one complete request: header, payload,
    /// end tag. Words past the end tag keep their previous contents.
    pub fn encode_request(&mut self, tag: u32, payload: &Vec<u32>)
        requires
            old(self).wf(),
            payload@.len() + 6 <= BUFFER_WORDS,
        ensures
            final(self).wf(),
            final(self).buffer@ == request_words(tag, payload@) + old(self).buffer@.skip(
                (payload@.len() + 6) as int,
            ),
            final(self).sent@ == request_words(tag, payload@),
    {
        let n = payload.len();
        self.buffer.set(0, ((n as u32) + 6) * 4);
        self.buffer.set(1, REQUEST_CODE);
        self.buffer.set(2, tag);
        self.buffer.set(3, (n as u32) * 4);
        self.buffer.set(4, 0);
        let mut i: usize = 0;
        while i < n
            invariant
                i <= n,
                n == payload@.len(),
                n + 6 <= BUFFER_WORDS,
                self.buffer@.len() == BUFFER_WORDS,
                self.buffer@[0] == (4 * (n + 6)) as u32,
                self.buffer@[1] == REQUEST_CODE,
                self.buffer@[2] == tag,
                self.buffer@[3] == (4 * n) as u32,
                self.buffer@[4] == 0u32,
                forall|j: int| 0 <= j < i ==> self.buffer@[5 + j] == payload@[j],
                forall|k: int|
                    5 + i <= k < BUFFER_WORDS ==> self.buffer@[k] == old(self).buffer@[k],
            decreases n - i,
        {
            let w = payload[i];
            self.buffer.set(5 + i, w);
            i += 1;
        }
        self.buffer.set(5 + n, 0);
        proof {
            self.sent@ = request_words(tag, payload@);
            assert(self.buffer@ =~= request_words(tag, payload@) + old(self).buffer@.skip(
                (payload@.len() + 6) as int,
            ));
        }
    }

    /// Query the board serial number.
    pub fn get_board_serial(&mut self, mbox: &mut Mbox, buf_addr: u32, fw: &FirmwareResponse)
        -> (r: Result<u64, MboxError>)
        requires
            property_call_pre(*old(self), *fw, buf_addr),
        ensures
            final(self).wf(),
            final(self).buffer@ == fw.buffer@,
            final(self).sent@ == request_words(Tag::GetBoardSerial.spec_value(), seq![0u32, 0u32]),
            r == wide_outcome(*fw),
    {
        let payload = vec![0u32, 0u32];
        self.encode_request(Tag::GetBoardSerial.value(), &payload);
        match mbox.call(self, Channel::ArmToVCProperty, buf_addr, fw) {
            Err(e) => Err(e),
            Ok(()) => {
                let lo = self.buffer[5];
                let hi = self.buffer[6];
                Ok(((hi as u64) << 32) | (lo as u64))
            },
        }
    }

    /// Query the firmware revision.
    pub fn get_firmware_revision(&mut self, mbox: &mut Mbox, buf_addr: u32, fw: &FirmwareResponse)
        -> (r: Result<u32, MboxError>)
        requires
            property_call_pre(*old(self), *fw, buf_addr),
        ensures
            final(self).wf(),
            final(self).buffer@ == fw.buffer@,
            final(self).sent@ == request_words(Tag::GetFirmwareRevision.spec_value(), seq![0u32]),
            r == word_outcome(*fw),
    {
        let payload = vec![0u32];
        proof {
            assert(payload@ =~= seq![0u32]);
        }
        self.encode_request(Tag::GetFirmwareRevision.value(), &payload);
        match mbox.call(self, Channel::ArmToVCProperty, buf_addr, fw) {
            Err(e) => Err(e),
            Ok(()) => Ok(self.buffer[5]),
        }
    }

    /// Query the board model.
    pub fn get_board_model(&mut self, mbox: &mut Mbox, buf_addr: u32, fw: &FirmwareResponse)
        -> (r: Result<u32, MboxError>)
        requires
            property_call_pre(*old(self), *fw, buf_addr),
        ensures
            final(self).wf(),
            final(self).buffer@ == fw.buffer@,
            final(self).sent@ == request_words(Tag::GetBoardModel.spec_value(), seq![0u32]),
            r == word_outcome(*fw),
    {
        let payload = vec![0u32];
        proof {
            assert(payload@ =~= seq![0u32]);
        }
        self.encode_request(Tag::GetBoardModel.value(), &payload);
        match mbox.call(self, Channel::ArmToVCProperty, buf_addr, fw) {
            Err(e) => Err(e),
            Ok(()) => Ok(self.buffer[5]),
        }
    }

    /// Query the board revision.
    pub fn get_board_revision(&mut self, mbox: &mut Mbox, buf_addr: u32, fw: &FirmwareResponse)
        -> (r: Result<u32, MboxError>)
        requires
            property_call_pre(*old(self), *fw, buf_addr),
        ensures
            final(self).wf(),
            final(self).buffer@ == fw.buffer@,
            final(self).sent@ == request_words(Tag::GetBoardRevision.spec_value(), seq![0u32]),
            r == word_outcome(*fw),
    {
        let payload = vec![0u32];
        proof {
            assert(payload@ =~= seq![0u32]);
        }
        self.encode_request(Tag::GetBoardRevision.value(), &payload);
        match mbox.call(self, Channel::ArmToVCProperty, buf_addr, fw) {
            Err(e) => Err(e),
            Ok(()) => Ok(self.buffer[5]),
        }
    }

    /// Query the board MAC address.
    pub fn get_board_mac(&mut self, mbox: &mut Mbox, buf_addr: u32, fw: &FirmwareResponse)
        -> (r: Result<u64, MboxError>)
        requires
            property_call_pre(*old(self), *fw, buf_addr),
        ensures
            final(self).wf(),
            final(self).buffer@ == fw.buffer@,
            final(self).sent@ == request_words(Tag::GetBoardMAC.spec_value(), seq![0u32, 0u32]),
            r == wide_outcome(*fw),
    {
        let payload = vec![0u32, 0u32];
        self.encode_request(Tag::GetBoardMAC.value(), &payload);
        match mbox.call(self, Channel::ArmToVCProperty, buf_addr, fw) {
            Err(e) => Err(e),
            Ok(()) => {
                let lo = self.buffer[5];
                let hi = self.buffer[6];
                Ok(((hi as u64) << 32) | (lo as u64))
            },
        }
    }

    /// Query the memory split seen by the ARM core: base and size.
    pub fn get_arm_memory(&mut self, mbox: &mut Mbox, buf_addr: u32, fw: &FirmwareResponse)
        -> (r: Result<(u32, u32), MboxError>)
        requires
            property_call_pre(*old(self), *fw, buf_addr),
        ensures
            final(self).wf(),
            final(self).buffer@ == fw.buffer@,
            final(self).sent@ == request_words(Tag::GetARMMemory.spec_value(), seq![0u32, 0u32]),
            r == pair_outcome(*fw),
    {
        let payload = vec![0u32, 0u32];
        self.encode_request(Tag::GetARMMemory.value(), &payload);
        match mbox.call(self, Channel::ArmToVCProperty, buf_addr, fw) {
            Err(e) => Err(e),
            Ok(()) => Ok((self.buffer[5], self.buffer[6])),
        }
    }

    /// Query the memory owned by the co-processor: base and size.
    pub fn get_vc_memory(&mut self, mbox: &mut Mbox, buf_addr: u32, fw: &FirmwareResponse)
        -> (r: Result<(u32, u32), MboxError>)
        requires
            property_call_pre(*old(self), *fw, buf_addr),
        ensures
            final(self).wf(),
            final(self).buffer@ == fw.buffer@,
            final(self).sent@ == request_words(Tag::GetVCMemory.spec_value(), seq![0u32, 0u32]),
            r == pair_outcome(*fw),
    {
        let payload = vec![0u32, 0u32];
        self.encode_request(Tag::GetVCMemory.value(), &payload);
        match mbox.call(self, Channel::ArmToVCProperty, buf_addr, fw) {
            Err(e) => Err(e),
            Ok(()) => Ok((self.buffer[5], self.buffer[6])),
        }
    }

    /// Query the usable DMA channel mask.
    pub fn get_dma_channels(&mut self, mbox: &mut Mbox, buf_addr: u32, fw: &FirmwareResponse)
        -> (r: Result<u32, MboxError>)
        requires
            property_call_pre(*old(self), *fw, buf_addr),
        ensures
            final(self).wf(),
            final(self).buffer@ == fw.buffer@,
            final(self).sent@ == request_words(Tag::GetDMAChannels.spec_value(), seq![0u32]),
            r == word_outcome(*fw),
    {
        let payload = vec![0u32];
        proof {
            assert(payload@ =~= seq![0u32]);
        }
        self.encode_request(Tag::GetDMAChannels.value(), &payload);
        match mbox.call(self, Channel::ArmToVCProperty, buf_addr, fw) {
            Err(e) => Err(e),
            Ok(()) => Ok(self.buffer[5]),
        }
    }

    /// Query a device's power state: device id and state word.
    pub fn get_power_state(
        &mut self,
        mbox: &mut Mbox,
        buf_addr: u32,
        fw: &FirmwareResponse,
        device: Power,
    ) -> (r: Result<(u32, u32), MboxError>)
        requires
            property_call_pre(*old(self), *fw, buf_addr),
        ensures
            final(self).wf(),
            final(self).buffer@ == fw.buffer@,
            final(self).sent@ == request_words(
                Tag::GetPowerState.spec_value(),
                seq![device.spec_value(), 0u32],
            ),
            r == pair_outcome(*fw),
    {
        let payload = vec![device.value(), 0u32];
        self.encode_request(Tag::GetPowerState.value(), &payload);
        match mbox.call(self, Channel::ArmToVCProperty, buf_addr, fw) {
            Err(e) => Err(e),
            Ok(()) => Ok((self.buffer[5], self.buffer[6])),
        }
    }

    /// Query how long a device needs after power-up, for a given state.
    pub fn get_timing(
        &mut self,
        mbox: &mut Mbox,
        buf_addr: u32,
        fw: &FirmwareResponse,
        device: Power,
        state: u32,
    ) -> (r: Result<(u32, u32), MboxError>)
        requires
            property_call_pre(*old(self), *fw, buf_addr),
        ensures
            final(self).wf(),
            final(self).buffer@ == fw.buffer@,
            final(self).sent@ == request_words(
                Tag::GetTiming.spec_value(),
                seq![device.spec_value(), state],
            ),
            r == pair_outcome(*fw),
    {
        let payload = vec![device.value(), state];
        self.encode_request(Tag::GetTiming.value(), &payload);
        match mbox.call(self, Channel::ArmToVCProperty, buf_addr, fw) {
            Err(e) => Err(e),
            Ok(()) => Ok((self.buffer[5], self.buffer[6])),
        }
    }

    /// Set a device's power state; the firmware reports the state it
    /// actually applied.
    pub fn set_power_state(
        &mut self,
        mbox: &mut Mbox,
        buf_addr: u32,
        fw: &FirmwareResponse,
        device: Power,
        state: u32,
    ) -> (r: Result<(u32, u32), MboxError>)
        requires
            property_call_pre(*old(self), *fw, buf_addr),
        ensures
            final(self).wf(),
            final(self).buffer@ == fw.buffer@,
            final(self).sent@ == request_words(
                Tag::SetPowerState.spec_value(),
                seq![device.spec_value(), state],
            ),
            r == pair_outcome(*fw),
    {
        let payload = vec![device.value(), state];
        self.encode_request(Tag::SetPowerState.value(), &payload);
        match mbox.call(self, Channel::ArmToVCProperty, buf_addr, fw) {
            Err(e) => Err(e),
            Ok(()) => Ok((self.buffer[5], self.buffer[6])),
        }
    }

    /// Query a clock's state: clock id and state word.
    pub fn get_clock_state(
        &mut self,
        mbox: &mut Mbox,
        buf_addr: u32,
        fw: &FirmwareResponse,
        clock: Clocks,
    ) -> (r: Result<(u32, u32), MboxError>)
        requires
            property_call_pre(*old(self), *fw, buf_addr),
        ensures
            final(self).wf(),
            final(self).buffer@ == fw.buffer@,
            final(self).sent@ == request_words(
                Tag::GetClockState.spec_value(),
                seq![clock.spec_value(), 0u32],
            ),
            r == pair_outcome(*fw),
    {
        let payload = vec![clock.value(), 0u32];
        self.encode_request(Tag::GetClockState.value(), &payload);
        match mbox.call(self, Channel::ArmToVCProperty, buf_addr, fw) {
            Err(e) => Err(e),
            Ok(()) => Ok((self.buffer[5], self.buffer[6])),
        }
    }

    /// Set a clock's state; the firmware reports the state it actually
    /// applied.
    pub fn set_clock_state(
        &mut self,
        mbox: &mut Mbox,
        buf_addr: u32,
        fw: &FirmwareResponse,
        clock: Clocks,
        state: u32,
    ) -> (r: Result<(u32, u32), MboxError>)
        requires
            property_call_pre(*old(self), *fw, buf_addr),
        ensures
            final(self).wf(),
            final(self).buffer@ == fw.buffer@,
            final(self).sent@ == request_words(
                Tag::SetClockState.spec_value(),
                seq![clock.spec_value(), state],
            ),
            r == pair_outcome(*fw),
    {
        let payload = vec![clock.value(), state];
        self.encode_request(Tag::SetClockState.value(), &payload);
        match mbox.call(self, Channel::ArmToVCProperty, buf_addr, fw) {
            Err(e) => Err(e),
            Ok(()) => Ok((self.buffer[5], self.buffer[6])),
        }
    }

    /// Query a clock's rate: clock id and rate in Hz.
    pub fn get_clock_rate(
        &mut self,
        mbox: &mut Mbox,
        buf_addr: u32,
        fw: &FirmwareResponse,
        clock: Clocks,
    ) -> (r: Result<(u32, u32), MboxError>)
        requires
            property_call_pre(*old(self), *fw, buf_addr),
        ensures
            final(self).wf(),
            final(self).buffer@ == fw.buffer@,
            final(self).sent@ == request_words(
                Tag::GetClockRate.spec_value(),
                seq![clock.spec_value(), 0u32],
            ),
            r == pair_outcome(*fw),
    {
        let payload = vec![clock.value(), 0u32];
        self.encode_request(Tag::GetClockRate.value(), &payload);
        match mbox.call(self, Channel::ArmToVCProperty, buf_addr, fw) {
            Err(e) => Err(e),
            Ok(()) => Ok((self.buffer[5], self.buffer[6])),
        }
    }

    /// Set a clock's rate; the firmware reports the rate it actually
    /// applied, which callers must treat as ground truth.
    pub fn set_clock_rate(
        &mut self,
        mbox: &mut Mbox,
        buf_addr: u32,
        fw: &FirmwareResponse,
        clock: Clocks,
        clock_speed: u32,
        skip_setting_turbo: u32,
    ) -> (r: Result<(u32, u32), MboxError>)
        requires
            property_call_pre(*old(self), *fw, buf_addr),
        ensures
            final(self).wf(),
            final(self).buffer@ == fw.buffer@,
            final(self).sent@ == request_words(
                Tag::SetClockRate.spec_value(),
                seq![clock.spec_value(), clock_speed, skip_setting_turbo],
            ),
            r == pair_outcome(*fw),
    {
        let payload = vec![clock.value(), clock_speed, skip_setting_turbo];
        self.encode_request(Tag::SetClockRate.value(), &payload);
        match mbox.call(self, Channel::ArmToVCProperty, buf_addr, fw) {
            Err(e) => Err(e),
            Ok(()) => Ok((self.buffer[5], self.buffer[6])),
        }
    }
}

} // verus!
