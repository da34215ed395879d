//! The firmware mailbox channel: a synchronous, polling-based
//! request/response exchange with the always-on co-processor over a
//! shared 16-byte-aligned buffer.
//!
//! The memory-mapped polling itself happens outside this library; what
//! the hardware made observable during one call — the successive words
//! read from the mailbox read register and the buffer contents once the
//! matching reply was posted — enters as a [`FirmwareResponse`] value,
//! and every decision taken on it is verified here: which replies are
//! skipped, which one completes the call, and how the response code is
//! decoded.

use vstd::prelude::*;

use crate::interface::DeviceDriver;
use crate::interface::DriverResult;
use crate::interface::Mutex;
use crate::mail::Mail;
use crate::sync::NullLock;

verus! {

/// Response code the firmware wrote into word 1 of the buffer: success.
pub const RESPONSE_SUCCESS: u32 = 0x8000_0000;

/// Response code for a request the firmware parsed but rejected.
pub const RESPONSE_ERROR: u32 = 0x8000_0001;

/// Typed failure of a mailbox call.
#[derive(Clone, Copy, Debug, PartialEq, Eq, Structural)]
pub enum MboxError {
    /// The firmware detected a malformed request.
    ResponseError,
    /// The response code matched no documented pattern.
    UnknownError,
}

/// The three documented response codes.
#[derive(Clone, Copy, Debug, PartialEq, Eq, Structural)]
pub enum Response {
    Success,
    Error,
    UnknownError,
}

impl Response {
    /// Decode a response-code word. Total: the two documented bit
    /// patterns map to `Success` and `Error`, everything else to
    /// `UnknownError`.
    pub fn from(value: u32) -> (r: Response)
        ensures
            r == Response::spec_from(value),
    {
        if value == RESPONSE_SUCCESS {
            Response::Success
        } else if value == RESPONSE_ERROR {
            Response::Error
        } else {
            Response::UnknownError
        }
    }

    pub open spec fn spec_from(value: u32) -> Response {
        if value == RESPONSE_SUCCESS {
            Response::Success
        } else if value == RESPONSE_ERROR {
            Response::Error
        } else {
            Response::UnknownError
        }
    }
}

/// Logical service multiplexed over the single physical mailbox. The
/// identifier of each channel is its position in this list, 0 through 9.
#[derive(Clone, Copy, Debug, PartialEq, Eq, Structural)]
pub enum Channel {
    PowerManagement,
    Framebuffer,
    VirtualUART,
    VCHIQ,
    Leds,
    Buttons,
    TouchScreen,
    Count,
    ArmToVCProperty,
    VCToArmProperty,
}

impl Channel {
    pub open spec fn spec_value(self) -> u32 {
        match self {
            Channel::PowerManagement => 0,
            Channel::Framebuffer => 1,
            Channel::VirtualUART => 2,
            Channel::VCHIQ => 3,
            Channel::Leds => 4,
            Channel::Buttons => 5,
            Channel::TouchScreen => 6,
            Channel::Count => 7,
            Channel::ArmToVCProperty => 8,
            Channel::VCToArmProperty => 9,
        }
    }

    /// The channel identifier carried in the low 4 bits of the mailbox
    /// word.
    pub fn value(self) -> (r: u32)
        ensures
            r == self.spec_value(),
    {
        match self {
            Channel::PowerManagement => 0,
            Channel::Framebuffer => 1,
            Channel::VirtualUART => 2,
            Channel::VCHIQ => 3,
            Channel::Leds => 4,
            Channel::Buttons => 5,
            Channel::TouchScreen => 6,
            Channel::Count => 7,
            Channel::ArmToVCProperty => 8,
            Channel::VCToArmProperty => 9,
        }
    }
}

/// Status-register flag: the mailbox cannot accept another write.
pub const STATUS_FULL: u32 = 0x8000_0000;

/// Status-register flag: the mailbox has no response word pending.
pub const STATUS_EMPTY: u32 = 0x4000_0000;

/// Send-phase gate: the poll of the status register ends, and the
/// tagged buffer address may be written, once the full flag is clear.
pub fn can_send(status: u32) -> (r: bool)
    ensures
        r == (status & STATUS_FULL == 0),
{
    status & STATUS_FULL == 0
}

/// Receive-phase gate: a response word may be read once the empty flag
/// is clear.
pub fn can_receive(status: u32) -> (r: bool)
    ensures
        r == (status & STATUS_EMPTY == 0),
{
    status & STATUS_EMPTY == 0
}

/// A reply word completes a call exactly when its low 4 bits equal the
/// requested channel and its high bits equal the buffer address.
pub open spec fn spec_reply_matches(word: u32, buf_addr: u32, channel: u32) -> bool {
    &&& word & 0xF == channel
    &&& word & 0xFFFF_FFF0 == buf_addr
}

/// Whether a matching reply occurs anywhere in the observed sequence of
/// read-register words. The hardware contract guarantees an eventual
/// reply, so a call is only made once this holds; without it the
/// receive phase would poll forever.
pub open spec fn reply_arrives(words: Seq<u32>, buf_addr: u32, channel: u32) -> bool {
    exists|i: int| 0 <= i < words.len() && spec_reply_matches(words[i], buf_addr, channel)
}

/// Decide whether one reply word is the matching reply for this call,
/// or interleaved traffic for another channel or transaction that must
/// be skipped.
pub fn reply_matches(word: u32, buf_addr: u32, channel: u32) -> (r: bool)
    ensures
        r == spec_reply_matches(word, buf_addr, channel),
{
    (word & 0xF) == channel && (word & 0xFFFF_FFF0) == buf_addr
}

/// The receive phase over the observed read-register words: skip every
/// reply for another channel or transaction, stop at the first match.
pub fn find_matching_reply(words: &Vec<u32>, buf_addr: u32, channel: u32) -> (r: Option<usize>)
    ensures
        match r {
            Some(i) => {
                &&& i < words@.len()
                &&& spec_reply_matches(words@[i as int], buf_addr, channel)
                &&& forall|j: int| 0 <= j < i ==> !spec_reply_matches(words@[j], buf_addr, channel)
            },
            None => forall|j: int|
                0 <= j < words@.len() ==> !spec_reply_matches(words@[j], buf_addr, channel),
        },
{
    let mut k: usize = 0;
    while k < words.len()
        invariant
            k <= words@.len(),
            forall|j: int| 0 <= j < k ==> !spec_reply_matches(words@[j], buf_addr, channel),
        decreases words@.len() - k,
    {
        if reply_matches(words[k], buf_addr, channel) {
            return Some(k);
        }
        k += 1;
    }
    None
}

/// Law: a call on one channel is never completed by a reply carrying a
/// different channel in its low 4 bits, however many valid-looking
/// replies for other channels or transactions interleave: any word the
/// receive phase accepts carries exactly the requested channel and
/// buffer address.
pub proof fn lemma_no_cross_channel_completion(
    words: Seq<u32>,
    buf_addr: u32,
    channel: u32,
    i: int,
)
    requires
        0 <= i < words.len(),
        spec_reply_matches(words[i], buf_addr, channel),
    ensures
        words[i] & 0xF == channel,
        words[i] & 0xFFFF_FFF0 == buf_addr,
{
}

/// Law: decoding a response-code word is total and exclusive. Every
/// 32-bit word maps to exactly one of the three variants; only the two
/// documented patterns map to `Success` and `Error`, and every other
/// word maps to `UnknownError`.
pub proof fn lemma_response_from_total(value: u32)
    ensures
        (Response::spec_from(value) == Response::Success) <==> value == RESPONSE_SUCCESS,
        (Response::spec_from(value) == Response::Error) <==> value == RESPONSE_ERROR,
        (Response::spec_from(value) == Response::UnknownError) <==> (value != RESPONSE_SUCCESS
            && value != RESPONSE_ERROR),
{
}

/// What the hardware made observable during one mailbox call: the
/// successive words read from the mailbox read register while polling,
/// and the shared buffer contents once the matching reply was posted.
pub struct FirmwareResponse {
    pub words: Vec<u32>,
    pub buffer: Vec<u32>,
}

impl FirmwareResponse {
    pub open spec fn wf(&self) -> bool {
        self.buffer@.len() == crate::mail::BUFFER_WORDS
    }

    /// The response-code word of the completed exchange.
    pub open spec fn code(&self) -> u32 {
        self.buffer@[1]
    }
}

/// Outcome of a call whose completed exchange carries the given
/// response-code word.
pub open spec fn call_outcome(code: u32) -> Result<(), MboxError> {
    match Response::spec_from(code) {
        Response::Success => Ok(()),
        Response::Error => Err(MboxError::ResponseError),
        Response::UnknownError => Err(MboxError::UnknownError),
    }
}

/// The mailbox device itself: the base address of its register block.
pub struct MboxInner {
    pub base_addr: usize,
}

impl MboxInner {
    pub fn new(base_addr: usize) -> (r: MboxInner)
        ensures
            r.base_addr == base_addr,
    {
        MboxInner { base_addr }
    }

    /// One synchronous request/response exchange.
    ///
    /// The caller has already populated `mail`'s buffer with a complete
    /// request. The send phase — polling the status register until the
    /// full flag clears, then writing the buffer address tagged with the
    /// channel — is a register poke performed by the shell; the word it
    /// writes is fixed by [`send_word`]. The receive phase skips every
    /// interleaved reply until the first word matching this buffer and
    /// channel, adopts the buffer contents the firmware left behind, and
    /// decodes the response-code word.
    pub fn call(&self, mail: &mut Mail, channel: Channel, buf_addr: u32, fw: &FirmwareResponse)
        -> (r: Result<(), MboxError>)
        requires
            old(mail).wf(),
            fw.wf(),
            buf_addr & 0xF == 0,
            reply_arrives(fw.words@, buf_addr, channel.spec_value()),
        ensures
            final(mail).wf(),
            final(mail).buffer@ == fw.buffer@,
            final(mail).sent == old(mail).sent,
            r == call_outcome(fw.code()),
    {
        let ch = channel.value();
        let matched = find_matching_reply(&fw.words, buf_addr, ch);
        match matched {
            None => {
                // Unreachable: a matching reply is known to occur in the
                // observed words.
                proof {
                    let i = choose|i: int|
                        0 <= i < fw.words@.len() && spec_reply_matches(fw.words@[i], buf_addr, ch);
                    assert(!spec_reply_matches(fw.words@[i], buf_addr, ch));
                }
                Err(MboxError::UnknownError)
            },
            Some(_) => {
                mail.adopt(&fw.buffer);
                match Response::from(mail.buffer[1]) {
                    Response::Success => Ok(()),
                    Response::Error => Err(MboxError::ResponseError),
                    Response::UnknownError => Err(MboxError::UnknownError),
                }
            },
        }
    }
}

/// The word the send phase writes into the mailbox: the buffer address
/// with its low 4 bits replaced by the channel identifier.
pub fn send_word(buf_addr: u32, channel: Channel) -> (r: u32)
    ensures
        r == (buf_addr & 0xFFFF_FFF0) | (channel.spec_value() & 0xF),
{
    (buf_addr & 0xFFFF_FFF0) | (channel.value() & 0xF)
}

/// Public interface to the mailbox. Every call routes through the
/// mutual-exclusion cell, so all calls of one boot sequence are strictly
/// ordered and the shared buffer has a single writer at a time.
pub struct Mbox {
    pub inner: NullLock<MboxInner>,
}

impl Mbox {
    pub fn new(base_addr: usize) -> (r: Mbox)
        ensures
            r.inner.data.base_addr == base_addr,
    {
        Mbox { inner: NullLock::new(MboxInner::new(base_addr)) }
    }

    /// Make a mailbox call; see [`MboxInner::call`].
    pub fn call(&mut self, mail: &mut Mail, channel: Channel, buf_addr: u32, fw: &FirmwareResponse)
        -> (r: Result<(), MboxError>)
        requires
            old(mail).wf(),
            fw.wf(),
            buf_addr & 0xF == 0,
            reply_arrives(fw.words@, buf_addr, channel.spec_value()),
        ensures
            final(mail).wf(),
            final(mail).buffer@ == fw.buffer@,
            final(mail).sent == old(mail).sent,
            r == call_outcome(fw.code()),
    {
        let inner = self.inner.lock();
        inner.call(mail, channel, buf_addr, fw)
    }
}

impl DeviceDriver for Mbox {
    fn compatible(&self) -> (r: &'static str)
        ensures
            r@ == "BCM2XXX Mailbox"@,
    {
        "BCM2XXX Mailbox"
    }

    fn init(&mut self) -> (r: DriverResult)
        ensures
            r == Ok::<(), ()>(()),
    {
        Ok(())
    }
}

} // verus!
