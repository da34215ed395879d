use bringup::mail::Clocks;
use bringup::mail::Mail;
use bringup::mail::Power;
use bringup::mail::Request;
use bringup::mail::Tag;
use bringup::mail::Voltage;
use bringup::mail::BUFFER_WORDS;
use bringup::mailbox::Channel;
use bringup::mailbox::FirmwareResponse;
use bringup::mailbox::Mbox;
use bringup::mailbox::MboxError;

const BUF_ADDR: u32 = 0x80_000;
const MATCH_WORD: u32 = BUF_ADDR | 8;

fn mbox() -> Mbox {
    Mbox::new(0x3F00_B880)
}

/// A firmware observation whose completed buffer carries the given
/// words after the five-word header.
fn success_reply(values: &[u32]) -> FirmwareResponse {
    let mut buffer = vec![0u32; BUFFER_WORDS];
    buffer[1] = 0x8000_0000;
    for (i, v) in values.iter().enumerate() {
        buffer[5 + i] = *v;
    }
    FirmwareResponse { words: vec![MATCH_WORD], buffer }
}

/// A firmware observation that echoes a request buffer back with the
/// success code, the way the property channel answers a setter.
fn echo_reply(request: &Mail) -> FirmwareResponse {
    let mut buffer = request.buffer.clone();
    buffer[1] = 0x8000_0000;
    FirmwareResponse { words: vec![MATCH_WORD], buffer }
}

#[test]
fn tag_identifiers() {
    assert_eq!(Tag::GetFirmwareRevision.value(), 0x1);
    assert_eq!(Tag::GetBoardModel.value(), 0x0001_0001);
    assert_eq!(Tag::GetBoardRevision.value(), 0x0001_0002);
    assert_eq!(Tag::GetBoardMAC.value(), 0x0001_0003);
    assert_eq!(Tag::GetBoardSerial.value(), 0x0001_0004);
    assert_eq!(Tag::GetARMMemory.value(), 0x0001_0005);
    assert_eq!(Tag::GetVCMemory.value(), 0x0001_0006);
    assert_eq!(Tag::GetDMAChannels.value(), 0x0006_0001);
    assert_eq!(Tag::GetPowerState.value(), 0x0002_0001);
    assert_eq!(Tag::GetTiming.value(), 0x0002_0002);
    assert_eq!(Tag::SetPowerState.value(), 0x0002_8001);
    assert_eq!(Tag::GetClockState.value(), 0x0003_0001);
    assert_eq!(Tag::SetClockState.value(), 0x0003_8001);
    assert_eq!(Tag::GetClockRate.value(), 0x0003_0002);
    assert_eq!(Tag::SetClockRate.value(), 0x0003_8002);
    assert_eq!(Tag::End.value(), 0);
    assert_eq!(Request::Request.value(), 0);
    assert_eq!(Power::Uart0.value(), 1);
    assert_eq!(Clocks::UART.value(), 2);
    assert_eq!(Voltage::CORE.value(), 1);
}

#[test]
fn encoded_request_declares_its_length_and_ends_with_end_tag() {
    let mut mail = Mail::new();
    let payload = vec![2, 4_000_000, 0];
    mail.encode_request(Tag::SetClockRate.value(), &payload);
    // Word 0: four bytes for each of the nine words written.
    assert_eq!(mail.buffer[0], 9 * 4);
    assert_eq!(mail.buffer[1], 0);
    assert_eq!(mail.buffer[2], 0x0003_8002);
    // Word 3: the value buffer in bytes.
    assert_eq!(mail.buffer[3], 12);
    assert_eq!(mail.buffer[4], 0);
    assert_eq!(&mail.buffer[5..8], &[2, 4_000_000, 0]);
    // The last populated word is the end tag.
    assert_eq!(mail.buffer[8], 0);
}

#[test]
fn encoded_getter_request_layout() {
    let mut mail = Mail::new();
    mail.encode_request(Tag::GetBoardSerial.value(), &vec![0, 0]);
    assert_eq!(mail.buffer[0], 8 * 4);
    assert_eq!(mail.buffer[2], 0x0001_0004);
    assert_eq!(mail.buffer[3], 8);
    assert_eq!(mail.buffer[7], 0);
}

#[test]
fn get_board_serial_assembles_u64() {
    let mut mail = Mail::new();
    let fw = success_reply(&[0xDDCC_BBAA, 0x1122_3344]);
    let r = mail.get_board_serial(&mut mbox(), BUF_ADDR, &fw);
    assert_eq!(r, Ok(0x1122_3344_DDCC_BBAAu64));
}

#[test]
fn get_board_mac_assembles_u64() {
    let mut mail = Mail::new();
    let fw = success_reply(&[0x7856_3412, 0xB0DE]);
    let r = mail.get_board_mac(&mut mbox(), BUF_ADDR, &fw);
    assert_eq!(r, Ok(0x0000_B0DE_7856_3412u64));
}

#[test]
fn get_firmware_revision_reads_word_five() {
    let mut mail = Mail::new();
    let fw = success_reply(&[42]);
    assert_eq!(mail.get_firmware_revision(&mut mbox(), BUF_ADDR, &fw), Ok(42));
}

#[test]
fn get_board_model_reads_word_five() {
    let mut mail = Mail::new();
    let fw = success_reply(&[0xB827]);
    assert_eq!(mail.get_board_model(&mut mbox(), BUF_ADDR, &fw), Ok(0xB827));
}

#[test]
fn get_board_revision_reads_word_five() {
    let mut mail = Mail::new();
    let fw = success_reply(&[0xA020D3]);
    assert_eq!(mail.get_board_revision(&mut mbox(), BUF_ADDR, &fw), Ok(0xA020D3));
}

#[test]
fn get_arm_memory_reads_base_and_size() {
    let mut mail = Mail::new();
    let fw = success_reply(&[0, 0x3C00_0000]);
    assert_eq!(mail.get_arm_memory(&mut mbox(), BUF_ADDR, &fw), Ok((0, 0x3C00_0000)));
}

#[test]
fn get_vc_memory_reads_base_and_size() {
    let mut mail = Mail::new();
    let fw = success_reply(&[0x3C00_0000, 0x0400_0000]);
    assert_eq!(mail.get_vc_memory(&mut mbox(), BUF_ADDR, &fw), Ok((0x3C00_0000, 0x0400_0000)));
}

#[test]
fn get_dma_channels_reads_word_five() {
    let mut mail = Mail::new();
    let fw = success_reply(&[0x7F35]);
    assert_eq!(mail.get_dma_channels(&mut mbox(), BUF_ADDR, &fw), Ok(0x7F35));
}

#[test]
fn get_power_state_reads_pair() {
    let mut mail = Mail::new();
    let fw = success_reply(&[3, 1]);
    let r = mail.get_power_state(&mut mbox(), BUF_ADDR, &fw, Power::USBHCD);
    assert_eq!(r, Ok((3, 1)));
}

#[test]
fn get_timing_reads_pair() {
    let mut mail = Mail::new();
    let fw = success_reply(&[0, 5000]);
    let r = mail.get_timing(&mut mbox(), BUF_ADDR, &fw, Power::SDCard, 1);
    assert_eq!(r, Ok((0, 5000)));
}

#[test]
fn set_power_state_reads_applied_pair() {
    let mut mail = Mail::new();
    let fw = success_reply(&[1, 3]);
    let r = mail.set_power_state(&mut mbox(), BUF_ADDR, &fw, Power::Uart0, 3);
    assert_eq!(r, Ok((1, 3)));
}

#[test]
fn get_clock_state_reads_pair() {
    let mut mail = Mail::new();
    let fw = success_reply(&[4, 1]);
    let r = mail.get_clock_state(&mut mbox(), BUF_ADDR, &fw, Clocks::CORE);
    assert_eq!(r, Ok((4, 1)));
}

#[test]
fn set_clock_state_reads_applied_pair() {
    let mut mail = Mail::new();
    let fw = success_reply(&[4, 1]);
    let r = mail.set_clock_state(&mut mbox(), BUF_ADDR, &fw, Clocks::CORE, 1);
    assert_eq!(r, Ok((4, 1)));
}

#[test]
fn get_clock_rate_reads_pair() {
    let mut mail = Mail::new();
    let fw = success_reply(&[2, 48_000_000]);
    let r = mail.get_clock_rate(&mut mbox(), BUF_ADDR, &fw, Clocks::UART);
    assert_eq!(r, Ok((2, 48_000_000)));
}

#[test]
fn set_clock_rate_round_trip_through_echoing_firmware() {
    // Encode the set-clock-rate request, answer it with a firmware
    // that echoes the same speed, and check the decoded pair: the
    // leading element surfaces the clock value echoed at its field
    // offset, the second the applied speed. The offsets are the ones
    // the corresponding getter decodes.
    let mut request = Mail::new();
    request.encode_request(Tag::SetClockRate.value(), &vec![Clocks::UART.value(), 4_000_000, 0]);
    let fw = echo_reply(&request);

    let mut mail = Mail::new();
    let set = mail.set_clock_rate(&mut mbox(), BUF_ADDR, &fw, Clocks::UART, 4_000_000, 0);
    assert_eq!(set, Ok((Clocks::UART.value(), 4_000_000)));

    let mut mail2 = Mail::new();
    let got = mail2.get_clock_rate(&mut mbox(), BUF_ADDR, &fw, Clocks::UART);
    assert_eq!(got, set);
}

#[test]
fn firmware_rejection_surfaces_as_response_error() {
    let mut mail = Mail::new();
    let mut fw = success_reply(&[0, 0]);
    fw.buffer[1] = 0x8000_0001;
    let r = mail.get_board_serial(&mut mbox(), BUF_ADDR, &fw);
    assert_eq!(r, Err(MboxError::ResponseError));
}

#[test]
fn undocumented_code_surfaces_as_unknown_error() {
    let mut mail = Mail::new();
    let mut fw = success_reply(&[0, 0]);
    fw.buffer[1] = 0x1234_5678;
    let r = mail.get_clock_rate(&mut mbox(), BUF_ADDR, &fw, Clocks::UART);
    assert_eq!(r, Err(MboxError::UnknownError));
}

#[test]
fn property_calls_use_the_property_channel() {
    // A reply tagged for any other channel must not complete the call,
    // so a words list holding only the right address with the wrong
    // channel followed by the true reply still succeeds.
    let mut fw = success_reply(&[7]);
    fw.words = vec![BUF_ADDR | Channel::Framebuffer.value() as u32, MATCH_WORD];
    let mut mail = Mail::new();
    assert_eq!(mail.get_dma_channels(&mut mbox(), BUF_ADDR, &fw), Ok(7));
}
