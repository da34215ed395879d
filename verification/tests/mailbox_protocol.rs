use bringup::mailbox::can_receive;
use bringup::mailbox::can_send;
use bringup::mailbox::find_matching_reply;
use bringup::mailbox::reply_matches;
use bringup::mailbox::send_word;
use bringup::mailbox::Channel;
use bringup::mailbox::FirmwareResponse;
use bringup::mailbox::Mbox;
use bringup::mailbox::MboxError;
use bringup::mailbox::MboxInner;
use bringup::mailbox::Response;
use bringup::mail::Mail;
use bringup::mail::BUFFER_WORDS;

fn response_buffer(code: u32) -> Vec<u32> {
    let mut buffer = vec![0u32; BUFFER_WORDS];
    buffer[1] = code;
    buffer
}

#[test]
fn response_from_is_total() {
    assert!(matches!(Response::from(0x8000_0000), Response::Success));
    assert!(matches!(Response::from(0x8000_0001), Response::Error));
    assert!(matches!(Response::from(0), Response::UnknownError));
    assert!(matches!(Response::from(1), Response::UnknownError));
    assert!(matches!(Response::from(0x8000_0002), Response::UnknownError));
    assert!(matches!(Response::from(0x7FFF_FFFF), Response::UnknownError));
    assert!(matches!(Response::from(u32::MAX), Response::UnknownError));
}

#[test]
fn channel_identifiers() {
    assert_eq!(Channel::PowerManagement.value(), 0);
    assert_eq!(Channel::Framebuffer.value(), 1);
    assert_eq!(Channel::VirtualUART.value(), 2);
    assert_eq!(Channel::VCHIQ.value(), 3);
    assert_eq!(Channel::Leds.value(), 4);
    assert_eq!(Channel::Buttons.value(), 5);
    assert_eq!(Channel::TouchScreen.value(), 6);
    assert_eq!(Channel::Count.value(), 7);
    assert_eq!(Channel::ArmToVCProperty.value(), 8);
    assert_eq!(Channel::VCToArmProperty.value(), 9);
}

#[test]
fn status_flags_gate_the_two_phases() {
    assert!(can_send(0));
    assert!(!can_send(0x8000_0000));
    assert!(can_send(0x4000_0000));
    assert!(can_receive(0));
    assert!(!can_receive(0x4000_0000));
    assert!(can_receive(0x8000_0000));
}

#[test]
fn send_word_replaces_low_bits_with_channel() {
    assert_eq!(send_word(0x1000, Channel::ArmToVCProperty), 0x1008);
    assert_eq!(send_word(0x1230, Channel::Framebuffer), 0x1231);
}

#[test]
fn reply_matches_needs_channel_and_address() {
    assert!(reply_matches(0x108, 0x100, 8));
    assert!(!reply_matches(0x101, 0x100, 8)); // right address, other channel
    assert!(!reply_matches(0x208, 0x100, 8)); // right channel, other address
}

#[test]
fn interleaved_replies_are_skipped() {
    // Replies for other channels and other transactions interleave
    // before the matching one; all of them must be skipped.
    let words = vec![0x101, 0x208, 0x10F, 0x108, 0x108];
    assert_eq!(find_matching_reply(&words, 0x100, 8), Some(3));
}

#[test]
fn no_matching_reply_is_found_in_foreign_traffic() {
    let words = vec![0x101, 0x208, 0x10F];
    assert_eq!(find_matching_reply(&words, 0x100, 8), None);
}

#[test]
fn call_completes_only_on_its_channel() {
    let inner = MboxInner::new(0x3F00_B880);
    let mut mail = Mail::new();
    let fw = FirmwareResponse {
        // Channel-1 and wrong-address traffic precede the real reply.
        words: vec![0x101, 0x208, 0x108],
        buffer: response_buffer(0x8000_0000),
    };
    let r = inner.call(&mut mail, Channel::ArmToVCProperty, 0x100, &fw);
    assert_eq!(r, Ok(()));
    assert_eq!(mail.buffer, fw.buffer);
}

#[test]
fn call_decodes_response_error() {
    let mut mbox = Mbox::new(0x3F00_B880);
    let mut mail = Mail::new();
    let fw = FirmwareResponse {
        words: vec![0x108],
        buffer: response_buffer(0x8000_0001),
    };
    let r = mbox.call(&mut mail, Channel::ArmToVCProperty, 0x100, &fw);
    assert_eq!(r, Err(MboxError::ResponseError));
}

#[test]
fn call_decodes_unknown_error() {
    let mut mbox = Mbox::new(0x3F00_B880);
    let mut mail = Mail::new();
    let fw = FirmwareResponse {
        words: vec![0x108],
        buffer: response_buffer(0xDEAD),
    };
    let r = mbox.call(&mut mail, Channel::ArmToVCProperty, 0x100, &fw);
    assert_eq!(r, Err(MboxError::UnknownError));
}
