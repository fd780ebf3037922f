use lora_ratchet::envelope::classify_frame;
use lora_ratchet::envelope::devaddr_at;
use lora_ratchet::envelope::get_message_lenght;
use lora_ratchet::envelope::parse_frame;
use lora_ratchet::envelope::prepare_message;
use lora_ratchet::envelope::radio_buffer;
use lora_ratchet::envelope::received_bytes;
use lora_ratchet::envelope::remove_message;
use lora_ratchet::envelope::tail_from;
use lora_ratchet::envelope::unpack_edhoc_first_message;
use lora_ratchet::envelope::unpack_edhoc_message;
use lora_ratchet::envelope::EnvelopeError;
use lora_ratchet::envelope::FrameCounter;
use lora_ratchet::envelope::Inbound;
use lora_ratchet::envelope::MTYPE_DH_ACK;
use lora_ratchet::envelope::MTYPE_DH_REQUEST;
use lora_ratchet::envelope::MTYPE_DOWNLINK;
use lora_ratchet::envelope::MTYPE_EDHOC_1;
use lora_ratchet::envelope::MTYPE_EDHOC_2;
use lora_ratchet::envelope::MTYPE_EDHOC_3;
use lora_ratchet::envelope::MTYPE_EDHOC_4;
use lora_ratchet::envelope::MTYPE_UPLINK;

#[test]
fn prepare_then_remove_gives_the_parts_back() {
    let mut counter = FrameCounter::starting_at(0x0102);
    let frame = prepare_message(vec![9, 8, 7], 2, false, [0xDE, 0xAD, 0xBE, 0xEF], &mut counter);
    assert_eq!(frame, vec![2, 0x01, 0x02, 0xDE, 0xAD, 0xBE, 0xEF, 9, 8, 7]);
    assert_eq!(counter.value(), 0x0103);
    let parts = remove_message(frame);
    assert_eq!(parts._m, 2);
    assert_eq!(parts._fcntdown, [0x01, 0x02]);
    assert_eq!(parts.fcnt(), 0x0102);
    assert_eq!(parts.devaddr, [0xDE, 0xAD, 0xBE, 0xEF]);
    assert_eq!(parts.msg, vec![9, 8, 7]);
}

#[test]
fn first_message_carries_no_address() {
    let mut counter = FrameCounter::new();
    let frame = prepare_message(vec![0xAA, 0xBB], 0, true, [1, 2, 3, 4], &mut counter);
    assert_eq!(frame, vec![0x00, 0x00, 0x00, 0xAA, 0xBB]);
    assert_eq!(counter.value(), 1);
}

#[test]
fn counter_is_big_endian_on_the_wire() {
    let mut counter = FrameCounter::starting_at(0xABCD);
    let frame = prepare_message(Vec::new(), 5, false, [0, 0, 0, 0], &mut counter);
    assert_eq!(frame[1], 0xAB);
    assert_eq!(frame[2], 0xCD);
}

#[test]
fn counter_goes_up_by_one_per_frame() {
    let mut counter = FrameCounter::new();
    let mut seen: Vec<u16> = Vec::new();
    for _ in 0..5 {
        let frame = prepare_message(vec![1], 5, false, [9, 9, 9, 9], &mut counter);
        seen.push(remove_message(frame).fcnt());
    }
    assert_eq!(seen, vec![0, 1, 2, 3, 4]);
}

#[test]
fn counter_wraps_from_ffff_to_zero() {
    let mut counter = FrameCounter::starting_at(0xFFFF);
    let last = prepare_message(vec![1], 5, false, [9, 9, 9, 9], &mut counter);
    assert_eq!(&last[1..3], &[0xFF, 0xFF]);
    assert_eq!(counter.value(), 0);
    let first = prepare_message(vec![1], 5, false, [9, 9, 9, 9], &mut counter);
    assert_eq!(&first[1..3], &[0x00, 0x00]);
    assert_eq!(counter.value(), 1);
}

#[test]
fn advance_hands_out_the_current_number() {
    let mut counter = FrameCounter::starting_at(41);
    assert_eq!(counter.advance(), 41);
    assert_eq!(counter.advance(), 42);
    assert_eq!(counter.value(), 43);
}

#[test]
fn round_trip_of_an_addressed_frame() {
    let wire: Vec<u8> = vec![3, 0x12, 0x34, 0xA, 0xB, 0xC, 0xD, 1, 2, 3, 4, 5];
    let parts = remove_message(wire.clone());
    let mut counter = FrameCounter::starting_at(parts.fcnt());
    let again = prepare_message(parts.msg, parts._m, false, parts.devaddr, &mut counter);
    assert_eq!(again, wire);
}

#[test]
fn round_trip_of_a_frame_with_an_empty_payload() {
    let wire: Vec<u8> = vec![1, 0, 7, 1, 2, 3, 4];
    let parts = remove_message(wire.clone());
    assert!(parts.msg.is_empty());
    let mut counter = FrameCounter::starting_at(parts.fcnt());
    let again = prepare_message(parts.msg, parts._m, false, parts.devaddr, &mut counter);
    assert_eq!(again, wire);
}

#[test]
fn parse_frame_reads_an_addressed_frame() {
    let parts = parse_frame(&[2, 0, 1, 0xDA, 0xDB, 0xDC, 0xDD, 0x31], false).unwrap();
    assert_eq!(parts._m, 2);
    assert_eq!(parts.fcnt(), 1);
    assert_eq!(parts.devaddr, [0xDA, 0xDB, 0xDC, 0xDD]);
    assert_eq!(parts.msg, vec![0x31]);
}

#[test]
fn parse_frame_reads_a_first_message() {
    let parts = parse_frame(&[0, 0, 0, 0x11, 0x12], true).unwrap();
    assert_eq!(parts._m, 0);
    assert_eq!(parts.fcnt(), 0);
    assert_eq!(parts.devaddr, [0, 0, 0, 0]);
    assert_eq!(parts.msg, vec![0x11, 0x12]);
}

#[test]
fn parse_frame_refuses_a_short_addressed_frame() {
    assert_eq!(parse_frame(&[3, 0, 0, 1, 2], false).err(), Some(EnvelopeError::MalformedEnvelope));
    assert_eq!(parse_frame(&[3, 0, 0, 1, 2, 3], false).err(), Some(EnvelopeError::MalformedEnvelope));
    assert!(parse_frame(&[3, 0, 0, 1, 2, 3, 4], false).is_ok());
}

#[test]
fn parse_frame_refuses_a_short_first_message() {
    assert_eq!(parse_frame(&[], true).err(), Some(EnvelopeError::MalformedEnvelope));
    assert_eq!(parse_frame(&[0, 0], true).err(), Some(EnvelopeError::MalformedEnvelope));
    assert!(parse_frame(&[0, 0, 0], true).is_ok());
}

#[test]
fn radio_buffer_is_padded_with_zeros() {
    let (buffer, len) = get_message_lenght(vec![1, 2, 3]);
    assert_eq!(len, 3);
    assert_eq!(&buffer[..3], &[1, 2, 3]);
    assert!(buffer[3..].iter().all(|b| *b == 0));
}

#[test]
fn radio_buffer_of_nothing_is_all_zeros() {
    let (buffer, len) = get_message_lenght(Vec::new());
    assert_eq!(len, 0);
    assert!(buffer.iter().all(|b| *b == 0));
}

#[test]
fn radio_buffer_takes_a_full_message() {
    let message: Vec<u8> = (0..255).map(|i| i as u8).collect();
    let (buffer, len) = get_message_lenght(message.clone());
    assert_eq!(len, 255);
    assert_eq!(buffer.to_vec(), message);
}

#[test]
fn radio_buffer_refuses_what_does_not_fit() {
    assert!(radio_buffer(vec![0u8; 256]).is_none());
    let (buffer, len) = radio_buffer(vec![7u8; 255]).unwrap();
    assert_eq!(len, 255);
    assert!(buffer.iter().all(|b| *b == 7));
}

#[test]
fn received_bytes_are_the_first_len_of_the_buffer() {
    let (buffer, len) = get_message_lenght(vec![5, 6, 7, 8]);
    assert_eq!(received_bytes(&buffer, len), vec![5, 6, 7, 8]);
    assert_eq!(received_bytes(&buffer, 0), Vec::<u8>::new());
    assert_eq!(received_bytes(&buffer, 6), vec![5, 6, 7, 8, 0, 0]);
}

#[test]
fn unpack_first_message_drops_type_and_counter() {
    assert_eq!(unpack_edhoc_first_message(vec![0, 0, 0, 0x11, 0x12]), vec![0x11, 0x12]);
    assert_eq!(unpack_edhoc_first_message(vec![0, 0, 0]), Vec::<u8>::new());
}

#[test]
fn unpack_message_gives_payload_and_address() {
    let (payload, devaddr) = unpack_edhoc_message(vec![2, 0, 1, 0xDA, 0xDB, 0xDC, 0xDD, 0x31, 0x32]);
    assert_eq!(payload, vec![0x31, 0x32]);
    assert_eq!(devaddr, [0xDA, 0xDB, 0xDC, 0xDD]);
}

#[test]
fn devaddr_at_and_tail_from_slice_the_buffer() {
    let bytes: [u8; 8] = [0, 1, 2, 3, 4, 5, 6, 7];
    assert_eq!(devaddr_at(&bytes, 2), [2, 3, 4, 5]);
    assert_eq!(tail_from(&bytes, 6), vec![6, 7]);
    assert_eq!(tail_from(&bytes, 8), Vec::<u8>::new());
}

#[test]
fn classify_tells_the_four_kinds_apart() {
    assert_eq!(classify_frame(&[], 3), Inbound::Nothing);
    assert_eq!(classify_frame(&[3, 0, 0, 1, 2], 3), Inbound::Malformed);
    assert_eq!(classify_frame(&[1, 0, 0, 1, 2, 3, 4], 3), Inbound::Unexpected);
    assert_eq!(classify_frame(&[3, 0, 0, 1, 2, 3, 4], 3), Inbound::Expected);
}

#[test]
fn message_types_are_the_closed_set() {
    assert_eq!(MTYPE_EDHOC_1, 0);
    assert_eq!(MTYPE_EDHOC_2, 1);
    assert_eq!(MTYPE_EDHOC_3, 2);
    assert_eq!(MTYPE_EDHOC_4, 3);
    assert_eq!(MTYPE_UPLINK, 5);
    assert_eq!(MTYPE_DOWNLINK, 6);
    assert_eq!(MTYPE_DH_REQUEST, 7);
    assert_eq!(MTYPE_DH_ACK, 8);
}
