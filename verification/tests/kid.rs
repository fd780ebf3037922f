use lora_ratchet::device::keys::AsKeys;
use lora_ratchet::device::keys::StaticKeys as DeviceKeys;
use lora_ratchet::kid::find_peer_key;
use lora_ratchet::kid::kid_width;
use lora_ratchet::kid::same_kid;
use lora_ratchet::server::keys::EdKeys;
use lora_ratchet::server::keys::StaticKeys as ServerKeys;

fn ed_line(kid: Vec<u8>, fill: u8) -> EdKeys {
    EdKeys { kid, ed_static_material: [fill; 32] }
}

#[test]
fn a_kid_matches_itself() {
    assert!(same_kid(&[0xA2], &[0xA2]));
    assert!(same_kid(&[], &[]));
    assert!(same_kid(&[1, 2, 3], &[1, 2, 3]));
}

#[test]
fn a_kid_matches_its_padded_form() {
    let mut padded = [0u8; 32];
    padded[0] = 0xA2;
    assert!(same_kid(&[0xA2], &padded));
    assert!(same_kid(&padded, &[0xA2]));
    assert!(same_kid(&[0xA2, 0], &[0xA2, 0, 0, 0]));
}

#[test]
fn different_kids_do_not_match() {
    assert!(!same_kid(&[0xA2], &[0xA3]));
    assert!(!same_kid(&[0xA2], &[0xA2, 1]));
    assert!(!same_kid(&[0, 0xA2], &[0xA2]));
    assert!(!same_kid(&[0xA2], &[]));
}

#[test]
fn zeros_inside_a_kid_count() {
    assert!(!same_kid(&[1, 0, 2], &[1, 2]));
    assert!(same_kid(&[1, 0, 2, 0], &[1, 0, 2]));
}

#[test]
fn width_is_the_length_without_trailing_zeros() {
    assert_eq!(kid_width(&[]), 0);
    assert_eq!(kid_width(&[0, 0, 0]), 0);
    assert_eq!(kid_width(&[0xA2]), 1);
    assert_eq!(kid_width(&[0xA2, 0, 0]), 1);
    assert_eq!(kid_width(&[0, 0xA2, 0]), 2);
}

#[test]
fn lookup_finds_the_line_of_the_kid() {
    let lines = vec![ed_line(vec![0xA1], 1), ed_line(vec![0xA2], 2), ed_line(vec![0xA4], 4)];
    assert_eq!(find_peer_key(&lines, &[0xA2]), Some([2u8; 32]));
    assert_eq!(find_peer_key(&lines, &[0xA1]), Some([1u8; 32]));
    assert_eq!(find_peer_key(&lines, &[0xA4]), Some([4u8; 32]));
}

#[test]
fn lookup_of_an_unknown_kid_finds_nothing() {
    let lines = vec![ed_line(vec![0xA1], 1), ed_line(vec![0xA2], 2)];
    assert_eq!(find_peer_key(&lines, &[0xA3]), None);
    assert_eq!(find_peer_key(&Vec::<EdKeys>::new(), &[0xA2]), None);
}

#[test]
fn lookup_takes_the_last_line_of_a_repeated_kid() {
    let lines = vec![ed_line(vec![0xA2], 1), ed_line(vec![0xA9], 9), ed_line(vec![0xA2, 0], 3)];
    assert_eq!(find_peer_key(&lines, &[0xA2]), Some([3u8; 32]));
}

#[test]
fn lookup_gives_the_same_answer_every_time() {
    let lines = vec![ed_line(vec![0xA1], 1), ed_line(vec![0xA2], 2)];
    let first = find_peer_key(&lines, &[0xA2]);
    let second = find_peer_key(&lines, &[0xA2]);
    let wide = find_peer_key(&lines, &[0xA2, 0, 0, 0]);
    assert_eq!(first, second);
    assert_eq!(first, wide);
}

#[test]
fn lookup_reads_kids_stored_in_wide_fields() {
    let mut wide = vec![0u8; 32];
    wide[0] = 0xA2;
    let lines = vec![ed_line(wide, 7)];
    assert_eq!(find_peer_key(&lines, &[0xA2]), Some([7u8; 32]));
}

#[test]
fn device_directory_gives_the_server_key() {
    let keys = DeviceKeys {
        ed_static_material: [1; 32],
        as_keys: vec![
            AsKeys { kid: vec![0xA3], as_static_material: [0x33; 32] },
            AsKeys { kid: vec![0xB0], as_static_material: [0x44; 32] },
        ],
    };
    assert_eq!(keys.peer_key(&[0xA3]), Some([0x33; 32]));
    assert_eq!(keys.peer_key(&[0xB0]), Some([0x44; 32]));
    assert_eq!(keys.peer_key(&[0xA2]), None);
}

#[test]
fn server_directory_gives_the_device_key() {
    let keys = ServerKeys {
        as_static_material: [2; 32],
        ed_keys: vec![ed_line(vec![0xA2], 0x22)],
    };
    assert_eq!(keys.peer_key(&[0xA2]), Some([0x22; 32]));
    assert_eq!(keys.peer_key(&[0xA3]), None);
}
