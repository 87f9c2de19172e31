use lu_packets::auth::{AuthMessage, ClientOs, LuMessage};
use lu_packets::common::{decode_wstr, ServiceId};
use lu_packets::general::{GeneralMessage, Handshake};
use lu_packets::replay::{decode_auth_server_entry, ReplayError};

fn handshake_bytes() -> Vec<u8> {
    vec![0x0e, 0x9c, 0x02, 0x00, 0xaa, 0xbb, 0xcc, 0xdd, 0x04, 0x00, 0x11, 0x22]
}

fn handshake_entry() -> Vec<u8> {
    let mut b = vec![0x53, 0x00, 0x00, 0x00, 0x00, 0x00, 0x00, 0x00];
    b.extend(handshake_bytes());
    b
}

fn login_entry() -> Vec<u8> {
    let mut b = vec![0x53, 0x01, 0x00, 0x00, 0x00, 0x00, 0x00, 0x00];
    let mut body = vec![0u8; 951];
    body[0] = b'a';
    body[66] = b'p';
    body[148] = 0x09;
    body[149] = 0x04;
    body[150] = 1;
    body[919] = 8;
    body[931] = 0x94;
    body[935] = 10;
    body[947] = 2;
    b.extend(body);
    b
}

#[test]
fn handshake_decodes_fields() {
    let (h, end) = Handshake::deserialize(&handshake_bytes(), 0).unwrap();
    assert_eq!(h.network_version, 171022);
    assert_eq!(h.service_id, ServiceId::World);
    assert_eq!(end, 12);
}

#[test]
fn handshake_underrun_and_bad_service() {
    assert!(Handshake::deserialize(&handshake_bytes()[..11], 0).is_none());
    let mut b = handshake_bytes();
    b[8] = 3;
    assert!(Handshake::deserialize(&b, 0).is_none());
}

#[test]
fn auth_entry_with_handshake() {
    match decode_auth_server_entry(&handshake_entry()) {
        Ok(LuMessage::General(GeneralMessage::Handshake(h))) => {
            assert_eq!(h.network_version, 171022);
        }
        other => panic!("unexpected {:?}", other),
    }
}

#[test]
fn auth_entry_with_login_request() {
    match decode_auth_server_entry(&login_entry()) {
        Ok(LuMessage::Auth(AuthMessage::LoginRequest(l))) => {
            assert_eq!(l.username.units.len(), 33);
            assert_eq!(l.username.units[0], b'a' as u16);
            assert_eq!(l.password.units.len(), 41);
            assert_eq!(l.password.units[0], b'p' as u16);
            assert_eq!(l.locale_id, 0x0409);
            assert_eq!(l.client_os, ClientOs::Windows);
            assert_eq!(l.computer_stats.memory_stats.units.len(), 256);
            assert_eq!(l.computer_stats.video_card_info.units.len(), 128);
            assert_eq!(l.computer_stats.processor_info.number_of_processors, 8);
            assert_eq!(l.computer_stats.os_info.os_version_info_size, 0x94);
            assert_eq!(l.computer_stats.os_info.major_version, 10);
            assert_eq!(l.computer_stats.os_info.platform_id, 2);
        }
        other => panic!("unexpected {:?}", other),
    }
}

#[test]
fn auth_entry_leftover_bytes() {
    let mut b = handshake_entry();
    b.extend([0, 0, 0]);
    assert_eq!(
        decode_auth_server_entry(&b).err(),
        Some(ReplayError::IncompleteConsumption { declared: 23, remaining: 3 })
    );
}

#[test]
fn auth_entry_malformed() {
    let b = handshake_entry();
    assert_eq!(decode_auth_server_entry(&b[..19]).err(), Some(ReplayError::Malformed));
    assert_eq!(decode_auth_server_entry(&[]).err(), Some(ReplayError::Malformed));
    let mut wrong_id = handshake_entry();
    wrong_id[0] = 0x24;
    assert_eq!(decode_auth_server_entry(&wrong_id).err(), Some(ReplayError::Malformed));
    let mut wrong_service = handshake_entry();
    wrong_service[1] = 2;
    assert_eq!(decode_auth_server_entry(&wrong_service).err(), Some(ReplayError::Malformed));
    let mut bad_os = login_entry();
    bad_os[158] = 3;
    assert_eq!(decode_auth_server_entry(&bad_os).err(), Some(ReplayError::Malformed));
}

#[test]
fn wide_strings_read_little_endian() {
    let (w, end) = decode_wstr(&[0x41, 0x00, 0x00, 0x01, 0x07], 0, 2).unwrap();
    assert_eq!(w.units, vec![0x41, 0x100]);
    assert_eq!(end, 4);
    assert!(decode_wstr(&[0x41, 0x00, 0x00], 0, 2).is_none());
}
