use cygnus::auth::data::DrContextData;
use cygnus::auth::login::LoginSender;
use cygnus::common::data::{checksum, ror};
use cygnus::error::JludError;
use cygnus::user::data::User;

fn fixture_user() -> User {
    User::new(b"alice".to_vec(), b"hunter2".to_vec(), vec![0, 1, 2, 3, 4, 5])
}

fn build_fixture_packet(r1: u8, r2: u8) -> (Vec<u8>, Vec<u8>) {
    let user = fixture_user();
    let host = b"host".to_vec();
    let salt = vec![1, 2, 3, 4];
    let client_ip = vec![10, 0, 0, 1];
    LoginSender::get_login_data(&user, &host, &salt, &client_ip, r1, r2)
}

#[test]
fn login_packet_header_and_first_hash() {
    let (packet, md5a) = build_fixture_packet(0xEE, 0xFF);
    // username "alice": length byte is 5 + 20
    assert_eq!(&packet[0..4], &[0x03, 0x01, 0x00, 0x19]);
    // bytes 4..20 are the digest of 0x03, 0x01, salt, password
    let expected = md5::compute([&[0x03u8, 0x01, 1, 2, 3, 4][..], b"hunter2"].concat());
    assert_eq!(&packet[4..20], &expected.0);
    assert_eq!(md5a, expected.0.to_vec());
    // pinned golden value of the same digest
    let golden = [
        0x54, 0x14, 0x9e, 0xe8, 0xec, 0xbb, 0x40, 0xf2, 0x35, 0xec, 0xf0, 0x9b, 0x5f, 0x92, 0x4a,
        0x7f,
    ];
    assert_eq!(md5a, golden.to_vec());
}

#[test]
fn login_packet_length_and_password_field_for_all_lengths() {
    let salt = vec![1, 2, 3, 4];
    let client_ip = vec![10, 0, 0, 1];
    let host = b"h".to_vec();
    for len in 1..=16usize {
        let password: Vec<u8> = (1..=len as u8).collect();
        let user = User::new(b"alice".to_vec(), password.clone(), vec![0, 1, 2, 3, 4, 5]);
        let (packet, md5a) = LoginSender::get_login_data(&user, &host, &salt, &client_ip, 7, 9);
        assert_eq!(packet.len(), 334 + len - 1);
        let expected = ror(&md5a, &password);
        assert_eq!(&packet[314..314 + len], &expected[..]);
        assert_eq!(packet[313], len as u8);
    }
}

#[test]
fn login_packet_fixed_fields() {
    let (packet, md5a) = build_fixture_packet(0xAB, 0xCD);
    // second keyed hash input ordering: 0x01, password, salt, four zero bytes
    let md5b = md5::compute([&[0x01u8][..], b"hunter2", &[1, 2, 3, 4], &[0, 0, 0, 0]].concat());
    assert_eq!(&packet[64..80], &md5b.0);
    // the hash-XOR-MAC field
    let mac = [0u8, 1, 2, 3, 4, 5];
    for i in 0..6 {
        assert_eq!(packet[58 + i], md5a[i] ^ mac[i]);
    }
    // third keyed hash: first 97 packet bytes plus four fixed tail bytes
    let md5c = md5::compute([&packet[0..97], &[0x14, 0x00, 0x07, 0x0b]].concat());
    assert_eq!(&packet[97..105], &md5c.0[0..8]);
    // client address and separators
    assert_eq!(&packet[81..85], &[10, 0, 0, 1]);
    assert_eq!(packet[56], 0x20);
    assert_eq!(packet[57], 0x05);
    assert_eq!(packet[80], 0x01);
    assert_eq!(packet[105], 0x01);
    // host name, NUL-padded to 32 bytes
    assert_eq!(&packet[110..114], b"host");
    assert_eq!(&packet[114..142], &[0u8; 28][..]);
    // DNS/DHCP filler and OS markers
    assert_eq!(&packet[142..154], &[10u8; 12][..]);
    assert_eq!(packet[162], 0x94);
    assert_eq!(packet[166], 0x06);
    assert_eq!(packet[170], 0x02);
    assert_eq!(packet[174], 0xF0);
    assert_eq!(packet[175], 0x23);
    assert_eq!(packet[178], 0x02);
    // vendor signature and version string
    assert_eq!(
        &packet[182..191],
        &[0x44, 0x72, 0x43, 0x4F, 0x4D, 0x00, 0xCF, 0x07, 0x6A]
    );
    assert_eq!(&packet[246..286], b"1c210c99585fd22ad03d35c956911aeec1eb449b");
    assert_eq!(packet[310], 0x6A);
    // trailer: marker pair, checksum, zeros, MAC, alignment, random bytes
    let plen: usize = 7;
    assert_eq!(packet[plen + 314], 0x02);
    assert_eq!(packet[plen + 315], 0x0C);
    let seed_and_mac = [0x01, 0x26, 0x07, 0x11, 0x00, 0x00, 0, 1, 2, 3, 4, 5];
    assert_eq!(&packet[plen + 316..plen + 320], &checksum(&seed_and_mac)[..]);
    assert_eq!(packet[plen + 320], 0x00);
    assert_eq!(packet[plen + 321], 0x00);
    assert_eq!(&packet[plen + 322..plen + 328], &mac);
    // password length 7: one alignment zero, then the two random bytes
    assert_eq!(packet[plen + 328], 0x00);
    assert_eq!(packet[plen + 329], 0xAB);
    assert_eq!(packet[plen + 330], 0xCD);
}

#[test]
fn build_login_records_first_hash_in_session() {
    let user = fixture_user();
    let mut ctx = DrContextData::new();
    ctx.salt = vec![1, 2, 3, 4];
    ctx.client_ip = vec![10, 0, 0, 1];
    let packet = LoginSender::build_login(&user, &mut ctx);
    assert_eq!(packet.len(), 334 + 7 - 1);
    let expected = md5::compute([&[0x03u8, 0x01, 1, 2, 3, 4][..], b"hunter2"].concat());
    assert_eq!(ctx.md5a, expected.0.to_vec());
}

#[test]
fn login_response_success_captures_tail() {
    let mut ctx = DrContextData::new();
    let mut resp = vec![0u8; 48];
    resp[0] = 0x04;
    for i in 0..16 {
        resp[23 + i] = 0x40 + i as u8;
    }
    let r = LoginSender::evaluate_response(&resp, &mut ctx);
    assert!(r.is_ok());
    assert_eq!(ctx.tail, resp[23..39].to_vec());
}

#[test]
fn login_response_error_kinds() {
    let mut ctx = DrContextData::new();
    let mut resp = vec![0u8; 48];
    resp[0] = 0x05;
    resp[4] = 0x0B;
    assert_eq!(
        LoginSender::evaluate_response(&resp, &mut ctx),
        Err(JludError::InvalidMac)
    );
    resp[4] = 0x00;
    assert_eq!(
        LoginSender::evaluate_response(&resp, &mut ctx),
        Err(JludError::InvalidUsernameOrPassword)
    );
    resp[0] = 0x09;
    assert_eq!(
        LoginSender::evaluate_response(&resp, &mut ctx),
        Err(JludError::UnknownError)
    );
    // a rejected login leaves the session state untouched
    assert_eq!(ctx.tail, vec![0u8; 16]);
}
