use cygnus::auth::challenge::ChallengeSender;
use cygnus::auth::data::{AliveType, DrContextData};
use cygnus::auth::keep_alive::{build_keep_alive_38, build_keep_alive_40, KeepAliveSender,
    KeepAliveStep};
use cygnus::common::data::crc;
use cygnus::error::JludError;

#[test]
fn challenge_sends_at_most_five_requests() {
    let mut sender = ChallengeSender::new();
    for attempt in 0..5u8 {
        let packet = sender.next_request().expect("five attempts are allowed");
        assert_eq!(packet.len(), 20);
        assert_eq!(packet[0], 0x01);
        assert_eq!(packet[1], 0x02 + attempt);
        assert_eq!(packet[4], 0x6A);
        assert_eq!(&packet[5..20], &[0u8; 15][..]);
    }
    assert!(sender.next_request().is_none());
    assert_eq!(sender.failure(), JludError::ChallengeFailed);
}

#[test]
fn challenge_response_accepted_only_with_tag_two() {
    let sender = ChallengeSender::new();
    let mut ctx = DrContextData::new();
    let mut resp = vec![0u8; 32];
    resp[0] = 0x07;
    assert!(!sender.absorb_response(&resp, &mut ctx));
    assert_eq!(ctx.salt, vec![0u8; 4]);
    resp[0] = 0x02;
    resp[4] = 0xA1;
    resp[5] = 0xA2;
    resp[6] = 0xA3;
    resp[7] = 0xA4;
    resp[20] = 10;
    resp[21] = 0;
    resp[22] = 0;
    resp[23] = 42;
    assert!(sender.absorb_response(&resp, &mut ctx));
    assert_eq!(ctx.salt, vec![0xA1, 0xA2, 0xA3, 0xA4]);
    assert_eq!(ctx.client_ip, vec![10, 0, 0, 42]);
}

#[test]
fn keep_alive_38_layout() {
    let md5a: Vec<u8> = (0..16).collect();
    let tail: Vec<u8> = (0x10..0x20).collect();
    let packet = build_keep_alive_38(&md5a, &tail, 0xAA, 0xBB);
    assert_eq!(packet.len(), 38);
    assert_eq!(packet[0], 0xFF);
    assert_eq!(&packet[1..17], &md5a[..]);
    assert_eq!(&packet[17..20], &[0, 0, 0]);
    assert_eq!(&packet[20..36], &tail[..]);
    assert_eq!(packet[36], 0xAA);
    assert_eq!(packet[37], 0xBB);
}

#[test]
fn keep_alive_40_first_layout() {
    let tail_2 = vec![0xD1, 0xD2, 0xD3, 0xD4];
    let client_ip = vec![10, 0, 0, 1];
    let packet = build_keep_alive_40(AliveType::FIRST, 9, &tail_2, &client_ip, (0x21, 0x22), 5, 6);
    assert_eq!(packet.len(), 40);
    assert_eq!(&packet[0..10], &[0x07, 9, 0x20, 0x00, 0x0B, 0x01, 0x21, 0x22, 5, 6]);
    assert_eq!(&packet[10..16], &[0u8; 6][..]);
    assert_eq!(&packet[16..20], &tail_2[..]);
    assert_eq!(&packet[20..40], &[0u8; 20][..]);
}

#[test]
fn keep_alive_40_extra_uses_fixed_marker() {
    let tail_2 = vec![0, 0, 0, 0];
    let client_ip = vec![10, 0, 0, 1];
    let packet = build_keep_alive_40(AliveType::EXTRA, 0, &tail_2, &client_ip, (0x21, 0x22), 1, 2);
    assert_eq!(packet[5], 0x01);
    assert_eq!(packet[6], 0x0F);
    assert_eq!(packet[7], 0x27);
}

#[test]
fn keep_alive_40_second_carries_crc_and_address() {
    let tail_2 = vec![0xD1, 0xD2, 0xD3, 0xD4];
    let client_ip = vec![10, 0, 0, 1];
    let packet =
        build_keep_alive_40(AliveType::SECOND, 3, &tail_2, &client_ip, (0x21, 0x22), 5, 6);
    assert_eq!(packet[5], 0x03);
    let crc_input = [&packet[0..24], &client_ip[..]].concat();
    assert_eq!(&packet[24..28], &crc(&crc_input)[..]);
    assert_eq!(&packet[28..32], &client_ip[..]);
    assert_eq!(&packet[32..40], &[0u8; 8][..]);
}

#[test]
fn sequence_counter_wraps_after_256_increments() {
    let mut sender = KeepAliveSender::new();
    for _ in 0..256 {
        sender.advance();
    }
    assert_eq!(sender.keep_40_count, 0);
    sender.keep_40_count = 255;
    sender.advance();
    assert_eq!(sender.keep_40_count, 0);
}

#[test]
fn extra_round_exactly_when_count_divisible_by_21() {
    for count in [0u8, 21, 42, 252] {
        let sender = KeepAliveSender { keep_40_count: count };
        assert!(sender.needs_extra());
    }
    for count in [1u8, 20, 22, 100, 255] {
        let sender = KeepAliveSender { keep_40_count: count };
        assert!(!sender.needs_extra());
    }
}

#[test]
fn keep_alive_round_with_extra() {
    let mut sender = KeepAliveSender::new();
    let mut ctx = DrContextData::new();
    let mut resp = vec![0u8; 32];
    resp[28] = 0x33;
    resp[29] = 0x44;
    let step = sender.on_response(KeepAliveStep::Alive38, &resp, &mut ctx);
    assert_eq!(step, KeepAliveStep::Alive40(AliveType::EXTRA));
    assert_eq!(ctx.keep_alive_version, (0x33, 0x44));
    assert_eq!(sender.keep_40_count, 0);
    let step = sender.on_response(step, &resp, &mut ctx);
    assert_eq!(step, KeepAliveStep::Alive40(AliveType::FIRST));
    assert_eq!(sender.keep_40_count, 1);
    let mut first_resp = vec![0u8; 32];
    first_resp[16] = 0xE1;
    first_resp[17] = 0xE2;
    first_resp[18] = 0xE3;
    first_resp[19] = 0xE4;
    let step = sender.on_response(step, &first_resp, &mut ctx);
    assert_eq!(step, KeepAliveStep::Alive40(AliveType::SECOND));
    assert_eq!(ctx.tail_2, vec![0xE1, 0xE2, 0xE3, 0xE4]);
    assert_eq!(sender.keep_40_count, 2);
    let step = sender.on_response(step, &resp, &mut ctx);
    assert_eq!(step, KeepAliveStep::RoundDone);
    assert_eq!(sender.keep_40_count, 3);
    assert!(sender.packet_for(step, &ctx).is_none());
}

#[test]
fn keep_alive_round_without_extra() {
    let mut sender = KeepAliveSender { keep_40_count: 1 };
    let mut ctx = DrContextData::new();
    let resp = vec![0u8; 32];
    let step = sender.on_response(KeepAliveStep::Alive38, &resp, &mut ctx);
    assert_eq!(step, KeepAliveStep::Alive40(AliveType::FIRST));
}

#[test]
fn keep_alive_packets_from_session_state() {
    let sender = KeepAliveSender::new();
    let mut ctx = DrContextData::new();
    ctx.md5a = (0..16).collect();
    ctx.tail = (0x20..0x30).collect();
    let p38 = sender.packet_for(KeepAliveStep::Alive38, &ctx).unwrap();
    assert_eq!(p38.len(), 38);
    assert_eq!(&p38[1..17], &ctx.md5a[..]);
    let p40 = sender
        .packet_for(KeepAliveStep::Alive40(AliveType::FIRST), &ctx)
        .unwrap();
    assert_eq!(p40.len(), 40);
    assert_eq!(p40[1], 0);
}

#[test]
fn session_reset_returns_to_zeroed_state() {
    let mut ctx = DrContextData::new();
    ctx.salt = vec![9, 9, 9, 9];
    ctx.tail = vec![7; 16];
    ctx.keep_alive_version = (1, 2);
    ctx.reset();
    assert_eq!(ctx, DrContextData::new());
    assert_eq!(ctx.salt, vec![0; 4]);
    assert_eq!(ctx.keep_alive_version, (0, 0));
}
