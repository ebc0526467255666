//! Tests of the secure packet pipeline: framing decode, authenticated
//! decryption and payload decode, on well-formed, truncated, oversized and
//! tampered datagrams.

use makcu_bridge::handler::{PacketHandler, PipelineError};
use makcu_bridge::protocol::{Decode, DecodeError, Packet, Payload};

use chacha20poly1305::aead::Aead;
use chacha20poly1305::{ChaCha20Poly1305, Key, KeyInit, Nonce};

fn build_datagram(nonce: &[u8], ct: &[u8]) -> Vec<u8> {
    let mut out = Vec::new();
    out.extend_from_slice(nonce);
    out.extend_from_slice(&(ct.len() as u64).to_le_bytes());
    out.extend_from_slice(ct);
    out
}

fn encrypt_under(handler: &PacketHandler, nonce: &[u8], plaintext: &[u8]) -> Vec<u8> {
    let cipher = ChaCha20Poly1305::new(Key::from_slice(handler.key()));
    cipher
        .encrypt(Nonce::from_slice(nonce), plaintext)
        .expect("encryption failed")
}

#[test]
fn key_has_cipher_key_length() {
    let handler = PacketHandler::new();
    assert_eq!(handler.key().len(), 32);
}

#[test]
fn fresh_keys_differ_between_handlers() {
    let a = PacketHandler::new();
    let b = PacketHandler::new();
    assert_ne!(a.key(), b.key());
}

#[test]
fn round_trip_move_payload() {
    let handler = PacketHandler::new();
    let nonce = [7u8; 12];
    // tag 1, x = 3, y = -7, all little-endian
    let plaintext = vec![1u8, 0, 0, 0, 3, 0, 0, 0, 0xF9, 0xFF, 0xFF, 0xFF];
    let ct = encrypt_under(&handler, &nonce, &plaintext);
    let datagram = build_datagram(&nonce, &ct);
    match handler.handle_encrypted_packet(&datagram) {
        Ok(Payload::Move(x, y)) => {
            assert_eq!(x, 3);
            assert_eq!(y, -7);
        }
        other => panic!("expected Move(3, -7), got {:?}", other),
    }
}

#[test]
fn any_flipped_ciphertext_byte_fails_authentication() {
    let handler = PacketHandler::new();
    let nonce = [9u8; 12];
    let plaintext = vec![1u8, 0, 0, 0, 3, 0, 0, 0, 0xF9, 0xFF, 0xFF, 0xFF];
    let ct = encrypt_under(&handler, &nonce, &plaintext);
    let datagram = build_datagram(&nonce, &ct);
    for i in 20..datagram.len() {
        let mut tampered = datagram.clone();
        tampered[i] ^= 0x40;
        match handler.handle_encrypted_packet(&tampered) {
            Err(PipelineError::Authentication) => {}
            other => panic!("byte {} flipped: expected authentication error, got {:?}", i, other),
        }
    }
}

#[test]
fn flipped_nonce_byte_fails_authentication() {
    let handler = PacketHandler::new();
    let nonce = [3u8; 12];
    let plaintext = vec![1u8, 0, 0, 0, 1, 0, 0, 0, 2, 0, 0, 0];
    let ct = encrypt_under(&handler, &nonce, &plaintext);
    let mut datagram = build_datagram(&nonce, &ct);
    datagram[0] ^= 1;
    match handler.handle_encrypted_packet(&datagram) {
        Err(PipelineError::Authentication) => {}
        other => panic!("expected authentication error, got {:?}", other),
    }
}

#[test]
fn unknown_tag_decodes_to_unknown() {
    let handler = PacketHandler::new();
    let nonce = [1u8; 12];
    let plaintext = vec![9u8, 0, 0, 0, 1, 2, 3];
    let ct = encrypt_under(&handler, &nonce, &plaintext);
    let datagram = build_datagram(&nonce, &ct);
    match handler.handle_encrypted_packet(&datagram) {
        Ok(Payload::Unknown) => {}
        other => panic!("expected Unknown, got {:?}", other),
    }
}

#[test]
fn short_datagram_is_rejected_and_later_ones_still_served() {
    let handler = PacketHandler::new();
    match handler.handle_encrypted_packet(&[0u8; 10]) {
        Err(PipelineError::Frame(DecodeError::Truncated)) => {}
        other => panic!("expected frame truncation, got {:?}", other),
    }
    // an unrelated well-formed datagram afterwards is unaffected
    let nonce = [2u8; 12];
    let plaintext = vec![1u8, 0, 0, 0, 5, 0, 0, 0, 6, 0, 0, 0];
    let ct = encrypt_under(&handler, &nonce, &plaintext);
    let datagram = build_datagram(&nonce, &ct);
    match handler.handle_encrypted_packet(&datagram) {
        Ok(Payload::Move(5, 6)) => {}
        other => panic!("expected Move(5, 6), got {:?}", other),
    }
}

#[test]
fn oversized_declared_length_is_rejected() {
    let handler = PacketHandler::new();
    let mut datagram = Vec::new();
    datagram.extend_from_slice(&[0u8; 12]);
    datagram.extend_from_slice(&1025u64.to_le_bytes());
    match handler.handle_encrypted_packet(&datagram) {
        Err(PipelineError::Frame(DecodeError::Oversized)) => {}
        other => panic!("expected oversize rejection, got {:?}", other),
    }
}

#[test]
fn declared_length_beyond_input_is_rejected() {
    let handler = PacketHandler::new();
    let mut datagram = Vec::new();
    datagram.extend_from_slice(&[0u8; 12]);
    datagram.extend_from_slice(&8u64.to_le_bytes());
    datagram.extend_from_slice(&[0u8; 4]);
    match handler.handle_encrypted_packet(&datagram) {
        Err(PipelineError::Frame(DecodeError::Truncated)) => {}
        other => panic!("expected frame truncation, got {:?}", other),
    }
}

#[test]
fn packet_decode_matches_fixint_reference_encoding() {
    let nonce = [5u8; 12];
    let body: Vec<u8> = vec![10, 20, 30];
    let bytes = bincode::encode_to_vec((nonce, body.clone()), bincode::config::legacy())
        .expect("encoding failed");
    let pkt = Packet::from_slice(&bytes).expect("decode failed");
    assert_eq!(pkt.nonce, nonce.to_vec());
    assert_eq!(pkt.data, body);
}

#[test]
fn payload_decode_matches_fixint_reference_encoding() {
    // a variant index and its fields, as the wire lays an enum out
    let bytes = bincode::encode_to_vec((1u32, 3i32, -7i32), bincode::config::legacy())
        .expect("encoding failed");
    match Payload::from_slice(&bytes) {
        Ok(Payload::Move(3, -7)) => {}
        other => panic!("expected Move(3, -7), got {:?}", other),
    }
}

#[test]
fn payload_decode_rejects_truncated_move() {
    let bytes = vec![1u8, 0, 0, 0, 3, 0];
    match Payload::from_slice(&bytes) {
        Err(DecodeError::Truncated) => {}
        other => panic!("expected truncation, got {:?}", other),
    }
}

#[test]
fn payload_decode_tolerates_trailing_bytes() {
    let bytes = vec![0u8, 0, 0, 0, 99, 99];
    match Payload::from_slice(&bytes) {
        Ok(Payload::Unknown) => {}
        other => panic!("expected Unknown, got {:?}", other),
    }
}

#[test]
fn packet_decode_boundary_lengths() {
    // minimum frame: 12-byte nonce, zero-length data
    let mut minimal = Vec::new();
    minimal.extend_from_slice(&[4u8; 12]);
    minimal.extend_from_slice(&0u64.to_le_bytes());
    let pkt = Packet::from_slice(&minimal).expect("decode failed");
    assert_eq!(pkt.nonce, vec![4u8; 12]);
    assert!(pkt.data.is_empty());
    // the ceiling itself is accepted
    let mut at_ceiling = Vec::new();
    at_ceiling.extend_from_slice(&[4u8; 12]);
    at_ceiling.extend_from_slice(&1024u64.to_le_bytes());
    at_ceiling.extend_from_slice(&[1u8; 1024]);
    let pkt = Packet::from_slice(&at_ceiling).expect("decode failed");
    assert_eq!(pkt.data.len(), 1024);
}

#[test]
fn process_payload_moves_and_ignores() {
    let handler = PacketHandler::new();
    let cmd = handler.process_payload(&Payload::Move(500, -500));
    assert_eq!(cmd, Some(b"km.move(127,-128)\r".to_vec()));
    assert_eq!(handler.process_payload(&Payload::Unknown), None);
}
