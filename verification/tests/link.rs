//! Tests of the device command builders, the response framing, and the
//! worker's decision logic.

use makcu_bridge::commands::{
    buttons_command, command_bytes, lock_ml_command, lock_ms1_command, mode_switch_frame,
    move_command, press_command, release_command, version_command, BaudRate, DeviceWrite,
    HighSpeed, Normal,
};
use makcu_bridge::framing::{parse_telegram, split_frames, ReadBuffer, MAX_BUFFER_SIZE};
use makcu_bridge::muxer::{
    reply_for, telegrams_in, worker_step, worker_survives, Command, Error, QueuePoll, WorkerAction,
};
use makcu_bridge::server::{ack_reply, is_client_hello, wheel_unlock_writes};
use makcu_bridge::{check_version, is_target_device};

#[test]
fn move_command_clamps_both_axes() {
    assert_eq!(move_command(500, -500), b"km.move(127,-128)\r".to_vec());
    assert_eq!(move_command(3, -7), b"km.move(3,-7)\r".to_vec());
    assert_eq!(move_command(0, 0), b"km.move(0,0)\r".to_vec());
    assert_eq!(move_command(127, -128), b"km.move(127,-128)\r".to_vec());
    assert_eq!(move_command(128, -129), b"km.move(127,-128)\r".to_vec());
    assert_eq!(move_command(-45, 100), b"km.move(-45,100)\r".to_vec());
}

#[test]
fn literal_commands_are_byte_exact() {
    assert_eq!(version_command(), b"km.version()\r".to_vec());
    assert_eq!(press_command(), b"km.left(1)\r".to_vec());
    assert_eq!(release_command(), b"km.left(0)\r".to_vec());
    assert_eq!(lock_ml_command(true), b"km.lock_ml(1)\r".to_vec());
    assert_eq!(lock_ml_command(false), b"km.lock_ml(0)\r".to_vec());
    assert_eq!(lock_ms1_command(true), b"km.lock_ms1(1)\r".to_vec());
    assert_eq!(lock_ms1_command(false), b"km.lock_ms1(0)\r".to_vec());
    assert_eq!(buttons_command(), b"km.buttons(1)\r".to_vec());
}

#[test]
fn mode_switch_frame_is_byte_exact() {
    assert_eq!(
        mode_switch_frame(4_000_000),
        vec![0xDE, 0xAD, 0x05, 0x00, 0xA5, 0x00, 0x09, 0x3D, 0x00]
    );
}

#[test]
fn command_bytes_maps_every_write() {
    assert_eq!(command_bytes(&DeviceWrite::LockPrimary), b"km.lock_ml(1)\r".to_vec());
    assert_eq!(command_bytes(&DeviceWrite::LockSecondary), b"km.lock_ms1(1)\r".to_vec());
    assert_eq!(command_bytes(&DeviceWrite::UnlockPrimary), b"km.lock_ml(0)\r".to_vec());
    assert_eq!(command_bytes(&DeviceWrite::UnlockSecondary), b"km.lock_ms1(0)\r".to_vec());
    assert_eq!(command_bytes(&DeviceWrite::PressDown), b"km.left(1)\r".to_vec());
    assert_eq!(command_bytes(&DeviceWrite::PressUp), b"km.left(0)\r".to_vec());
    assert_eq!(command_bytes(&DeviceWrite::Move(200, 5)), b"km.move(127,5)\r".to_vec());
}

#[test]
fn baud_rates() {
    assert_eq!(Normal::baud_rate(), 115_200);
    assert_eq!(HighSpeed::baud_rate(), 4_000_000);
}

#[test]
fn version_string_check() {
    assert!(check_version("km.MAKCU"));
    assert!(!check_version("km.OTHER"));
    assert!(!check_version(""));
}

#[test]
fn target_device_identifiers() {
    assert!(is_target_device(0x1A86, 0x55D3));
    assert!(!is_target_device(0x1A86, 0x55D4));
    assert!(!is_target_device(0x046D, 0x55D3));
}

#[test]
fn split_frames_on_batched_replies() {
    let frames = split_frames(b"km.MAKCU\r\n>>> km.\x01\r\n>>> tail");
    assert_eq!(frames, vec![b"km.MAKCU".to_vec(), b"km.\x01".to_vec(), b"tail".to_vec()]);
}

#[test]
fn split_frames_drops_empty_segments() {
    let frames = split_frames(b"\r\n>>> \r\n>>> x\r\n>>> ");
    assert_eq!(frames, vec![b"x".to_vec()]);
}

#[test]
fn split_frames_of_empty_input() {
    assert!(split_frames(b"").is_empty());
}

#[test]
fn split_frames_without_terminator_keeps_whole_buffer() {
    let frames = split_frames(b"partial reply");
    assert_eq!(frames, vec![b"partial reply".to_vec()]);
}

#[test]
fn read_buffer_accumulates_until_complete() {
    let mut buf = ReadBuffer::new();
    assert!(!buf.is_complete());
    buf.push_chunk(b"km.MAKCU\r\n");
    assert!(!buf.is_complete());
    buf.push_chunk(b">>> ");
    assert!(buf.is_complete());
    let bytes = buf.take();
    assert_eq!(bytes, b"km.MAKCU\r\n>>> ".to_vec());
    assert!(!buf.is_complete());
}

#[test]
fn read_buffer_resets_when_overgrown() {
    let mut buf = ReadBuffer::new();
    buf.push_chunk(&vec![0u8; MAX_BUFFER_SIZE]);
    // one more byte overruns the bound: everything is discarded
    buf.push_chunk(b"x");
    assert_eq!(buf.take(), Vec::<u8>::new());
}

#[test]
fn telegram_parsing() {
    assert_eq!(parse_telegram(b"km.\x05"), Some(5));
    assert_eq!(parse_telegram(b"km.\x00"), Some(0));
    assert_eq!(parse_telegram(b"km.\x1F"), Some(31));
    // a status byte at or above 32 is not a telegram
    assert_eq!(parse_telegram(b"km. "), None);
    assert_eq!(parse_telegram(b"kb.\x05"), None);
    assert_eq!(parse_telegram(b"km."), None);
    assert_eq!(parse_telegram(b"km.\x05\x05"), None);
}

#[test]
fn telegrams_in_frames() {
    let frames = vec![b"km.MAKCU".to_vec(), b"km.\x05".to_vec(), b"km.\x00".to_vec()];
    assert_eq!(telegrams_in(&frames), vec![5, 0]);
}

#[test]
fn reply_is_first_frame_or_empty() {
    assert_eq!(reply_for(&vec![]), Vec::<u8>::new());
    let frames = vec![b"a".to_vec(), b"b".to_vec()];
    assert_eq!(reply_for(&frames), b"a".to_vec());
}

#[test]
fn worker_decisions() {
    assert!(matches!(
        worker_step(QueuePoll::Received(Command::Write(b"x\r".to_vec()))),
        WorkerAction::SendBytes(b) if b == b"x\r".to_vec()
    ));
    assert!(matches!(
        worker_step(QueuePoll::Received(Command::WriteRead(b"y\r".to_vec()))),
        WorkerAction::Transact(b) if b == b"y\r".to_vec()
    ));
    assert!(matches!(worker_step(QueuePoll::Received(Command::Close)), WorkerAction::Stop));
    assert!(matches!(worker_step(QueuePoll::Empty), WorkerAction::PollTelegrams));
    assert!(matches!(worker_step(QueuePoll::Disconnected), WorkerAction::Stop));
}

#[test]
fn only_timeouts_are_survivable() {
    assert!(worker_survives(&Error::IoTimeout));
    assert!(!worker_survives(&Error::ChannelClosed));
    assert!(!worker_survives(&Error::Io));
}

#[test]
fn discovery_handshake() {
    assert!(is_client_hello(b"bridge-client-request"));
    assert!(!is_client_hello(b"bridge-client-reques"));
    assert!(!is_client_hello(b"bridge-client-requests"));
    assert!(!is_client_hello(b"bridge-client-requesT"));
    assert!(!is_client_hello(b""));
    assert_eq!(ack_reply(), b"ack".to_vec());
}

#[test]
fn wheel_gesture_releases_and_unlocks() {
    assert_eq!(
        wheel_unlock_writes(0b0000_0100),
        vec![DeviceWrite::PressUp, DeviceWrite::UnlockPrimary]
    );
    assert_eq!(wheel_unlock_writes(0b0000_0101).len(), 2);
    assert!(wheel_unlock_writes(0b0000_0000).is_empty());
    assert!(wheel_unlock_writes(0b0000_1011).is_empty());
}
