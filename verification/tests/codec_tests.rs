//! The codec: round trips, rejection of malformed input, and agreement
//! with the fixed-width little-endian wire format the processes have
//! always exchanged.

use autopower::codec::{
    decode_notification_command, decode_proxy_command, encode_notification_command,
    encode_proxy_command, notification_round_trip, proxy_round_trip,
};
use autopower::commands::{NotificationCommand, PowerConfigSelection, ProxyCommand};
use autopower::errors::DecodeError;

#[test]
fn proxy_round_trip_wired() {
    let c = ProxyCommand::ChangePowerConfig(PowerConfigSelection::Wired);
    assert_eq!(proxy_round_trip(&c), c);
    let bytes = encode_proxy_command(&c);
    assert_eq!(decode_proxy_command(&bytes).unwrap(), c);
}

#[test]
fn proxy_round_trip_battery() {
    let c = ProxyCommand::ChangePowerConfig(PowerConfigSelection::Battery);
    assert_eq!(proxy_round_trip(&c), c);
    let bytes = encode_proxy_command(&c);
    assert_eq!(decode_proxy_command(&bytes).unwrap(), c);
}

#[test]
fn proxy_encoding_is_fixed_width_little_endian() {
    let wired = encode_proxy_command(&ProxyCommand::ChangePowerConfig(
        PowerConfigSelection::Wired,
    ));
    let battery = encode_proxy_command(&ProxyCommand::ChangePowerConfig(
        PowerConfigSelection::Battery,
    ));
    assert_eq!(wired, vec![0, 0, 0, 0, 0, 0, 0, 0]);
    assert_eq!(battery, vec![0, 0, 0, 0, 1, 0, 0, 0]);
}

#[test]
fn proxy_encoding_matches_bincode() {
    // The original peers exchanged bincode's fixed-width little-endian
    // layout: a u32 variant index for the command, then one for the
    // selection.
    let wired = bincode::serialize(&(0u32, 0u32)).unwrap();
    let battery = bincode::serialize(&(0u32, 1u32)).unwrap();
    assert_eq!(
        encode_proxy_command(&ProxyCommand::ChangePowerConfig(PowerConfigSelection::Wired)),
        wired
    );
    assert_eq!(
        encode_proxy_command(&ProxyCommand::ChangePowerConfig(PowerConfigSelection::Battery)),
        battery
    );
    assert_eq!(
        decode_proxy_command(&battery).unwrap(),
        ProxyCommand::ChangePowerConfig(PowerConfigSelection::Battery)
    );
}

#[test]
fn notification_round_trip_exact() {
    let c = NotificationCommand::display("AutoPower", "Switching to Balanced.");
    let back = notification_round_trip(&c);
    assert_eq!(back.name, "display");
    assert_eq!(back.content, "AutoPower\nSwitching to Balanced.");
}

#[test]
fn notification_round_trip_unicode() {
    let c = NotificationCommand {
        name: "display".to_string(),
        content: "tïtle\nbödy — ünïcode 😀".to_string(),
    };
    let bytes = encode_notification_command(&c);
    let back = decode_notification_command(&bytes).unwrap();
    assert_eq!(back.name, c.name);
    assert_eq!(back.content, c.content);
}

#[test]
fn notification_encoding_matches_bincode() {
    // A struct of two strings serializes as two length-prefixed UTF-8
    // fields; the tuple has the same layout.
    let c = NotificationCommand {
        name: "display".to_string(),
        content: "AutoPower\nSwitching to Balanced.".to_string(),
    };
    let reference = bincode::serialize(&(c.name.clone(), c.content.clone())).unwrap();
    assert_eq!(encode_notification_command(&c), reference);
    let back = decode_notification_command(&reference).unwrap();
    assert_eq!(back.name, c.name);
    assert_eq!(back.content, c.content);
}

#[test]
fn decode_proxy_rejects_truncated() {
    assert_eq!(decode_proxy_command(&[]), Err(DecodeError::Truncated));
    assert_eq!(decode_proxy_command(&[0, 0, 0, 0]), Err(DecodeError::Truncated));
}

#[test]
fn decode_proxy_rejects_trailing() {
    assert_eq!(
        decode_proxy_command(&[0, 0, 0, 0, 0, 0, 0, 0, 0]),
        Err(DecodeError::TrailingBytes)
    );
}

#[test]
fn decode_proxy_rejects_unknown_tag() {
    assert_eq!(
        decode_proxy_command(&[1, 0, 0, 0, 0, 0, 0, 0]),
        Err(DecodeError::UnknownTag)
    );
    assert_eq!(
        decode_proxy_command(&[0, 0, 0, 0, 2, 0, 0, 0]),
        Err(DecodeError::UnknownTag)
    );
}

#[test]
fn decode_notification_rejects_truncated() {
    assert_eq!(decode_notification_command(&[]).unwrap_err(), DecodeError::Truncated);
    assert_eq!(
        decode_notification_command(&[7, 0, 0, 0, 0, 0, 0, 0]).unwrap_err(),
        DecodeError::Truncated
    );
    // Claims 100 name bytes but holds none.
    let mut b = vec![100, 0, 0, 0, 0, 0, 0, 0];
    b.extend_from_slice(&[0; 8]);
    assert_eq!(decode_notification_command(&b).unwrap_err(), DecodeError::Truncated);
}

#[test]
fn decode_notification_rejects_bad_lengths() {
    // A valid empty-empty command is 16 bytes of zeros; any extra byte
    // makes the second length wrong.
    let good = vec![0u8; 16];
    let back = decode_notification_command(&good).unwrap();
    assert_eq!(back.name, "");
    assert_eq!(back.content, "");
    let mut trailing = good.clone();
    trailing.push(0);
    assert_eq!(
        decode_notification_command(&trailing).unwrap_err(),
        DecodeError::TrailingBytes
    );
}

#[test]
fn decode_notification_rejects_invalid_utf8() {
    // One name byte, 0xFF: not UTF-8.
    let mut b = vec![1, 0, 0, 0, 0, 0, 0, 0, 0xFF];
    b.extend_from_slice(&[0; 8]);
    assert_eq!(decode_notification_command(&b).unwrap_err(), DecodeError::InvalidUtf8);
}

#[test]
fn decode_never_panics_on_arbitrary_buffers() {
    // A deterministic pseudo-random walk over buffer lengths and
    // contents: decoding must always return, never crash.
    let mut state: u64 = 0x243F_6A88_85A3_08D3;
    let mut next = move || {
        state = state.wrapping_mul(6364136223846793005).wrapping_add(1442695040888963407);
        (state >> 33) as u8
    };
    for len in 0..64usize {
        let buf: Vec<u8> = (0..len).map(|_| next()).collect();
        let _ = decode_proxy_command(&buf);
        let _ = decode_notification_command(&buf);
    }
    // Truncations and extensions of a valid encoding.
    let valid = encode_notification_command(&NotificationCommand::display("a", "b"));
    for cut in 0..valid.len() {
        assert!(decode_notification_command(&valid[..cut]).is_err());
    }
    let mut extended = valid.clone();
    extended.push(7);
    assert!(decode_notification_command(&extended).is_err());
    assert!(decode_notification_command(&valid).is_ok());
}
