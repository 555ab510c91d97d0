//! The framed binary codec for the two command sets.
//!
//! Every message on a channel is the encoding of exactly one command,
//! written and read in a single call.  The format is the fixed-width
//! little-endian layout the processes have always exchanged: an enum is a
//! `u32` variant index followed by its payload, and a string is a `u64`
//! byte length followed by its UTF-8 bytes.
//!
//! `decode` is the exact inverse of `encode`: it succeeds precisely on the
//! byte sequences `encode` produces, and then returns the unique command
//! that encodes to them.  Any other input is rejected with a
//! [`DecodeError`], never a crash.

use vstd::prelude::*;
use vstd::bytes::*;
use vstd::slice::slice_subrange;
use vstd::string::StrSliceExecFns;
use vstd::utf8::{encode_utf8, valid_utf8, encode_utf8_valid_utf8, encode_utf8_decode_utf8};

use crate::commands::{NotificationCommand, PowerConfigSelection, ProxyCommand};
use crate::errors::DecodeError;

verus! {

/// Variant index of a [`PowerConfigSelection`] on the wire.
pub open spec fn spec_selection_tag(s: PowerConfigSelection) -> u32 {
    match s {
        PowerConfigSelection::Wired => 0,
        PowerConfigSelection::Battery => 1,
    }
}

/// The byte encoding of a [`ProxyCommand`]: the command's variant index,
/// then the selection's variant index, both as little-endian `u32`.
pub open spec fn spec_encode_proxy(c: ProxyCommand) -> Seq<u8> {
    match c {
        ProxyCommand::ChangePowerConfig(s) => spec_u32_to_le_bytes(0u32) + spec_u32_to_le_bytes(
            spec_selection_tag(s),
        ),
    }
}

/// Encodes a [`ProxyCommand`] for a single channel write.
pub fn encode_proxy_command(c: &ProxyCommand) -> (r: Vec<u8>)
    ensures
        r@ == spec_encode_proxy(*c),
        r@.len() == 8,
{
    let sel: u32 = match c {
        ProxyCommand::ChangePowerConfig(PowerConfigSelection::Wired) => 0,
        ProxyCommand::ChangePowerConfig(PowerConfigSelection::Battery) => 1,
    };
    let mut out = u32_to_le_bytes(0);
    let mut sel_bytes = u32_to_le_bytes(sel);
    out.append(&mut sel_bytes);
    proof {
        lemma_auto_spec_u32_to_from_le_bytes();
    }
    out
}

/// Both halves of a valid proxy encoding are recoverable from it.
proof fn lemma_proxy_encoding_shape(c: ProxyCommand)
    ensures
        spec_encode_proxy(c).len() == 8,
        spec_encode_proxy(c).subrange(0, 4) == spec_u32_to_le_bytes(0u32),
        spec_encode_proxy(c).subrange(4, 8) == spec_u32_to_le_bytes(
            spec_selection_tag(c->ChangePowerConfig_0),
        ),
{
    lemma_auto_spec_u32_to_from_le_bytes();
    let s = c->ChangePowerConfig_0;
    assert(spec_encode_proxy(c).subrange(0, 4) =~= spec_u32_to_le_bytes(0u32));
    assert(spec_encode_proxy(c).subrange(4, 8) =~= spec_u32_to_le_bytes(spec_selection_tag(s)));
}

/// Decodes one received message as a [`ProxyCommand`].
///
/// Succeeds exactly on the outputs of [`encode_proxy_command`], returning
/// the unique command with that encoding; every other byte sequence is
/// rejected.
pub fn decode_proxy_command(b: &[u8]) -> (r: Result<ProxyCommand, DecodeError>)
    ensures
        match r {
            Ok(c) => spec_encode_proxy(c) == b@ && (forall|c2: ProxyCommand|
                spec_encode_proxy(c2) == b@ ==> c2 == c),
            Err(_) => forall|c2: ProxyCommand| spec_encode_proxy(c2) != b@,
        },
{
    proof {
        lemma_auto_spec_u32_to_from_le_bytes();
    }
    if b.len() != 8 {
        proof {
            assert forall|c2: ProxyCommand| spec_encode_proxy(c2) != b@ by {
                lemma_proxy_encoding_shape(c2);
            }
        }
        return Err(if b.len() < 8 {
            DecodeError::Truncated
        } else {
            DecodeError::TrailingBytes
        });
    }
    let tag = u32_from_le_bytes(slice_subrange(b, 0, 4));
    if tag != 0 {
        proof {
            assert forall|c2: ProxyCommand| spec_encode_proxy(c2) != b@ by {
                lemma_proxy_encoding_shape(c2);
                if spec_encode_proxy(c2) == b@ {
                    assert(b@.subrange(0, 4) == spec_u32_to_le_bytes(0u32));
                }
            }
        }
        return Err(DecodeError::UnknownTag);
    }
    let sel = u32_from_le_bytes(slice_subrange(b, 4, 8));
    if sel == 0 || sel == 1 {
        let c = if sel == 0 {
            ProxyCommand::ChangePowerConfig(PowerConfigSelection::Wired)
        } else {
            ProxyCommand::ChangePowerConfig(PowerConfigSelection::Battery)
        };
        proof {
            lemma_proxy_encoding_shape(c);
            assert(spec_encode_proxy(c) =~= b@);
            assert forall|c2: ProxyCommand| spec_encode_proxy(c2) == b@ implies c2 == c by {
                lemma_proxy_encoding_shape(c2);
            }
        }
        Ok(c)
    } else {
        proof {
            assert forall|c2: ProxyCommand| spec_encode_proxy(c2) != b@ by {
                lemma_proxy_encoding_shape(c2);
                if spec_encode_proxy(c2) == b@ {
                    assert(b@.subrange(4, 8) == spec_u32_to_le_bytes(
                        spec_selection_tag(c2->ChangePowerConfig_0),
                    ));
                }
            }
        }
        Err(DecodeError::UnknownTag)
    }
}

/// The byte encoding of one string field: its UTF-8 byte length as a
/// little-endian `u64`, then its UTF-8 bytes.
pub open spec fn spec_encode_text(s: Seq<char>) -> Seq<u8> {
    spec_u64_to_le_bytes(encode_utf8(s).len() as u64) + encode_utf8(s)
}

/// The byte encoding of a [`NotificationCommand`]: its two string fields
/// in order.
pub open spec fn spec_encode_notification(name: Seq<char>, content: Seq<char>) -> Seq<u8> {
    spec_encode_text(name) + spec_encode_text(content)
}

/// Relies on `core::str::from_utf8`: it succeeds exactly on valid UTF-8
/// and returns the string those bytes encode.
#[verifier::external_body]
fn utf8_to_string(v: &[u8]) -> (r: Option<String>)
    ensures
        match r {
            Some(s) => encode_utf8(s@) == v@,
            None => !valid_utf8(v@),
        },
        valid_utf8(v@) ==> r is Some,
{
    match core::str::from_utf8(v) {
        Ok(s) => Some(s.to_string()),
        Err(_) => None,
    }
}

/// Encodes one string field.
fn encode_text(s: &str) -> (r: Vec<u8>)
    ensures
        r@ == spec_encode_text(s@),
        r@.len() == 8 + encode_utf8(s@).len(),
{
    let mut bytes = s.as_bytes_vec();
    let n = bytes.len();
    let mut out = u64_to_le_bytes(n as u64);
    out.append(&mut bytes);
    out
}

/// Encodes a [`NotificationCommand`] for a single channel write.
pub fn encode_notification_command(c: &NotificationCommand) -> (r: Vec<u8>)
    ensures
        r@ == spec_encode_notification(c.name@, c.content@),
{
    let mut out = encode_text(c.name.as_str());
    let mut tail = encode_text(c.content.as_str());
    out.append(&mut tail);
    out
}

/// Every part of a valid notification encoding is recoverable from it,
/// provided the whole fits in an addressable byte sequence.
proof fn lemma_notification_encoding_shape(name: Seq<char>, content: Seq<char>)
    requires
        spec_encode_notification(name, content).len() <= usize::MAX,
    ensures
        ({
            let e = spec_encode_notification(name, content);
            let k1 = encode_utf8(name).len() as int;
            let k2 = encode_utf8(content).len() as int;
            &&& e.len() == 16 + k1 + k2
            &&& k1 as u64 == k1
            &&& k2 as u64 == k2
            &&& e.subrange(0, 8) == spec_u64_to_le_bytes(k1 as u64)
            &&& e.subrange(8, 8 + k1) == encode_utf8(name)
            &&& e.subrange(8 + k1, 16 + k1) == spec_u64_to_le_bytes(k2 as u64)
            &&& e.subrange(16 + k1, e.len() as int) == encode_utf8(content)
        }),
{
    lemma_auto_spec_u64_to_from_le_bytes();
    let e = spec_encode_notification(name, content);
    let k1 = encode_utf8(name).len() as int;
    let k2 = encode_utf8(content).len() as int;
    assert(e.subrange(0, 8) =~= spec_u64_to_le_bytes(k1 as u64));
    assert(e.subrange(8, 8 + k1) =~= encode_utf8(name));
    assert(e.subrange(8 + k1, 16 + k1) =~= spec_u64_to_le_bytes(k2 as u64));
    assert(e.subrange(16 + k1, e.len() as int) =~= encode_utf8(content));
}

/// Decodes one received message as a [`NotificationCommand`].
///
/// Succeeds exactly on the outputs of [`encode_notification_command`],
/// returning the unique field values with that encoding; every other byte
/// sequence is rejected.
pub fn decode_notification_command(b: &[u8]) -> (r: Result<NotificationCommand, DecodeError>)
    ensures
        match r {
            Ok(c) => spec_encode_notification(c.name@, c.content@) == b@ && (forall|
                n2: Seq<char>,
                t2: Seq<char>,
            |
                spec_encode_notification(n2, t2) == b@ ==> n2 == c.name@ && t2 == c.content@),
            Err(_) => forall|n2: Seq<char>, t2: Seq<char>|
                spec_encode_notification(n2, t2) != b@,
        },
{
    broadcast use encode_utf8_valid_utf8;

    proof {
        lemma_auto_spec_u64_to_from_le_bytes();
    }
    let total = b.len();
    if total < 16 {
        proof {
            assert forall|n2: Seq<char>, t2: Seq<char>|
                spec_encode_notification(n2, t2) != b@ by {
                if spec_encode_notification(n2, t2) == b@ {
                    lemma_notification_encoding_shape(n2, t2);
                }
            }
        }
        return Err(DecodeError::Truncated);
    }
    let l1_u64 = u64_from_le_bytes(slice_subrange(b, 0, 8));
    if l1_u64 > (total - 16) as u64 {
        proof {
            assert forall|n2: Seq<char>, t2: Seq<char>|
                spec_encode_notification(n2, t2) != b@ by {
                if spec_encode_notification(n2, t2) == b@ {
                    lemma_notification_encoding_shape(n2, t2);
                    assert(b@.subrange(0, 8) == spec_u64_to_le_bytes(
                        encode_utf8(n2).len() as u64,
                    ));
                }
            }
        }
        return Err(DecodeError::Truncated);
    }
    let l1 = l1_u64 as usize;
    let name_bytes = slice_subrange(b, 8, 8 + l1);
    let name = match utf8_to_string(name_bytes) {
        Some(s) => s,
        None => {
            proof {
                assert forall|n2: Seq<char>, t2: Seq<char>|
                    spec_encode_notification(n2, t2) != b@ by {
                    if spec_encode_notification(n2, t2) == b@ {
                        lemma_notification_encoding_shape(n2, t2);
                        assert(b@.subrange(0, 8) == spec_u64_to_le_bytes(
                            encode_utf8(n2).len() as u64,
                        ));
                        assert(encode_utf8(n2) == name_bytes@);
                    }
                }
            }
            return Err(DecodeError::InvalidUtf8);
        },
    };
    let l2_u64 = u64_from_le_bytes(slice_subrange(b, 8 + l1, 16 + l1));
    if l2_u64 != (total - 16 - l1) as u64 {
        proof {
            assert forall|n2: Seq<char>, t2: Seq<char>|
                spec_encode_notification(n2, t2) != b@ by {
                if spec_encode_notification(n2, t2) == b@ {
                    lemma_notification_encoding_shape(n2, t2);
                    assert(b@.subrange(0, 8) == spec_u64_to_le_bytes(
                        encode_utf8(n2).len() as u64,
                    ));
                    let k1 = encode_utf8(n2).len() as int;
                    assert(b@.subrange(8 + k1, 16 + k1) == spec_u64_to_le_bytes(
                        encode_utf8(t2).len() as u64,
                    ));
                }
            }
        }
        return Err(if l2_u64 > (total - 16 - l1) as u64 {
            DecodeError::Truncated
        } else {
            DecodeError::TrailingBytes
        });
    }
    let content_bytes = slice_subrange(b, 16 + l1, total);
    let content = match utf8_to_string(content_bytes) {
        Some(s) => s,
        None => {
            proof {
                assert forall|n2: Seq<char>, t2: Seq<char>|
                    spec_encode_notification(n2, t2) != b@ by {
                    if spec_encode_notification(n2, t2) == b@ {
                        lemma_notification_encoding_shape(n2, t2);
                        assert(b@.subrange(0, 8) == spec_u64_to_le_bytes(
                            encode_utf8(n2).len() as u64,
                        ));
                        let k1 = encode_utf8(n2).len() as int;
                        assert(encode_utf8(t2) == content_bytes@);
                    }
                }
            }
            return Err(DecodeError::InvalidUtf8);
        },
    };
    proof {
        assert(spec_encode_notification(name@, content@) == b@) by {
            assert(encode_utf8(name@).len() == l1);
            assert(spec_encode_notification(name@, content@) =~= spec_u64_to_le_bytes(l1_u64)
                + name_bytes@ + spec_u64_to_le_bytes(l2_u64) + content_bytes@);
            assert(b@ =~= b@.subrange(0, 8) + b@.subrange(8, 8 + l1 as int) + b@.subrange(
                8 + l1 as int,
                16 + l1 as int,
            ) + b@.subrange(16 + l1 as int, total as int));
            assert(b@.subrange(0, 8) == spec_u64_to_le_bytes(l1_u64));
            assert(b@.subrange(8 + l1 as int, 16 + l1 as int) == spec_u64_to_le_bytes(l2_u64));
        }
        assert forall|n2: Seq<char>, t2: Seq<char>|
            spec_encode_notification(n2, t2) == b@ implies n2 == name@ && t2 == content@ by {
            lemma_notification_encoding_shape(n2, t2);
            assert(b@.subrange(0, 8) == spec_u64_to_le_bytes(encode_utf8(n2).len() as u64));
            assert(encode_utf8(n2) == name_bytes@);
            assert(encode_utf8(t2) == content_bytes@);
            encode_utf8_decode_utf8(n2);
            encode_utf8_decode_utf8(name@);
            encode_utf8_decode_utf8(t2);
            encode_utf8_decode_utf8(content@);
        }
    }
    Ok(NotificationCommand { name, content })
}

/// Decoding an encoded notification command yields the same field values
/// back.
///
/// This is the round-trip law for the notification channel, carried by an
/// executable body so that it is checked against the codec itself.
pub fn notification_round_trip(c: &NotificationCommand) -> (r: NotificationCommand)
    ensures
        r.name@ == c.name@,
        r.content@ == c.content@,
{
    let bytes = encode_notification_command(c);
    match decode_notification_command(bytes.as_slice()) {
        Ok(out) => out,
        Err(_) => {
            proof {
                assert(false);
            }
            NotificationCommand { name: String::new(), content: String::new() }
        },
    }
}

/// Decoding an encoded proxy command yields the command back.
///
/// This is the round-trip law for the service-to-proxy channel, carried by
/// an executable body so that it is checked against the codec itself.
pub fn proxy_round_trip(c: &ProxyCommand) -> (r: ProxyCommand)
    ensures
        r == *c,
{
    let bytes = encode_proxy_command(c);
    match decode_proxy_command(bytes.as_slice()) {
        Ok(out) => out,
        Err(_) => {
            proof {
                assert(false);
            }
            *c
        },
    }
}

} // verus!
