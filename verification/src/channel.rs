//! The error channel: a bounded one-shot message that ferries a failure from
//! a duplicated child process back to its parent.
//!
//! A child that fails before its image is replaced cannot return into the
//! parent's call stack, so it encodes the failure with [`encode_message`] and
//! writes the bytes to a pipe.  The parent reads whatever arrives before the
//! write end closes and interprets it with [`decode_message`].  "No message"
//! is unambiguous twice over: the parent decodes only the bytes actually
//! read, and no encoded message is empty or starts with a zero tag
//! (see [`lemma_message_round_trip`]).

use vstd::prelude::*;

use crate::error::SdbError;

verus! {

/// Capacity of the relay buffer a reader should offer; any encoded message
/// fits, with room to spare for a format that grows.
pub const CHANNEL_CAPACITY: usize = 1024;

/// Exact length of one encoded message: a tag byte and four bytes of OS
/// error code, least significant first.
pub const MESSAGE_LEN: usize = 5;

/// The wire tag of each message kind; zero is reserved so that no encoded
/// message can be mistaken for an unwritten buffer.
pub open spec fn spec_tag(e: SdbError) -> u8 {
    match e {
        SdbError::PipeCreationFailed { .. } => 1,
        SdbError::ForkFailed { .. } => 2,
        SdbError::TracingRequestFailed { .. } => 3,
        SdbError::PathContainsNull => 4,
        SdbError::ExecFailed { .. } => 5,
        SdbError::WaitFailed { .. } => 6,
        SdbError::AttachFailed { .. } => 7,
        SdbError::ResumeFailed { .. } => 8,
        SdbError::RelayReadFailed { .. } => 9,
        SdbError::RelayCorrupt => 10,
    }
}

/// The message a tag and an error code stand for; unknown tags are no
/// message at all and surface as `RelayCorrupt`.
pub open spec fn spec_message(tag: u8, errno: i32) -> SdbError {
    if tag == 1 {
        SdbError::PipeCreationFailed { errno }
    } else if tag == 2 {
        SdbError::ForkFailed { errno }
    } else if tag == 3 {
        SdbError::TracingRequestFailed { errno }
    } else if tag == 4 {
        SdbError::PathContainsNull
    } else if tag == 5 {
        SdbError::ExecFailed { errno }
    } else if tag == 6 {
        SdbError::WaitFailed { errno }
    } else if tag == 7 {
        SdbError::AttachFailed { errno }
    } else if tag == 8 {
        SdbError::ResumeFailed { errno }
    } else if tag == 9 {
        SdbError::RelayReadFailed { errno }
    } else {
        SdbError::RelayCorrupt
    }
}

/// The four bytes of a 32-bit value, least significant first.
pub open spec fn spec_le_bytes(u: u32) -> Seq<u8> {
    seq![
        (u & 0xff) as u8,
        ((u >> 8) & 0xff) as u8,
        ((u >> 16) & 0xff) as u8,
        ((u >> 24) & 0xff) as u8,
    ]
}

/// The 32-bit value four little-endian bytes stand for.
pub open spec fn spec_le_value(b0: u8, b1: u8, b2: u8, b3: u8) -> u32 {
    (b0 as u32) | ((b1 as u32) << 8) | ((b2 as u32) << 16) | ((b3 as u32) << 24)
}

/// The encoding of one message.
pub open spec fn spec_encode(e: SdbError) -> Seq<u8> {
    seq![spec_tag(e)] + spec_le_bytes(e.spec_errno() as u32)
}

/// What a sequence of relayed bytes means: `None` when nothing was written,
/// otherwise the message, with `RelayCorrupt` standing for bytes that are no
/// well-formed message (a wrong length, an unknown tag, or an error code out
/// of range).
pub open spec fn spec_decode(bytes: Seq<u8>) -> Option<SdbError> {
    if bytes.len() == 0 {
        None
    } else if bytes.len() != MESSAGE_LEN {
        Some(SdbError::RelayCorrupt)
    } else {
        let u = spec_le_value(bytes[1], bytes[2], bytes[3], bytes[4]);
        if u > 0x7fff_ffff {
            Some(SdbError::RelayCorrupt)
        } else {
            Some(spec_message(bytes[0], u as i32))
        }
    }
}

proof fn lemma_le_round_trip(u: u32)
    ensures
        spec_le_value(
            (u & 0xff) as u8,
            ((u >> 8) & 0xff) as u8,
            ((u >> 16) & 0xff) as u8,
            ((u >> 24) & 0xff) as u8,
        ) == u,
{
    assert(((u & 0xff) as u8 as u32) | (((u >> 8) & 0xff) as u8 as u32) << 8 | (((u >> 16)
        & 0xff) as u8 as u32) << 16 | (((u >> 24) & 0xff) as u8 as u32) << 24 == u)
        by (bit_vector);
}

/// The channel is lossless and its empty case unambiguous: every well-formed
/// message decodes back to itself, and no encoded message can be read as
/// "no message".
pub proof fn lemma_message_round_trip(e: SdbError)
    requires
        e.wf(),
    ensures
        spec_decode(spec_encode(e)) == Some(e),
        spec_encode(e).len() == MESSAGE_LEN,
        spec_encode(e)[0] != 0,
{
    let u = e.spec_errno() as u32;
    lemma_le_round_trip(u);
    assert(u <= 0x7fff_ffff);
    assert(u as i32 == e.spec_errno());
}

fn tag_of(e: &SdbError) -> (t: u8)
    ensures
        t == spec_tag(*e),
{
    match e {
        SdbError::PipeCreationFailed { .. } => 1,
        SdbError::ForkFailed { .. } => 2,
        SdbError::TracingRequestFailed { .. } => 3,
        SdbError::PathContainsNull => 4,
        SdbError::ExecFailed { .. } => 5,
        SdbError::WaitFailed { .. } => 6,
        SdbError::AttachFailed { .. } => 7,
        SdbError::ResumeFailed { .. } => 8,
        SdbError::RelayReadFailed { .. } => 9,
        SdbError::RelayCorrupt => 10,
    }
}

fn errno_of(e: &SdbError) -> (en: i32)
    ensures
        en == e.spec_errno(),
{
    match e {
        SdbError::PipeCreationFailed { errno } => *errno,
        SdbError::ForkFailed { errno } => *errno,
        SdbError::TracingRequestFailed { errno } => *errno,
        SdbError::PathContainsNull => 0,
        SdbError::ExecFailed { errno } => *errno,
        SdbError::WaitFailed { errno } => *errno,
        SdbError::AttachFailed { errno } => *errno,
        SdbError::ResumeFailed { errno } => *errno,
        SdbError::RelayReadFailed { errno } => *errno,
        SdbError::RelayCorrupt => 0,
    }
}

/// Encodes one message for the relay pipe.
pub fn encode_message(e: &SdbError) -> (r: Vec<u8>)
    requires
        e.wf(),
    ensures
        r@ == spec_encode(*e),
        r@.len() == MESSAGE_LEN,
{
    let tag = tag_of(e);
    let en = errno_of(e);
    let u = en as u32;
    let mut r: Vec<u8> = Vec::new();
    r.push(tag);
    r.push((u & 0xff) as u8);
    r.push(((u >> 8) & 0xff) as u8);
    r.push(((u >> 16) & 0xff) as u8);
    r.push(((u >> 24) & 0xff) as u8);
    proof {
        assert(r@ =~= spec_encode(*e));
    }
    r
}

/// Interprets the bytes read from the relay pipe before its write end
/// closed: `None` when the child wrote nothing, otherwise the message.
pub fn decode_message(bytes: &Vec<u8>) -> (r: Option<SdbError>)
    ensures
        r == spec_decode(bytes@),
        r matches Some(e) ==> e.wf(),
{
    if bytes.len() == 0 {
        return None;
    }
    if bytes.len() != MESSAGE_LEN {
        return Some(SdbError::RelayCorrupt);
    }
    let u = (bytes[1] as u32) | ((bytes[2] as u32) << 8) | ((bytes[3] as u32) << 16) | ((
    bytes[4] as u32) << 24);
    if u > 0x7fff_ffff {
        return Some(SdbError::RelayCorrupt);
    }
    let errno = u as i32;
    let tag = bytes[0];
    let e = if tag == 1 {
        SdbError::PipeCreationFailed { errno }
    } else if tag == 2 {
        SdbError::ForkFailed { errno }
    } else if tag == 3 {
        SdbError::TracingRequestFailed { errno }
    } else if tag == 4 {
        SdbError::PathContainsNull
    } else if tag == 5 {
        SdbError::ExecFailed { errno }
    } else if tag == 6 {
        SdbError::WaitFailed { errno }
    } else if tag == 7 {
        SdbError::AttachFailed { errno }
    } else if tag == 8 {
        SdbError::ResumeFailed { errno }
    } else if tag == 9 {
        SdbError::RelayReadFailed { errno }
    } else {
        SdbError::RelayCorrupt
    };
    Some(e)
}

} // verus!
