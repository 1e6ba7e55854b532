//! The wire codec: length-prefixed frames and the byte layout of the four
//! message payloads.
//!
//! A frame is a four-byte big-endian length followed by that many payload
//! bytes. A payload is the fixed-width little-endian layout that `bincode`
//! gives the message's fields: each byte string and each text is an
//! eight-byte length followed by its bytes, a target is its index in four
//! bytes, a flag is one byte.

use crate::types::{
    bytes_contents, bytes_from_vec, DeviceInfo, DeviceInfoView, Submission, SubmissionResponse,
    SubmissionResponseView, SubmissionView, Target, Template, TemplateView,
};
use bytes::Bytes;
use vstd::prelude::*;
use vstd::slice::slice_subrange;
use vstd::utf8::{decode_utf8, encode_utf8, valid_utf8};

verus! {

/// Why a buffer could not be turned into a message, or a message into a
/// buffer.
#[derive(Debug, Clone, Copy, PartialEq, Eq, Structural)]
pub enum CodecError {
    /// The payload is longer than a frame header can say.
    TooLarge,
    /// The bytes are not the layout of the message asked for.
    Malformed,
    /// A serializer refused the value. The encoders of this module never
    /// do; the variant is for a payload that was made elsewhere.
    Encode,
}

/// The longest reply that a handshake stream may carry.
pub const HANDSHAKE_LIMIT: usize = 50;

/// The number of bytes in a frame header.
pub const FRAME_HEADER_LEN: usize = 4;

/// The four bytes of `n`, most significant first.
pub open spec fn be32(n: nat) -> Seq<u8> {
    seq![
        (n / 0x100_0000 % 256) as u8,
        (n / 0x1_0000 % 256) as u8,
        (n / 0x100 % 256) as u8,
        (n % 256) as u8,
    ]
}

/// The number that four bytes spell, most significant first.
pub open spec fn be32_value(s: Seq<u8>) -> nat {
    (s[0] as nat) * 0x100_0000 + (s[1] as nat) * 0x1_0000 + (s[2] as nat) * 0x100 + (s[3] as nat)
}

/// A payload with its length in front.
pub open spec fn frame_wire(payload: Seq<u8>) -> Seq<u8> {
    be32(payload.len()) + payload
}

/// The first frame of `s` and what follows it, if `s` starts with a whole
/// frame.
pub open spec fn frame_parse(s: Seq<u8>) -> Option<(Seq<u8>, Seq<u8>)> {
    if s.len() >= 4 && 4 + be32_value(s.subrange(0, 4)) <= s.len() {
        let n = be32_value(s.subrange(0, 4)) as int;
        Some((s.subrange(4, 4 + n), s.subrange(4 + n, s.len() as int)))
    } else {
        None
    }
}

/// Reading back a header gives the length that was written.
pub proof fn lemma_be32_round_trip(n: nat)
    requires
        n <= u32::MAX,
    ensures
        be32(n).len() == 4,
        be32_value(be32(n)) == n,
{
}

/// Writing the number that a header spells gives the header back.
pub proof fn lemma_be32_value_bound(s: Seq<u8>)
    requires
        s.len() == 4,
    ensures
        be32_value(s) <= u32::MAX,
        be32(be32_value(s)) == s,
{
    let b0 = s[0] as int;
    let b1 = s[1] as int;
    let b2 = s[2] as int;
    let b3 = s[3] as int;
    let v = be32_value(s) as int;
    assert(v == b0 * 0x100_0000 + (b1 * 0x1_0000 + b2 * 0x100 + b3));
    assert(v / 0x100_0000 == b0);
    assert(v == (b0 * 0x100 + b1) * 0x1_0000 + (b2 * 0x100 + b3));
    assert(v / 0x1_0000 == b0 * 0x100 + b1);
    assert(v == (b0 * 0x1_0000 + b1 * 0x100 + b2) * 0x100 + b3);
    assert(v / 0x100 == b0 * 0x1_0000 + b1 * 0x100 + b2);
    assert(be32(be32_value(s)) =~= s);
}

/// The header for a payload of `len` bytes.
pub fn frame_header(len: u32) -> (h: [u8; 4])
    ensures
        h@ == be32(len as nat),
{
    let h: [u8; 4] = [
        (len / 0x100_0000 % 256) as u8,
        (len / 0x1_0000 % 256) as u8,
        (len / 0x100 % 256) as u8,
        (len % 256) as u8,
    ];
    assert(h@ =~= be32(len as nat));
    h
}

/// The payload length that a header announces.
pub fn frame_length(header: &[u8; 4]) -> (len: u32)
    ensures
        len == be32_value(header@),
{
    let b0: u32 = header[0] as u32;
    let b1: u32 = header[1] as u32;
    let b2: u32 = header[2] as u32;
    let b3: u32 = header[3] as u32;
    b0 * 0x100_0000 + b1 * 0x1_0000 + b2 * 0x100 + b3
}

/// Puts the length header in front of a payload.
///
/// Fails only for a payload whose length does not fit the header.
pub fn frame(payload: &[u8]) -> (r: Result<Vec<u8>, CodecError>)
    ensures
        match r {
            Ok(v) => payload@.len() <= u32::MAX && v@ == frame_wire(payload@),
            Err(e) => payload@.len() > u32::MAX && e == CodecError::TooLarge,
        },
{
    if payload.len() > u32::MAX as usize {
        return Err(CodecError::TooLarge);
    }
    let h = frame_header(payload.len() as u32);
    let mut out: Vec<u8> = Vec::new();
    out.push(h[0]);
    out.push(h[1]);
    out.push(h[2]);
    out.push(h[3]);
    out.extend_from_slice(payload);
    assert(out@ =~= frame_wire(payload@));
    Ok(out)
}

/// Takes the first frame off a buffer: its payload, and how many bytes of the
/// buffer it took. `None` when the buffer does not yet hold a whole frame.
pub fn split_frame(buf: &[u8]) -> (r: Option<(Vec<u8>, usize)>)
    ensures
        match r {
            Some((payload, used)) => frame_parse(buf@) == Some(
                (payload@, buf@.subrange(used as int, buf@.len() as int)),
            ) && used == 4 + payload@.len(),
            None => frame_parse(buf@) is None,
        },
{
    if buf.len() < 4 {
        return None;
    }
    let header: [u8; 4] = [buf[0], buf[1], buf[2], buf[3]];
    assert(header@ =~= buf@.subrange(0, 4));
    let n = frame_length(&header) as usize;
    if buf.len() - 4 < n {
        return None;
    }
    let body = slice_subrange(buf, 4, 4 + n);
    let mut payload: Vec<u8> = Vec::new();
    payload.extend_from_slice(body);
    assert(payload@ =~= buf@.subrange(4, 4 + n));
    Some((payload, 4 + n))
}

/// A frame that is written and then split off again is the payload, with
/// whatever followed it left over.
pub proof fn theorem_frame_round_trip(payload: Seq<u8>, rest: Seq<u8>)
    requires
        payload.len() <= u32::MAX,
    ensures
        frame_parse(frame_wire(payload) + rest) == Some((payload, rest)),
{
    let s = frame_wire(payload) + rest;
    lemma_be32_round_trip(payload.len());
    assert(s.subrange(0, 4) =~= be32(payload.len()));
    let n = payload.len() as int;
    assert(s.subrange(4, 4 + n) =~= payload);
    assert(s.subrange(4 + n, s.len() as int) =~= rest);
}

/// The `width` bytes of `n`, least significant first.
pub open spec fn le_bytes(n: nat, width: nat) -> Seq<u8>
    decreases width,
{
    if width == 0 {
        Seq::empty()
    } else {
        seq![(n % 256) as u8] + le_bytes(n / 256, (width - 1) as nat)
    }
}

/// The number that the bytes of `s` spell, least significant first.
pub open spec fn le_value(s: Seq<u8>) -> nat
    decreases s.len(),
{
    if s.len() == 0 {
        0
    } else {
        (s[0] as nat) + 256 * le_value(s.drop_first())
    }
}

/// 256 to the power `w`: one more than the largest number that `w` bytes
/// can spell.
pub open spec fn pow256(w: nat) -> nat
    decreases w,
{
    if w == 0 {
        1
    } else {
        256 * pow256((w - 1) as nat)
    }
}

/// A number that fits its width is read back as it was written.
pub proof fn lemma_le_round_trip(n: nat, w: nat)
    requires
        n < pow256(w),
    ensures
        le_bytes(n, w).len() == w,
        le_value(le_bytes(n, w)) == n,
    decreases w,
{
    if w > 0 {
        lemma_le_round_trip(n / 256, (w - 1) as nat);
        assert(le_bytes(n, w).drop_first() =~= le_bytes(n / 256, (w - 1) as nat));
    }
}

/// Eight bytes hold every `u64`, four bytes every `u32`.
pub proof fn lemma_pow256_widths()
    ensures
        pow256(4) == 0x1_0000_0000,
        pow256(8) == 0x1_0000_0000_0000_0000,
{
    reveal_with_fuel(pow256, 9);
}

/// A four-byte number at the head of `s`, and what follows it.
pub open spec fn take_u32(s: Seq<u8>) -> Option<(nat, Seq<u8>)> {
    if s.len() >= 4 {
        Some((le_value(s.subrange(0, 4)), s.subrange(4, s.len() as int)))
    } else {
        None
    }
}

/// An eight-byte number at the head of `s`, and what follows it.
pub open spec fn take_u64(s: Seq<u8>) -> Option<(nat, Seq<u8>)> {
    if s.len() >= 8 {
        Some((le_value(s.subrange(0, 8)), s.subrange(8, s.len() as int)))
    } else {
        None
    }
}

/// A length-prefixed byte string at the head of `s`, and what follows it.
pub open spec fn take_blob(s: Seq<u8>) -> Option<(Seq<u8>, Seq<u8>)> {
    match take_u64(s) {
        Some((n, rest)) => if n <= rest.len() {
            Some((rest.subrange(0, n as int), rest.subrange(n as int, rest.len() as int)))
        } else {
            None
        },
        None => None,
    }
}

/// A length-prefixed UTF-8 text at the head of `s`, and what follows it.
pub open spec fn take_text(s: Seq<u8>) -> Option<(Seq<char>, Seq<u8>)> {
    match take_blob(s) {
        Some((b, rest)) => if valid_utf8(b) {
            Some((decode_utf8(b), rest))
        } else {
            None
        },
        None => None,
    }
}

/// A one-byte flag at the head of `s`, and what follows it. Only 0 and 1
/// are flags.
pub open spec fn take_flag(s: Seq<u8>) -> Option<(bool, Seq<u8>)> {
    if s.len() >= 1 && s[0] <= 1 {
        Some((s[0] == 1, s.subrange(1, s.len() as int)))
    } else {
        None
    }
}

/// A byte string on the wire: its length in eight bytes, then its bytes.
pub open spec fn blob_wire(b: Seq<u8>) -> Seq<u8> {
    le_bytes(b.len(), 8) + b
}

/// A text on the wire: its UTF-8 bytes as a byte string.
pub open spec fn text_wire(t: Seq<char>) -> Seq<u8> {
    blob_wire(encode_utf8(t))
}

/// A flag on the wire: one byte, 1 for true.
pub open spec fn flag_wire(b: bool) -> Seq<u8> {
    seq![if b { 1u8 } else { 0u8 }]
}

/// The number that stands for a target on the wire.
pub open spec fn target_index(t: Target) -> nat {
    match t {
        Target::Network => 0,
        Target::Pool => 1,
    }
}

/// The target that a number on the wire stands for.
pub open spec fn target_of_index(i: nat) -> Option<Target> {
    if i == 0 {
        Some(Target::Network)
    } else if i == 1 {
        Some(Target::Pool)
    } else {
        None
    }
}

/// The payload of a job template.
pub open spec fn template_wire(t: TemplateView) -> Seq<u8> {
    blob_wire(t.version) + blob_wire(t.commit) + blob_wire(t.network_target) + blob_wire(
        t.pool_target,
    ) + blob_wire(t.pow_len)
}

/// The payload of a submission, given the number that stands for its
/// target.
pub open spec fn submission_fields_wire(
    index: nat,
    commit: Seq<u8>,
    digest: Seq<u8>,
    proof: Seq<u8>,
) -> Seq<u8> {
    le_bytes(index, 4) + blob_wire(commit) + blob_wire(digest) + blob_wire(proof)
}

/// The payload of a submission.
pub open spec fn submission_wire(s: SubmissionView) -> Seq<u8> {
    submission_fields_wire(target_index(s.target_type), s.commit, s.digest, s.proof)
}

/// The payload of a submission response.
pub open spec fn response_wire(r: SubmissionResponseView) -> Seq<u8> {
    flag_wire(r.accepted) + blob_wire(r.digest) + text_wire(r.message)
}

/// The payload of a device descriptor.
pub open spec fn device_info_wire(d: DeviceInfoView) -> Seq<u8> {
    text_wire(d.os) + text_wire(d.cpu_model) + le_bytes(d.ram_capacity_gb as nat, 8)
}

/// The template that a payload spells. Bytes after the last field are
/// ignored.
pub open spec fn template_parse(s: Seq<u8>) -> Option<TemplateView> {
    match take_blob(s) {
        Some((version, s1)) => match take_blob(s1) {
            Some((commit, s2)) => match take_blob(s2) {
                Some((network_target, s3)) => match take_blob(s3) {
                    Some((pool_target, s4)) => match take_blob(s4) {
                        Some((pow_len, _)) => Some(
                            TemplateView { version, commit, network_target, pool_target, pow_len },
                        ),
                        None => None,
                    },
                    None => None,
                },
                None => None,
            },
            None => None,
        },
        None => None,
    }
}

/// The four fields that a submission payload spells, the target still as
/// its number.
pub open spec fn submission_fields_parse(s: Seq<u8>) -> Option<
    (nat, Seq<u8>, Seq<u8>, Seq<u8>),
> {
    match take_u32(s) {
        Some((index, s1)) => match take_blob(s1) {
            Some((commit, s2)) => match take_blob(s2) {
                Some((digest, s3)) => match take_blob(s3) {
                    Some((proof, _)) => Some((index, commit, digest, proof)),
                    None => None,
                },
                None => None,
            },
            None => None,
        },
        None => None,
    }
}

/// The submission that a payload spells: its four fields, with a number
/// that stands for a target.
pub open spec fn submission_parse(s: Seq<u8>) -> Option<SubmissionView> {
    match submission_fields_parse(s) {
        Some((index, commit, digest, proof)) => match target_of_index(index) {
            Some(target_type) => Some(SubmissionView { target_type, commit, digest, proof }),
            None => None,
        },
        None => None,
    }
}

/// The submission response that a payload spells.
pub open spec fn response_parse(s: Seq<u8>) -> Option<SubmissionResponseView> {
    match take_flag(s) {
        Some((accepted, s1)) => match take_blob(s1) {
            Some((digest, s2)) => match take_text(s2) {
                Some((message, _)) => Some(SubmissionResponseView { accepted, digest, message }),
                None => None,
            },
            None => None,
        },
        None => None,
    }
}

/// The device descriptor that a payload spells.
pub open spec fn device_info_parse(s: Seq<u8>) -> Option<DeviceInfoView> {
    match take_text(s) {
        Some((os, s1)) => match take_text(s1) {
            Some((cpu_model, s2)) => match take_u64(s2) {
                Some((ram, _)) => Some(
                    DeviceInfoView { os, cpu_model, ram_capacity_gb: ram as u64 },
                ),
                None => None,
            },
            None => None,
        },
        None => None,
    }
}

/// The error of the `bincode` crate, carried from its calls to the place
/// where it becomes a `CodecError`.
#[verifier::external_type_specification]
#[verifier::external_body]
pub struct ExBincodeErrorKind(bincode::ErrorKind);

/// `bincode::serialize` on a tuple of five byte slices. It succeeds: it
/// writes to a vector under no byte limit, and byte slices cannot fail to
/// serialize. The output is the five byte strings one after another, each
/// behind its length in eight little-endian bytes.
#[verifier::external_body]
fn bincode_write_template(t: &Template) -> (r: Result<Vec<u8>, Box<bincode::ErrorKind>>)
    ensures
        r is Ok,
        r matches Ok(v) ==> v@ == template_wire(t@),
{
    bincode::serialize(
        &(&t.version[..], &t.commit[..], &t.network_target[..], &t.pool_target[..], &t.pow_len[..]),
    )
}

/// `bincode::deserialize` into a tuple of five byte vectors. It succeeds
/// exactly on input that starts with five length-prefixed byte strings,
/// and returns them; input after them is ignored.
#[verifier::external_body]
fn bincode_read_template(bytes: &[u8]) -> (r: Result<
    (Vec<u8>, Vec<u8>, Vec<u8>, Vec<u8>, Vec<u8>),
    Box<bincode::ErrorKind>,
>)
    ensures
        match r {
            Ok(f) => template_parse(bytes@) == Some(
                (TemplateView {
                    version: f.0@,
                    commit: f.1@,
                    network_target: f.2@,
                    pool_target: f.3@,
                    pow_len: f.4@,
                }),
            ),
            Err(_) => template_parse(bytes@) is None,
        },
{
    bincode::deserialize(bytes)
}

/// `bincode::serialize` on a `u32` and three byte slices. It succeeds: it
/// writes to a vector under no byte limit, and integers and byte slices
/// cannot fail to serialize. The output is the number in four
/// little-endian bytes and then the three byte strings, each behind its
/// length.
#[verifier::external_body]
fn bincode_write_submission(index: u32, commit: &Bytes, digest: &Bytes, proof: &Bytes) -> (r:
    Result<Vec<u8>, Box<bincode::ErrorKind>>)
    ensures
        r is Ok,
        r matches Ok(v) ==> v@ == submission_fields_wire(
            index as nat,
            bytes_contents(*commit),
            bytes_contents(*digest),
            bytes_contents(*proof),
        ),
{
    bincode::serialize(&(index, &commit[..], &digest[..], &proof[..]))
}

/// `bincode::deserialize` into a `u32` and three byte vectors. It succeeds
/// exactly on input that starts with four bytes and three length-prefixed
/// byte strings, and returns them; input after them is ignored.
#[verifier::external_body]
fn bincode_read_submission(bytes: &[u8]) -> (r: Result<
    (u32, Vec<u8>, Vec<u8>, Vec<u8>),
    Box<bincode::ErrorKind>,
>)
    ensures
        match r {
            Ok(f) => submission_fields_parse(bytes@) == Some((f.0 as nat, f.1@, f.2@, f.3@)),
            Err(_) => submission_fields_parse(bytes@) is None,
        },
{
    bincode::deserialize(bytes)
}

/// `bincode::serialize` on a `bool`, a byte slice and a `str`. It
/// succeeds: it writes to a vector under no byte limit, and flags, byte
/// slices and texts cannot fail to serialize. The output is one byte for
/// the flag, the byte string behind its length, and the text's UTF-8 bytes
/// behind their length.
#[verifier::external_body]
fn bincode_write_response(resp: &SubmissionResponse) -> (r: Result<
    Vec<u8>,
    Box<bincode::ErrorKind>,
>)
    ensures
        r is Ok,
        r matches Ok(v) ==> v@ == response_wire(resp@),
{
    bincode::serialize(&(resp.accepted, &resp.digest[..], resp.message.as_str()))
}

/// `bincode::deserialize` into a `bool`, a byte vector and a `String`. It
/// succeeds exactly on input that starts with a byte that is 0 or 1, a
/// length-prefixed byte string and a length-prefixed byte string that is
/// valid UTF-8, and returns them; input after them is ignored.
#[verifier::external_body]
fn bincode_read_response(bytes: &[u8]) -> (r: Result<
    (bool, Vec<u8>, String),
    Box<bincode::ErrorKind>,
>)
    ensures
        match r {
            Ok(f) => response_parse(bytes@) == Some(
                (SubmissionResponseView { accepted: f.0, digest: f.1@, message: f.2@ }),
            ),
            Err(_) => response_parse(bytes@) is None,
        },
{
    bincode::deserialize(bytes)
}

/// `bincode::serialize` on two `str` and a `u64`. It succeeds: it writes
/// to a vector under no byte limit, and texts and integers cannot fail to
/// serialize. The output is the two texts' UTF-8 bytes, each behind its
/// length, and the number in eight little-endian bytes.
#[verifier::external_body]
fn bincode_write_device_info(d: &DeviceInfo) -> (r: Result<Vec<u8>, Box<bincode::ErrorKind>>)
    ensures
        r is Ok,
        r matches Ok(v) ==> v@ == device_info_wire(d@),
{
    bincode::serialize(&(d.os.as_str(), d.cpu_model.as_str(), d.ram_capacity_gb))
}

/// `bincode::deserialize` into two `String` and a `u64`. It succeeds
/// exactly on input that starts with two length-prefixed byte strings that
/// are valid UTF-8 and eight more bytes, and returns them; input after
/// them is ignored.
#[verifier::external_body]
fn bincode_read_device_info(bytes: &[u8]) -> (r: Result<
    (String, String, u64),
    Box<bincode::ErrorKind>,
>)
    ensures
        match r {
            Ok(f) => device_info_parse(bytes@) == Some(
                (DeviceInfoView { os: f.0@, cpu_model: f.1@, ram_capacity_gb: f.2 }),
            ),
            Err(_) => device_info_parse(bytes@) is None,
        },
{
    bincode::deserialize(bytes)
}

/// The number that stands for a target on the wire.
pub fn target_to_index(t: Target) -> (i: u32)
    ensures
        i == target_index(t),
{
    match t {
        Target::Network => 0,
        Target::Pool => 1,
    }
}

/// The target that a number on the wire stands for, if any.
pub fn target_from_index(i: u32) -> (t: Option<Target>)
    ensures
        t == target_of_index(i as nat),
{
    if i == 0 {
        Some(Target::Network)
    } else if i == 1 {
        Some(Target::Pool)
    } else {
        None
    }
}

/// The payload of a job template. Encoding always succeeds.
pub fn encode_template(t: &Template) -> (r: Result<Vec<u8>, CodecError>)
    ensures
        r is Ok,
        r->Ok_0@ == template_wire(t@),
{
    match bincode_write_template(t) {
        Ok(v) => Ok(v),
        Err(_) => Err(CodecError::Encode),
    }
}

/// Reads a job template from its payload. Fails exactly when the payload
/// does not start with the five fields of a template.
pub fn decode_template(bytes: &[u8]) -> (r: Result<Template, CodecError>)
    ensures
        match r {
            Ok(t) => template_parse(bytes@) == Some(t@),
            Err(e) => e == CodecError::Malformed && template_parse(bytes@) is None,
        },
{
    match bincode_read_template(bytes) {
        Ok(f) => Ok(
            Template {
                version: bytes_from_vec(f.0),
                commit: bytes_from_vec(f.1),
                network_target: bytes_from_vec(f.2),
                pool_target: bytes_from_vec(f.3),
                pow_len: bytes_from_vec(f.4),
            },
        ),
        Err(_) => Err(CodecError::Malformed),
    }
}

/// The payload of a submission. Encoding always succeeds.
pub fn encode_submission(s: &Submission) -> (r: Result<Vec<u8>, CodecError>)
    ensures
        r is Ok,
        r->Ok_0@ == submission_wire(s@),
{
    let index = target_to_index(s.target_type);
    match bincode_write_submission(index, &s.commit, &s.digest, &s.proof) {
        Ok(v) => Ok(v),
        Err(_) => Err(CodecError::Encode),
    }
}

/// Reads a submission from its payload. Fails exactly when the payload
/// does not start with the four fields of a submission, or names a target
/// that does not exist.
pub fn decode_submission(bytes: &[u8]) -> (r: Result<Submission, CodecError>)
    ensures
        match r {
            Ok(s) => submission_parse(bytes@) == Some(s@),
            Err(e) => e == CodecError::Malformed && submission_parse(bytes@) is None,
        },
{
    match bincode_read_submission(bytes) {
        Ok(f) => match target_from_index(f.0) {
            Some(target_type) => Ok(
                Submission {
                    target_type,
                    commit: bytes_from_vec(f.1),
                    digest: bytes_from_vec(f.2),
                    proof: bytes_from_vec(f.3),
                },
            ),
            None => Err(CodecError::Malformed),
        },
        Err(_) => Err(CodecError::Malformed),
    }
}

/// The payload of a submission response. Encoding always succeeds.
pub fn encode_response(resp: &SubmissionResponse) -> (r: Result<Vec<u8>, CodecError>)
    ensures
        r is Ok,
        r->Ok_0@ == response_wire(resp@),
{
    match bincode_write_response(resp) {
        Ok(v) => Ok(v),
        Err(_) => Err(CodecError::Encode),
    }
}

/// Reads a submission response from its payload. Fails exactly when the
/// payload does not start with the three fields of a response.
pub fn decode_response(bytes: &[u8]) -> (r: Result<SubmissionResponse, CodecError>)
    ensures
        match r {
            Ok(resp) => response_parse(bytes@) == Some(resp@),
            Err(e) => e == CodecError::Malformed && response_parse(bytes@) is None,
        },
{
    match bincode_read_response(bytes) {
        Ok(f) => Ok(SubmissionResponse { accepted: f.0, digest: bytes_from_vec(f.1), message: f.2 }),
        Err(_) => Err(CodecError::Malformed),
    }
}

/// The payload of a device descriptor. Encoding always succeeds.
pub fn encode_device_info(d: &DeviceInfo) -> (r: Result<Vec<u8>, CodecError>)
    ensures
        r is Ok,
        r->Ok_0@ == device_info_wire(d@),
{
    match bincode_write_device_info(d) {
        Ok(v) => Ok(v),
        Err(_) => Err(CodecError::Encode),
    }
}

/// Reads a device descriptor from its payload. Fails exactly when the
/// payload does not start with the three fields of a descriptor.
pub fn decode_device_info(bytes: &[u8]) -> (r: Result<DeviceInfo, CodecError>)
    ensures
        match r {
            Ok(d) => device_info_parse(bytes@) == Some(d@),
            Err(e) => e == CodecError::Malformed && device_info_parse(bytes@) is None,
        },
{
    match bincode_read_device_info(bytes) {
        Ok(f) => Ok(DeviceInfo { os: f.0, cpu_model: f.1, ram_capacity_gb: f.2 }),
        Err(_) => Err(CodecError::Malformed),
    }
}

/// A byte string whose length an eight-byte prefix can say. Every buffer in
/// memory is one.
pub open spec fn blob_fits(b: Seq<u8>) -> bool {
    b.len() <= u64::MAX
}

/// A text whose UTF-8 length an eight-byte prefix can say.
pub open spec fn text_fits(t: Seq<char>) -> bool {
    blob_fits(encode_utf8(t))
}

pub open spec fn template_fits(t: TemplateView) -> bool {
    &&& blob_fits(t.version)
    &&& blob_fits(t.commit)
    &&& blob_fits(t.network_target)
    &&& blob_fits(t.pool_target)
    &&& blob_fits(t.pow_len)
}

pub open spec fn submission_fits(s: SubmissionView) -> bool {
    &&& blob_fits(s.commit)
    &&& blob_fits(s.digest)
    &&& blob_fits(s.proof)
}

pub open spec fn response_fits(r: SubmissionResponseView) -> bool {
    &&& blob_fits(r.digest)
    &&& text_fits(r.message)
}

pub open spec fn device_info_fits(d: DeviceInfoView) -> bool {
    &&& text_fits(d.os)
    &&& text_fits(d.cpu_model)
}

/// A four-byte number is read back from the head of a buffer.
pub proof fn lemma_take_u32(n: nat, rest: Seq<u8>)
    requires
        n <= u32::MAX,
    ensures
        take_u32(le_bytes(n, 4) + rest) == Some((n, rest)),
{
    lemma_pow256_widths();
    lemma_le_round_trip(n, 4);
    let s = le_bytes(n, 4) + rest;
    assert(s.subrange(0, 4) =~= le_bytes(n, 4));
    assert(s.subrange(4, s.len() as int) =~= rest);
}

/// An eight-byte number is read back from the head of a buffer.
pub proof fn lemma_take_u64(n: nat, rest: Seq<u8>)
    requires
        n <= u64::MAX,
    ensures
        take_u64(le_bytes(n, 8) + rest) == Some((n, rest)),
{
    lemma_pow256_widths();
    lemma_le_round_trip(n, 8);
    let s = le_bytes(n, 8) + rest;
    assert(s.subrange(0, 8) =~= le_bytes(n, 8));
    assert(s.subrange(8, s.len() as int) =~= rest);
}

/// A byte string is read back from the head of a buffer, whatever its
/// length, the empty one included.
pub proof fn lemma_take_blob(b: Seq<u8>, rest: Seq<u8>)
    requires
        blob_fits(b),
    ensures
        take_blob(blob_wire(b) + rest) == Some((b, rest)),
{
    let tail = b + rest;
    lemma_take_u64(b.len(), tail);
    assert(blob_wire(b) + rest =~= le_bytes(b.len(), 8) + tail);
    assert(tail.subrange(0, b.len() as int) =~= b);
    assert(tail.subrange(b.len() as int, tail.len() as int) =~= rest);
}

/// A text is read back from the head of a buffer.
pub proof fn lemma_take_text(t: Seq<char>, rest: Seq<u8>)
    requires
        text_fits(t),
    ensures
        take_text(text_wire(t) + rest) == Some((t, rest)),
{
    broadcast use vstd::utf8::encode_utf8_valid_utf8, vstd::utf8::encode_utf8_decode_utf8;

    lemma_take_blob(encode_utf8(t), rest);
}

/// A flag is read back from the head of a buffer.
pub proof fn lemma_take_flag(b: bool, rest: Seq<u8>)
    ensures
        take_flag(flag_wire(b) + rest) == Some((b, rest)),
{
    let s = flag_wire(b) + rest;
    assert(s.subrange(1, s.len() as int) =~= rest);
}

/// Encoding a job template and decoding the result gives the template
/// back, for fields of every length, the all-empty placeholder included,
/// and whatever follows the payload.
pub proof fn theorem_template_round_trip(t: TemplateView, rest: Seq<u8>)
    requires
        template_fits(t),
    ensures
        template_parse(template_wire(t) + rest) == Some(t),
{
    let s4 = blob_wire(t.pow_len) + rest;
    let s3 = blob_wire(t.pool_target) + s4;
    let s2 = blob_wire(t.network_target) + s3;
    let s1 = blob_wire(t.commit) + s2;
    assert(template_wire(t) + rest =~= blob_wire(t.version) + s1);
    lemma_take_blob(t.version, s1);
    lemma_take_blob(t.commit, s2);
    lemma_take_blob(t.network_target, s3);
    lemma_take_blob(t.pool_target, s4);
    lemma_take_blob(t.pow_len, rest);
}

/// The placeholder template, whose fields are all empty, survives the
/// round trip like any other: its payload is forty zero bytes, five empty
/// byte strings, and decodes to the placeholder.
pub proof fn theorem_placeholder_round_trip()
    ensures
        template_wire(TemplateView::empty()).len() == 40,
        template_parse(template_wire(TemplateView::empty())) == Some(TemplateView::empty()),
{
    let t = TemplateView::empty();
    theorem_template_round_trip(t, Seq::empty());
    assert(template_wire(t) + Seq::<u8>::empty() =~= template_wire(t));
    lemma_pow256_widths();
    lemma_le_round_trip(0, 8);
}

/// Encoding a submission and decoding the result gives the submission
/// back, for fields of every length and whatever follows the payload.
pub proof fn theorem_submission_round_trip(s: SubmissionView, rest: Seq<u8>)
    requires
        submission_fits(s),
    ensures
        submission_parse(submission_wire(s) + rest) == Some(s),
{
    let s3 = blob_wire(s.proof) + rest;
    let s2 = blob_wire(s.digest) + s3;
    let s1 = blob_wire(s.commit) + s2;
    let index = target_index(s.target_type);
    assert(submission_wire(s) + rest =~= le_bytes(index, 4) + s1);
    lemma_take_u32(index, s1);
    lemma_take_blob(s.commit, s2);
    lemma_take_blob(s.digest, s3);
    lemma_take_blob(s.proof, rest);
}

/// Encoding a submission response and decoding the result gives the
/// response back.
pub proof fn theorem_response_round_trip(r: SubmissionResponseView, rest: Seq<u8>)
    requires
        response_fits(r),
    ensures
        response_parse(response_wire(r) + rest) == Some(r),
{
    let s2 = text_wire(r.message) + rest;
    let s1 = blob_wire(r.digest) + s2;
    assert(response_wire(r) + rest =~= flag_wire(r.accepted) + s1);
    lemma_take_flag(r.accepted, s1);
    lemma_take_blob(r.digest, s2);
    lemma_take_text(r.message, rest);
}

/// Encoding a device descriptor and decoding the result gives the
/// descriptor back.
pub proof fn theorem_device_info_round_trip(d: DeviceInfoView, rest: Seq<u8>)
    requires
        device_info_fits(d),
    ensures
        device_info_parse(device_info_wire(d) + rest) == Some(d),
{
    let s2 = le_bytes(d.ram_capacity_gb as nat, 8) + rest;
    let s1 = text_wire(d.cpu_model) + s2;
    assert(device_info_wire(d) + rest =~= text_wire(d.os) + s1);
    lemma_take_text(d.os, s1);
    lemma_take_text(d.cpu_model, s2);
    lemma_take_u64(d.ram_capacity_gb as nat, rest);
}

/// No message has an empty payload: a frame whose header says 0 carries
/// none of the four.
pub proof fn theorem_empty_payload_is_no_message()
    ensures
        template_parse(Seq::empty()) is None,
        submission_parse(Seq::empty()) is None,
        response_parse(Seq::empty()) is None,
        device_info_parse(Seq::empty()) is None,
{
}

/// The one-word replies that end the two handshake exchanges.
#[derive(Debug, Clone, Copy, PartialEq, Eq, Structural)]
pub enum Verdict {
    /// The credential was accepted.
    Authenticated,
    /// The device descriptor was accepted.
    Accepted,
    /// The credential or the device descriptor was refused.
    Rejected,
}

/// The bytes of a reply: the ASCII words `authenticated`, `accepted` and
/// `rejected`, with no length header.
pub open spec fn verdict_wire(v: Verdict) -> Seq<u8> {
    match v {
        Verdict::Authenticated => seq![
            0x61u8, 0x75u8, 0x74u8, 0x68u8, 0x65u8, 0x6eu8, 0x74u8, 0x69u8, 0x63u8, 0x61u8,
            0x74u8, 0x65u8, 0x64u8,
        ],
        Verdict::Accepted => seq![
            0x61u8, 0x63u8, 0x63u8, 0x65u8, 0x70u8, 0x74u8, 0x65u8, 0x64u8,
        ],
        Verdict::Rejected => seq![
            0x72u8, 0x65u8, 0x6au8, 0x65u8, 0x63u8, 0x74u8, 0x65u8, 0x64u8,
        ],
    }
}

/// The bytes of a reply.
pub fn verdict_bytes(v: Verdict) -> (out: Vec<u8>)
    ensures
        out@ == verdict_wire(v),
        out@.len() <= HANDSHAKE_LIMIT,
{
    let out = match v {
        Verdict::Authenticated => vec![
            0x61u8, 0x75u8, 0x74u8, 0x68u8, 0x65u8, 0x6eu8, 0x74u8, 0x69u8, 0x63u8, 0x61u8,
            0x74u8, 0x65u8, 0x64u8,
        ],
        Verdict::Accepted => vec![0x61u8, 0x63u8, 0x63u8, 0x65u8, 0x70u8, 0x74u8, 0x65u8, 0x64u8],
        Verdict::Rejected => vec![0x72u8, 0x65u8, 0x6au8, 0x65u8, 0x63u8, 0x74u8, 0x65u8, 0x64u8],
    };
    assert(out@ =~= verdict_wire(v));
    out
}

/// Whether two buffers hold the same bytes.
pub fn same_bytes(a: &[u8], b: &[u8]) -> (same: bool)
    ensures
        same == (a@ == b@),
{
    if a.len() != b.len() {
        return false;
    }
    let mut i: usize = 0;
    while i < a.len()
        invariant
            a@.len() == b@.len(),
            i <= a@.len(),
            forall|j: int| 0 <= j < i ==> a@[j] == b@[j],
        decreases a@.len() - i,
    {
        if a[i] != b[i] {
            return false;
        }
        i += 1;
    }
    assert(a@ =~= b@);
    true
}

/// Whether a reply is exactly the one expected. Anything else, a longer
/// or shorter text included, is not.
pub fn is_verdict(reply: &[u8], expected: Verdict) -> (yes: bool)
    ensures
        yes == (reply@ == verdict_wire(expected)),
{
    let want = verdict_bytes(expected);
    same_bytes(reply, want.as_slice())
}

/// `String::from_utf8`: the text that the bytes spell, where they are
/// valid UTF-8, and nothing where they are not.
#[verifier::external_body]
pub(crate) fn text_from_utf8(bytes: Vec<u8>) -> (r: Option<String>)
    ensures
        match r {
            Some(s) => valid_utf8(bytes@) && s@ == decode_utf8(bytes@),
            None => !valid_utf8(bytes@),
        },
{
    String::from_utf8(bytes).ok()
}

} // verus!
