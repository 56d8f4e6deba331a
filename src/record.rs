//! Fixed-layout binary form of one update request.
//!
//! The stored layout is packed little-endian:
//! version (4) | target id (16) | capsule flags (4) | hardware instance (8) |
//! time attempted (16) | status (4) | device path (rest of the buffer).
//! Decoding reads byte by byte after a length check, so any buffer alignment
//! is accepted and no field is read past the end of the buffer.
use vstd::bytes::*;
use vstd::prelude::*;
use vstd::slice::slice_subrange;

verus! {

broadcast use vstd::seq_lib::group_seq_properties;

/// Layout version understood by this library.
pub const UPDATE_INFO_VERSION: u32 = 7;

/// Size in bytes of the fixed header that precedes the device path.
pub const HEADER_SIZE: usize = 52;

/// Status bit: an update was requested.
pub const STATUS_ATTEMPT_UPDATE: u32 = 0x1;

/// Status bit: an attempt has been made in this or an earlier boot.
pub const STATUS_ATTEMPTED: u32 = 0x2;

/// Status bit: the last attempt was staged successfully.
pub const STATUS_SUCCEEDED: u32 = 0x4;

/// Status bit: the last attempt failed.
pub const STATUS_FAILED: u32 = 0x8;

/// Wall-clock time as the firmware stores it, reserved bytes included so
/// that a decoded record encodes back to the same bytes.
#[derive(Clone, Copy, Debug, PartialEq, Eq, Structural)]
pub struct Timestamp {
    pub year: u16,
    pub month: u8,
    pub day: u8,
    pub hour: u8,
    pub minute: u8,
    pub second: u8,
    pub pad1: u8,
    pub nanosecond: u32,
    pub time_zone: i16,
    pub daylight: u8,
    pub pad2: u8,
}

/// A decoded update request.
#[derive(Debug)]
pub struct UpdateInfo {
    pub version: u32,
    /// Target capsule identifier: the 16 stored bytes read little-endian.
    pub guid: u128,
    pub capsule_flags: u32,
    pub hw_inst: u64,
    pub time_attempted: Timestamp,
    pub status: u32,
    /// Trailing device path, kept verbatim.
    pub device_path: Vec<u8>,
}

pub ghost struct UpdateInfoView {
    pub version: u32,
    pub guid: u128,
    pub capsule_flags: u32,
    pub hw_inst: u64,
    pub time_attempted: Timestamp,
    pub status: u32,
    pub device_path: Seq<u8>,
}

impl View for UpdateInfo {
    type V = UpdateInfoView;

    open spec fn view(&self) -> UpdateInfoView {
        UpdateInfoView {
            version: self.version,
            guid: self.guid,
            capsule_flags: self.capsule_flags,
            hw_inst: self.hw_inst,
            time_attempted: self.time_attempted,
            status: self.status,
            device_path: self.device_path@,
        }
    }
}

#[derive(Clone, Copy, Debug, PartialEq, Eq, Structural)]
pub enum DecodeError {
    /// The buffer is shorter than the fixed header.
    MalformedRecord,
    /// The header carries a layout version other than `UPDATE_INFO_VERSION`.
    UnsupportedVersion,
}

pub open spec fn timestamp_bytes(t: Timestamp) -> Seq<u8> {
    spec_u16_to_le_bytes(t.year) + seq![t.month, t.day, t.hour, t.minute, t.second, t.pad1]
        + spec_u32_to_le_bytes(t.nanosecond) + spec_u16_to_le_bytes(t.time_zone as u16) + seq![
        t.daylight,
        t.pad2,
    ]
}

/// The stored bytes of a record.
pub open spec fn encoding(v: UpdateInfoView) -> Seq<u8> {
    spec_u32_to_le_bytes(v.version) + spec_u128_to_le_bytes(v.guid) + spec_u32_to_le_bytes(
        v.capsule_flags,
    ) + spec_u64_to_le_bytes(v.hw_inst) + timestamp_bytes(v.time_attempted)
        + spec_u32_to_le_bytes(v.status) + v.device_path
}

pub open spec fn parse_timestamp(b: Seq<u8>) -> Timestamp {
    Timestamp {
        year: spec_u16_from_le_bytes(b.subrange(0, 2)),
        month: b[2],
        day: b[3],
        hour: b[4],
        minute: b[5],
        second: b[6],
        pad1: b[7],
        nanosecond: spec_u32_from_le_bytes(b.subrange(8, 12)),
        time_zone: spec_u16_from_le_bytes(b.subrange(12, 14)) as i16,
        daylight: b[14],
        pad2: b[15],
    }
}

/// The record that a buffer holding at least a full header stands for.
pub open spec fn parse(b: Seq<u8>) -> UpdateInfoView {
    UpdateInfoView {
        version: spec_u32_from_le_bytes(b.subrange(0, 4)),
        guid: spec_u128_from_le_bytes(b.subrange(4, 20)),
        capsule_flags: spec_u32_from_le_bytes(b.subrange(20, 24)),
        hw_inst: spec_u64_from_le_bytes(b.subrange(24, 32)),
        time_attempted: parse_timestamp(b.subrange(32, 48)),
        status: spec_u32_from_le_bytes(b.subrange(48, 52)),
        device_path: b.subrange(52, b.len() as int),
    }
}

/// A buffer that decodes to a record.
pub open spec fn well_formed(b: Seq<u8>) -> bool {
    b.len() >= HEADER_SIZE && parse(b).version == UPDATE_INFO_VERSION
}

/// What decoding a buffer gives.
pub open spec fn decode_result(b: Seq<u8>) -> Result<UpdateInfoView, DecodeError> {
    if b.len() < HEADER_SIZE {
        Err(DecodeError::MalformedRecord)
    } else if parse(b).version != UPDATE_INFO_VERSION {
        Err(DecodeError::UnsupportedVersion)
    } else {
        Ok(parse(b))
    }
}

proof fn lemma_timestamp_bytes(b: Seq<u8>)
    requires
        b.len() == 16,
    ensures
        timestamp_bytes(parse_timestamp(b)) == b,
{
    lemma_auto_spec_u16_to_from_le_bytes();
    lemma_auto_spec_u32_to_from_le_bytes();
    let raw = spec_u16_from_le_bytes(b.subrange(12, 14));
    assert((raw as i16) as u16 == raw) by (bit_vector);
    assert(timestamp_bytes(parse_timestamp(b)) =~= b);
}

proof fn lemma_parse_timestamp(t: Timestamp)
    ensures
        timestamp_bytes(t).len() == 16,
        parse_timestamp(timestamp_bytes(t)) == t,
{
    lemma_auto_spec_u16_to_from_le_bytes();
    lemma_auto_spec_u32_to_from_le_bytes();
    let b = timestamp_bytes(t);
    let tz = t.time_zone;
    assert((tz as u16) as i16 == tz) by (bit_vector);
    assert(b.subrange(0, 2) =~= spec_u16_to_le_bytes(t.year));
    assert(b.subrange(8, 12) =~= spec_u32_to_le_bytes(t.nanosecond));
    assert(b.subrange(12, 14) =~= spec_u16_to_le_bytes(t.time_zone as u16));
}

/// Encoding the record that a well-formed buffer stands for gives back that
/// buffer, byte for byte.
pub proof fn lemma_encoding_of_parse(b: Seq<u8>)
    requires
        b.len() >= HEADER_SIZE,
    ensures
        encoding(parse(b)) == b,
{
    lemma_auto_spec_u32_to_from_le_bytes();
    lemma_auto_spec_u64_to_from_le_bytes();
    lemma_auto_spec_u128_to_from_le_bytes();
    lemma_timestamp_bytes(b.subrange(32, 48));
    assert(encoding(parse(b)) =~= b);
}

/// Parsing the encoding of a record gives back that record.
pub proof fn lemma_parse_of_encoding(v: UpdateInfoView)
    ensures
        encoding(v).len() == HEADER_SIZE + v.device_path.len(),
        parse(encoding(v)) == v,
{
    lemma_auto_spec_u32_to_from_le_bytes();
    lemma_auto_spec_u64_to_from_le_bytes();
    lemma_auto_spec_u128_to_from_le_bytes();
    lemma_parse_timestamp(v.time_attempted);
    let b = encoding(v);
    assert(b.subrange(0, 4) =~= spec_u32_to_le_bytes(v.version));
    assert(b.subrange(4, 20) =~= spec_u128_to_le_bytes(v.guid));
    assert(b.subrange(20, 24) =~= spec_u32_to_le_bytes(v.capsule_flags));
    assert(b.subrange(24, 32) =~= spec_u64_to_le_bytes(v.hw_inst));
    assert(b.subrange(32, 48) =~= timestamp_bytes(v.time_attempted));
    assert(b.subrange(48, 52) =~= spec_u32_to_le_bytes(v.status));
    assert(b.subrange(52, b.len() as int) =~= v.device_path);
}

fn decode_timestamp(b: &[u8]) -> (t: Timestamp)
    requires
        b@.len() == 16,
    ensures
        t == parse_timestamp(b@),
{
    let raw_tz = u16_from_le_bytes(slice_subrange(b, 12, 14));
    Timestamp {
        year: u16_from_le_bytes(slice_subrange(b, 0, 2)),
        month: b[2],
        day: b[3],
        hour: b[4],
        minute: b[5],
        second: b[6],
        pad1: b[7],
        nanosecond: u32_from_le_bytes(slice_subrange(b, 8, 12)),
        time_zone: raw_tz as i16,
        daylight: b[14],
        pad2: b[15],
    }
}

/// Decodes one stored update request.
pub fn decode(buf: &[u8]) -> (r: Result<UpdateInfo, DecodeError>)
    ensures
        match r {
            Ok(info) => decode_result(buf@) == Ok::<UpdateInfoView, DecodeError>(info@),
            Err(e) => decode_result(buf@) == Err::<UpdateInfoView, DecodeError>(e),
        },
{
    if buf.len() < HEADER_SIZE {
        return Err(DecodeError::MalformedRecord);
    }
    let version = u32_from_le_bytes(slice_subrange(buf, 0, 4));
    if version != UPDATE_INFO_VERSION {
        return Err(DecodeError::UnsupportedVersion);
    }
    let tail = slice_subrange(buf, HEADER_SIZE, buf.len());
    let mut device_path: Vec<u8> = Vec::new();
    let mut i: usize = 0;
    while i < tail.len()
        invariant
            i <= tail@.len(),
            device_path@ == tail@.subrange(0, i as int),
        decreases tail@.len() - i,
    {
        device_path.push(tail[i]);
        i = i + 1;
    }
    assert(device_path@ =~= tail@);
    let info = UpdateInfo {
        version,
        guid: u128_from_le_bytes(slice_subrange(buf, 4, 20)),
        capsule_flags: u32_from_le_bytes(slice_subrange(buf, 20, 24)),
        hw_inst: u64_from_le_bytes(slice_subrange(buf, 24, 32)),
        time_attempted: decode_timestamp(slice_subrange(buf, 32, 48)),
        status: u32_from_le_bytes(slice_subrange(buf, 48, 52)),
        device_path,
    };
    Ok(info)
}

fn append_bytes(out: &mut Vec<u8>, bytes: &[u8])
    ensures
        final(out)@ == old(out)@ + bytes@,
{
    let mut i: usize = 0;
    while i < bytes.len()
        invariant
            i <= bytes@.len(),
            out@ == old(out)@ + bytes@.subrange(0, i as int),
        decreases bytes@.len() - i,
    {
        out.push(bytes[i]);
        i = i + 1;
    }
    assert(bytes@.subrange(0, bytes@.len() as int) =~= bytes@);
}

fn append_timestamp(out: &mut Vec<u8>, t: Timestamp)
    ensures
        final(out)@ == old(out)@ + timestamp_bytes(t),
{
    let ghost start = out@;
    append_bytes(out, u16_to_le_bytes(t.year).as_slice());
    out.push(t.month);
    out.push(t.day);
    out.push(t.hour);
    out.push(t.minute);
    out.push(t.second);
    out.push(t.pad1);
    append_bytes(out, u32_to_le_bytes(t.nanosecond).as_slice());
    append_bytes(out, u16_to_le_bytes(t.time_zone as u16).as_slice());
    out.push(t.daylight);
    out.push(t.pad2);
    assert(out@ =~= start + timestamp_bytes(t));
}

impl UpdateInfo {
    /// Encodes the record into its stored form.
    pub fn encode(&self) -> (r: Vec<u8>)
        ensures
            r@ == encoding(self@),
    {
        let mut out: Vec<u8> = Vec::new();
        append_bytes(&mut out, u32_to_le_bytes(self.version).as_slice());
        append_bytes(&mut out, u128_to_le_bytes(self.guid).as_slice());
        append_bytes(&mut out, u32_to_le_bytes(self.capsule_flags).as_slice());
        append_bytes(&mut out, u64_to_le_bytes(self.hw_inst).as_slice());
        append_timestamp(&mut out, self.time_attempted);
        append_bytes(&mut out, u32_to_le_bytes(self.status).as_slice());
        append_bytes(&mut out, self.device_path.as_slice());
        assert(out@ =~= encoding(self@));
        out
    }
}

/// Decoding a buffer and encoding the result gives back the buffer.
pub proof fn lemma_decode_encode_round_trip(b: Seq<u8>)
    requires
        well_formed(b),
    ensures
        decode_result(b) == Ok::<UpdateInfoView, DecodeError>(parse(b)),
        encoding(parse(b)) == b,
{
    lemma_encoding_of_parse(b);
}

} // verus!
