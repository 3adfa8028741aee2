//! Wire encoding of the fixed-size header that prefixes every log record
//! sent to the logging daemon over its local socket.
//!
//! The header packs a set of small semantic fields (protocol version, log
//! type, severity level, tag length) into one 16-bit bitfield and lays the
//! full header out as an exact byte sequence. The layout must be bit-exact
//! with what the receiving daemon expects, so the packing and the
//! serialization are written as explicit pack/unpack and encode functions
//! over named bit-width, offset and size constants.

use vstd::prelude::*;

verus! {

/// Directory that holds the logging daemon's local sockets.
pub const SOCKET_FILE_DIR: &'static str = "/dev/unix/socket/";

/// Name of the daemon's input socket endpoint.
pub const INPUT_SOCKET_NAME: &'static str = "hilogInput";

/// Full path of the daemon's input socket.
pub const HILOG_SOCKET_PATH: &'static str = "/dev/unix/socket/hilogInput";

/// Maximum length of a log record, including the terminating '\0'.
pub const MAX_LOG_LEN: usize = 4096;

/// Maximum length of a log tag, including the terminating '\0'.
pub const MAX_TAG_LEN: usize = 32;

/// The caller asked for a tag length above `MAX_TAG_LEN`.
#[derive(Debug, Clone, Copy, PartialEq, Eq)]
pub struct TagLenError;

/// A validated tag length: at most `MAX_TAG_LEN`, so it always fits the
/// 6-bit field reserved for it in the packed bitfield.
pub struct TagLen(u16);

impl View for TagLen {
    type V = u16;

    closed spec fn view(&self) -> u16 {
        self.0
    }
}

impl TagLen {
    /// Every value of this type stays within the application ceiling,
    /// which is below the 6-bit field capacity.
    #[verifier::type_invariant]
    closed spec fn inv(self) -> bool {
        self.0 <= MAX_TAG_LEN as u16
    }

    /// Validates a tag length: lengths above `MAX_TAG_LEN` are rejected,
    /// never clamped or wrapped.
    pub fn new(len: usize) -> (r: Result<TagLen, TagLenError>)
        ensures
            r is Ok <==> len <= MAX_TAG_LEN,
            r is Ok ==> r->Ok_0@ == len,
    {
        if len > MAX_TAG_LEN {
            Err(TagLenError)
        } else {
            Ok(TagLen(len as u16))
        }
    }

    /// The validated length.
    pub fn value(&self) -> (r: u16)
        ensures
            r == self@,
    {
        self.0
    }
}

/// Width in bits of the protocol-version sub-field.
pub const VERSION_BITS: u16 = 3;

/// Width in bits of the log-type sub-field.
pub const TYPE_BITS: u16 = 4;

/// Width in bits of the severity-level sub-field.
pub const LEVEL_BITS: u16 = 3;

/// Width in bits of the tag-length sub-field.
pub const TAG_LEN_BITS: u16 = 6;

/// Bit offset of the protocol version: bits [0, 3).
pub const VERSION_OFFSET: u16 = 0;

/// Bit offset of the log type: bits [3, 7).
pub const TYPE_OFFSET: u16 = VERSION_OFFSET + VERSION_BITS;

/// Bit offset of the severity level: bits [7, 10).
pub const LEVEL_OFFSET: u16 = TYPE_OFFSET + TYPE_BITS;

/// Bit offset of the tag length: bits [10, 16).
pub const TAG_LEN_OFFSET: u16 = LEVEL_OFFSET + LEVEL_BITS;

/// Mask of a 3-bit sub-field value.
pub const VERSION_MASK: u16 = 0x7;

/// Mask of a 4-bit sub-field value.
pub const TYPE_MASK: u16 = 0xF;

/// Mask of a 3-bit sub-field value.
pub const LEVEL_MASK: u16 = 0x7;

/// Mask of a 6-bit sub-field value.
pub const TAG_LEN_MASK: u16 = 0x3F;

/// Wire-format revision understood by this encoder; not user-configurable.
pub const VERSION: u16 = 0;

/// The packed 16-bit bitfield: each sub-field placed at its documented
/// offset by shift-and-or, no two sub-fields overlapping.
pub open spec fn pack_meta(log_type: u16, level: u16, tag_len: u16) -> u16 {
    (VERSION << VERSION_OFFSET) | (log_type << TYPE_OFFSET) | (level << LEVEL_OFFSET)
        | (tag_len << TAG_LEN_OFFSET)
}

/// The protocol version read back out of a packed bitfield.
pub open spec fn unpack_version(packed: u16) -> u16 {
    (packed >> VERSION_OFFSET) & VERSION_MASK
}

/// The log type read back out of a packed bitfield.
pub open spec fn unpack_type(packed: u16) -> u16 {
    (packed >> TYPE_OFFSET) & TYPE_MASK
}

/// The severity level read back out of a packed bitfield.
pub open spec fn unpack_level(packed: u16) -> u16 {
    (packed >> LEVEL_OFFSET) & LEVEL_MASK
}

/// The tag length read back out of a packed bitfield.
pub open spec fn unpack_tag_len(packed: u16) -> u16 {
    (packed >> TAG_LEN_OFFSET) & TAG_LEN_MASK
}

/// The 16-bit bitfield packing protocol version, log type, severity level
/// and tag length, in that order from the least significant bit.
pub struct MessageMetaField(u16);

impl View for MessageMetaField {
    type V = u16;

    closed spec fn view(&self) -> u16 {
        self.0
    }
}

impl MessageMetaField {
    /// Packs the fixed protocol version, the log type, the level and the
    /// validated tag length into their designated bit ranges.
    ///
    /// Type and level are trusted as already-bounded enum representations:
    /// the caller supplies values that fit their declared bit widths.
    pub fn new(log_type: u16, level: u16, tag_len: TagLen) -> (r: MessageMetaField)
        requires
            log_type <= TYPE_MASK,
            level <= LEVEL_MASK,
        ensures
            r@ == pack_meta(log_type, level, tag_len@),
            r@ == log_type * 8 + level * 128 + tag_len@ * 1024,
    {
        proof {
            use_type_invariant(&tag_len);
        }
        let packed: u16 = (VERSION << VERSION_OFFSET) | (log_type << TYPE_OFFSET)
            | (level << LEVEL_OFFSET) | (tag_len.0 << TAG_LEN_OFFSET);
        proof {
            lemma_pack_meta_arith(log_type, level, tag_len.0);
        }
        MessageMetaField(packed)
    }

    /// The raw packed 16-bit value, as it goes on the wire.
    pub fn value(&self) -> (r: u16)
        ensures
            r == self@,
    {
        self.0
    }

    /// Decodes the protocol version from bits [0, 3).
    pub fn version(&self) -> (r: u16)
        ensures
            r == unpack_version(self@),
    {
        (self.0 >> VERSION_OFFSET) & VERSION_MASK
    }

    /// Decodes the log type from bits [3, 7).
    pub fn log_type(&self) -> (r: u16)
        ensures
            r == unpack_type(self@),
    {
        (self.0 >> TYPE_OFFSET) & TYPE_MASK
    }

    /// Decodes the severity level from bits [7, 10).
    pub fn level(&self) -> (r: u16)
        ensures
            r == unpack_level(self@),
    {
        (self.0 >> LEVEL_OFFSET) & LEVEL_MASK
    }

    /// Decodes the tag length from bits [10, 16).
    pub fn tag_len(&self) -> (r: u16)
        ensures
            r == unpack_tag_len(self@),
    {
        (self.0 >> TAG_LEN_OFFSET) & TAG_LEN_MASK
    }
}

/// The shift-and-or packing of in-range sub-fields equals the plain
/// weighted sum of the sub-fields, so a packed value can be computed (and
/// checked) by ordinary arithmetic.
pub proof fn lemma_pack_meta_arith(log_type: u16, level: u16, tag_len: u16)
    requires
        log_type <= TYPE_MASK,
        level <= LEVEL_MASK,
        tag_len <= TAG_LEN_MASK,
    ensures
        pack_meta(log_type, level, tag_len) == log_type * 8 + level * 128 + tag_len * 1024,
{
    assert((0u16 << 0) | (log_type << 3) | (level << 7) | (tag_len << 10) == log_type * 8
        + level * 128 + tag_len * 1024) by (bit_vector)
        requires
            log_type <= 0xF,
            level <= 0x7,
            tag_len <= 0x3F,
    ;
}

/// Decoding a packed bitfield by the documented shifts reproduces exactly
/// the sub-fields that built it, for every in-range combination.
pub proof fn lemma_meta_round_trip(log_type: u16, level: u16, tag_len: u16)
    requires
        log_type <= TYPE_MASK,
        level <= LEVEL_MASK,
        tag_len <= TAG_LEN_MASK,
    ensures
        unpack_version(pack_meta(log_type, level, tag_len)) == VERSION,
        unpack_type(pack_meta(log_type, level, tag_len)) == log_type,
        unpack_level(pack_meta(log_type, level, tag_len)) == level,
        unpack_tag_len(pack_meta(log_type, level, tag_len)) == tag_len,
{
    let packed = pack_meta(log_type, level, tag_len);
    assert((packed >> 0) & 0x7 == 0 && (packed >> 3) & 0xF == log_type && (packed >> 7) & 0x7
        == level && (packed >> 10) & 0x3F == tag_len) by (bit_vector)
        requires
            packed == (0u16 << 0) | (log_type << 3) | (level << 7) | (tag_len << 10),
            log_type <= 0xF,
            level <= 0x7,
            tag_len <= 0x3F,
    ;
}

/// Size in bytes of the serialized header: two 16-bit fields followed by
/// six 32-bit fields, packed with no padding between or after fields.
pub const HEADER_LEN: usize = 28;

/// The two bytes of a 16-bit field, least significant byte first.
pub open spec fn u16_le(x: u16) -> Seq<u8> {
    seq![(x & 0xFF) as u8, ((x >> 8) & 0xFF) as u8]
}

/// The four bytes of a 32-bit field, least significant byte first.
pub open spec fn u32_le(x: u32) -> Seq<u8> {
    seq![
        (x & 0xFF) as u8,
        ((x >> 8) & 0xFF) as u8,
        ((x >> 16) & 0xFF) as u8,
        ((x >> 24) & 0xFF) as u8,
    ]
}

/// The full fixed-size header that prefixes a log record on the wire: the
/// packed bitfield plus length, timing and identity fields.
pub struct HilogMsg {
    /// Total message length including this header.
    pub len: u16,
    /// Version, log type, level and tag length, packed.
    pub meta_bitfield: MessageMetaField,
    /// Wall-clock seconds.
    pub tv_sec: u32,
    /// Wall-clock nanosecond remainder.
    pub tv_nsec: u32,
    /// Monotonic-clock seconds.
    pub mono_sec: u32,
    /// Process id.
    pub pid: u32,
    /// Thread id.
    pub tid: u32,
    /// Logging domain / subsystem id.
    pub domain: u32,
}

/// The serialized header: every field in declaration order, each encoded
/// little-endian, with no padding anywhere.
pub open spec fn msg_bytes(m: HilogMsg) -> Seq<u8> {
    u16_le(m.len) + u16_le(m.meta_bitfield@) + u32_le(m.tv_sec) + u32_le(m.tv_nsec)
        + u32_le(m.mono_sec) + u32_le(m.pid) + u32_le(m.tid) + u32_le(m.domain)
}

/// Appends the two little-endian bytes of a 16-bit field.
fn push_u16_le(out: &mut Vec<u8>, x: u16)
    ensures
        final(out)@ == old(out)@ + u16_le(x),
{
    proof {
        assert(x & 0xFF <= 0xFF && (x >> 8) & 0xFF <= 0xFF) by (bit_vector);
    }
    out.push((x & 0xFF) as u8);
    out.push(((x >> 8) & 0xFF) as u8);
    assert(out@ =~= old(out)@ + u16_le(x));
}

/// Appends the four little-endian bytes of a 32-bit field.
fn push_u32_le(out: &mut Vec<u8>, x: u32)
    ensures
        final(out)@ == old(out)@ + u32_le(x),
{
    proof {
        assert(x & 0xFF <= 0xFF && (x >> 8) & 0xFF <= 0xFF && (x >> 16) & 0xFF <= 0xFF && (x
            >> 24) & 0xFF <= 0xFF) by (bit_vector);
    }
    out.push((x & 0xFF) as u8);
    out.push(((x >> 8) & 0xFF) as u8);
    out.push(((x >> 16) & 0xFF) as u8);
    out.push(((x >> 24) & 0xFF) as u8);
    assert(out@ =~= old(out)@ + u32_le(x));
}

impl HilogMsg {
    /// Serializes the header for transmission: each field written in its
    /// fixed order, little-endian, into a fresh buffer of exactly
    /// `HEADER_LEN` bytes. The header itself is left untouched.
    pub fn as_bytes(&self) -> (r: Vec<u8>)
        ensures
            r@ == msg_bytes(*self),
            r@.len() == HEADER_LEN,
    {
        let mut out: Vec<u8> = Vec::new();
        push_u16_le(&mut out, self.len);
        push_u16_le(&mut out, self.meta_bitfield.value());
        push_u32_le(&mut out, self.tv_sec);
        push_u32_le(&mut out, self.tv_nsec);
        push_u32_le(&mut out, self.mono_sec);
        push_u32_le(&mut out, self.pid);
        push_u32_le(&mut out, self.tid);
        push_u32_le(&mut out, self.domain);
        assert(out@ =~= msg_bytes(*self));
        out
    }
}

/// Serialization is deterministic: two headers whose fields hold identical
/// values produce identical byte sequences.
pub proof fn lemma_msg_bytes_deterministic(a: HilogMsg, b: HilogMsg)
    requires
        a.len == b.len,
        a.meta_bitfield@ == b.meta_bitfield@,
        a.tv_sec == b.tv_sec,
        a.tv_nsec == b.tv_nsec,
        a.mono_sec == b.mono_sec,
        a.pid == b.pid,
        a.tid == b.tid,
        a.domain == b.domain,
    ensures
        msg_bytes(a) == msg_bytes(b),
{
    assert(msg_bytes(a) =~= msg_bytes(b));
}

/// Each field owns a fixed byte range of the serialized header: the bytes
/// of that range are the field's own encoding and depend on nothing else,
/// so changing one field changes the byte sequence only at its range.
pub proof fn lemma_msg_bytes_field_ranges(m: HilogMsg)
    ensures
        msg_bytes(m).len() == HEADER_LEN,
        msg_bytes(m).subrange(0, 2) == u16_le(m.len),
        msg_bytes(m).subrange(2, 4) == u16_le(m.meta_bitfield@),
        msg_bytes(m).subrange(4, 8) == u32_le(m.tv_sec),
        msg_bytes(m).subrange(8, 12) == u32_le(m.tv_nsec),
        msg_bytes(m).subrange(12, 16) == u32_le(m.mono_sec),
        msg_bytes(m).subrange(16, 20) == u32_le(m.pid),
        msg_bytes(m).subrange(20, 24) == u32_le(m.tid),
        msg_bytes(m).subrange(24, 28) == u32_le(m.domain),
{
    assert(msg_bytes(m).subrange(0, 2) =~= u16_le(m.len));
    assert(msg_bytes(m).subrange(2, 4) =~= u16_le(m.meta_bitfield@));
    assert(msg_bytes(m).subrange(4, 8) =~= u32_le(m.tv_sec));
    assert(msg_bytes(m).subrange(8, 12) =~= u32_le(m.tv_nsec));
    assert(msg_bytes(m).subrange(12, 16) =~= u32_le(m.mono_sec));
    assert(msg_bytes(m).subrange(16, 20) =~= u32_le(m.pid));
    assert(msg_bytes(m).subrange(20, 24) =~= u32_le(m.tid));
    assert(msg_bytes(m).subrange(24, 28) =~= u32_le(m.domain));
}

} // verus!
