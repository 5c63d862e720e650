//! The framed binary wire format: one message per frame, with a checksum and
//! a packed flags word.
use crate::endian::{read_u16_le, read_u32_le, u16_le_bytes, u32_le_bytes};
use vstd::bytes::{
    lemma_auto_spec_u16_to_from_le_bytes, lemma_auto_spec_u32_to_from_le_bytes,
    spec_u16_from_le_bytes, spec_u16_to_le_bytes, spec_u32_from_le_bytes, spec_u32_to_le_bytes,
};
use vstd::prelude::*;
use vstd::slice::{slice_subrange, slice_to_vec};

verus! {

/// Byte that opens and closes every frame.
pub const WRAPPER: u8 = 0x7E;

/// Protocol version written into every encoded frame.
pub const PROTOCOL_VERSION: u8 = 100;

/// Largest payload that the ten-bit length field can describe.
pub const MAX_PAYLOAD_LEN: usize = 1023;

/// Kind of content a frame carries.
#[derive(Clone, Copy, Debug, PartialEq, Eq, Structural, Hash)]
pub enum ContentType {
    Message,
    Data,
}

impl ContentType {
    /// Wire code of the variant.
    pub open spec fn code(self) -> u8 {
        match self {
            ContentType::Message => 1,
            ContentType::Data => 2,
        }
    }

    /// Variant that a wire code names, if any.
    pub open spec fn from_code(v: u8) -> Option<ContentType> {
        if v == 1 {
            Some(ContentType::Message)
        } else if v == 2 {
            Some(ContentType::Data)
        } else {
            None
        }
    }

    pub fn to_primitive(&self) -> (r: u8)
        ensures
            r == self.code(),
    {
        match self {
            ContentType::Message => 1,
            ContentType::Data => 2,
        }
    }

    pub fn from_primitive(v: u8) -> (r: Option<ContentType>)
        ensures
            r == ContentType::from_code(v),
    {
        if v == 1 {
            Some(ContentType::Message)
        } else if v == 2 {
            Some(ContentType::Data)
        } else {
            None
        }
    }

    /// Lower-case name of the variant.
    pub fn name(&self) -> (r: &'static str)
        ensures
            self is Message ==> r@ == "message"@,
            self is Data ==> r@ == "data"@,
    {
        match self {
            ContentType::Message => "message",
            ContentType::Data => "data",
        }
    }
}

/// Whether a frame asks or answers.
#[derive(Clone, Copy, Debug, PartialEq, Eq, Structural, Hash)]
pub enum InteractionType {
    Request,
    Response,
}

impl InteractionType {
    pub open spec fn code(self) -> u8 {
        match self {
            InteractionType::Request => 6,
            InteractionType::Response => 7,
        }
    }

    pub open spec fn from_code(v: u8) -> Option<InteractionType> {
        if v == 6 {
            Some(InteractionType::Request)
        } else if v == 7 {
            Some(InteractionType::Response)
        } else {
            None
        }
    }

    pub fn to_primitive(&self) -> (r: u8)
        ensures
            r == self.code(),
    {
        match self {
            InteractionType::Request => 6,
            InteractionType::Response => 7,
        }
    }

    pub fn from_primitive(v: u8) -> (r: Option<InteractionType>)
        ensures
            r == InteractionType::from_code(v),
    {
        if v == 6 {
            Some(InteractionType::Request)
        } else if v == 7 {
            Some(InteractionType::Response)
        } else {
            None
        }
    }

    pub fn name(&self) -> (r: &'static str)
        ensures
            self is Request ==> r@ == "request"@,
            self is Response ==> r@ == "response"@,
    {
        match self {
            InteractionType::Request => "request",
            InteractionType::Response => "response",
        }
    }
}

/// How the payload of a frame is encoded.
#[derive(Clone, Copy, Debug, PartialEq, Eq, Structural, Hash)]
pub enum EncodingType {
    Hexadecimal,
    Json,
}

impl EncodingType {
    pub open spec fn code(self) -> u8 {
        match self {
            EncodingType::Hexadecimal => 2,
            EncodingType::Json => 3,
        }
    }

    pub open spec fn from_code(v: u8) -> Option<EncodingType> {
        if v == 2 {
            Some(EncodingType::Hexadecimal)
        } else if v == 3 {
            Some(EncodingType::Json)
        } else {
            None
        }
    }

    pub fn to_primitive(&self) -> (r: u8)
        ensures
            r == self.code(),
    {
        match self {
            EncodingType::Hexadecimal => 2,
            EncodingType::Json => 3,
        }
    }

    pub fn from_primitive(v: u8) -> (r: Option<EncodingType>)
        ensures
            r == EncodingType::from_code(v),
    {
        if v == 2 {
            Some(EncodingType::Hexadecimal)
        } else if v == 3 {
            Some(EncodingType::Json)
        } else {
            None
        }
    }

    pub fn name(&self) -> (r: &'static str)
        ensures
            self is Hexadecimal ==> r@ == "hexadecimal"@,
            self is Json ==> r@ == "json"@,
    {
        match self {
            EncodingType::Hexadecimal => "hexadecimal",
            EncodingType::Json => "json",
        }
    }
}

/// Encryption applied to the payload.
#[derive(Clone, Copy, Debug, PartialEq, Eq, Structural, Hash)]
pub enum EncryptionMode {
    Unencrypted,
    RC4,
}

impl EncryptionMode {
    pub open spec fn code(self) -> u8 {
        match self {
            EncryptionMode::Unencrypted => 0,
            EncryptionMode::RC4 => 2,
        }
    }

    pub open spec fn from_code(v: u8) -> Option<EncryptionMode> {
        if v == 0 {
            Some(EncryptionMode::Unencrypted)
        } else if v == 2 {
            Some(EncryptionMode::RC4)
        } else {
            None
        }
    }

    pub fn to_primitive(&self) -> (r: u8)
        ensures
            r == self.code(),
    {
        match self {
            EncryptionMode::Unencrypted => 0,
            EncryptionMode::RC4 => 2,
        }
    }

    pub fn from_primitive(v: u8) -> (r: Option<EncryptionMode>)
        ensures
            r == EncryptionMode::from_code(v),
    {
        if v == 0 {
            Some(EncryptionMode::Unencrypted)
        } else if v == 2 {
            Some(EncryptionMode::RC4)
        } else {
            None
        }
    }

    pub fn name(&self) -> (r: &'static str)
        ensures
            self is Unencrypted ==> r@ == "none"@,
            self is RC4 ==> r@ == "RC4"@,
    {
        match self {
            EncryptionMode::Unencrypted => "none",
            EncryptionMode::RC4 => "RC4",
        }
    }
}

/// The flags word of a frame: payload length in bits 0 to 9, the
/// sub-package bit at 10, and the encryption mode's code in bits 11 to 13.
#[derive(Clone, Copy, Debug, PartialEq, Eq, Structural)]
pub struct AvocadoFlags {
    pub length: u16,
    pub is_subpackage: bool,
    pub encryption_mode: EncryptionMode,
}

/// The flags word that `f` packs into.
pub open spec fn pack_flags(f: AvocadoFlags) -> u16 {
    (f.length & 0x3ff) | (if f.is_subpackage { 0x400u16 } else { 0u16 }) | ((
    f.encryption_mode.code() as u16) << 11u16)
}

/// The flags that a word unpacks to; bits 14 and 15 are ignored.
pub open spec fn unpack_flags(w: u16) -> Option<AvocadoFlags> {
    match EncryptionMode::from_code(((w >> 11u16) & 7) as u8) {
        Some(m) => Some(
            AvocadoFlags { length: w & 0x3ff, is_subpackage: (w >> 10u16) & 1 == 1, encryption_mode: m },
        ),
        None => None,
    }
}

proof fn lemma_flags_bits(len: u16, sub: bool, code: u8)
    requires
        len <= 0x3ff,
        code <= 7,
    ensures
        ({
            let w = len | (if sub { 0x400u16 } else { 0u16 }) | ((code as u16) << 11u16);
            &&& w & 0x3ff == len
            &&& ((w >> 10u16) & 1 == 1) == sub
            &&& ((w >> 11u16) & 7) as u8 == code
            &&& w >> 14u16 == 0
        }),
        len & 0x3ff == len,
{
    assert(len <= 0x3ff ==> len & 0x3ff == len) by (bit_vector);
    if sub {
        assert(len <= 0x3ff && code <= 7 ==> ({
            let w = len | 0x400u16 | ((code as u16) << 11u16);
            &&& w & 0x3ff == len
            &&& (w >> 10u16) & 1 == 1
            &&& ((w >> 11u16) & 7) as u8 == code
            &&& w >> 14u16 == 0
        })) by (bit_vector);
    } else {
        assert(len <= 0x3ff && code <= 7 ==> ({
            let w = len | 0u16 | ((code as u16) << 11u16);
            &&& w & 0x3ff == len
            &&& (w >> 10u16) & 1 == 0
            &&& ((w >> 11u16) & 7) as u8 == code
            &&& w >> 14u16 == 0
        })) by (bit_vector);
    }
}

impl AvocadoFlags {
    /// The flags word, laid out bit by bit as the frame format documents it.
    pub fn pack(&self) -> (r: u16)
        requires
            self.length <= 0x3ff,
        ensures
            r == pack_flags(*self),
            r & 0x3ff == self.length,
            ((r >> 10u16) & 1 == 1) == self.is_subpackage,
            ((r >> 11u16) & 7) as u8 == self.encryption_mode.code(),
            r >> 14u16 == 0,
            unpack_flags(r) == Some(*self),
    {
        let code = self.encryption_mode.to_primitive();
        proof {
            lemma_flags_bits(self.length, self.is_subpackage, code);
        }
        let sub: u16 = if self.is_subpackage {
            0x400
        } else {
            0
        };
        (self.length & 0x3ff) | sub | ((code as u16) << 11u16)
    }

    /// Splits a flags word; `None` where bits 11 to 13 name no encryption mode.
    pub fn unpack(flags: u16) -> (r: Option<AvocadoFlags>)
        ensures
            r == unpack_flags(flags),
    {
        let mode = EncryptionMode::from_primitive(((flags >> 11u16) & 7) as u8);
        match mode {
            Some(m) => Some(
                AvocadoFlags {
                    length: flags & 0x3ff,
                    is_subpackage: (flags >> 10u16) & 1 == 1,
                    encryption_mode: m,
                },
            ),
            None => None,
        }
    }
}

/// Field of a frame that held a value the format does not allow.
#[derive(Clone, Copy, Debug, PartialEq, Eq, Structural, Hash)]
pub enum FrameField {
    Prefix,
    ContentType,
    InteractionType,
    EncodingType,
    Flags,
    Suffix,
}

impl FrameField {
    /// Name of the field as it is reported.
    pub fn name(&self) -> (r: &'static str)
        ensures
            self is Prefix ==> r@ == "prefix"@,
            self is ContentType ==> r@ == "content_type"@,
            self is InteractionType ==> r@ == "interaction_type"@,
            self is EncodingType ==> r@ == "encoding_type"@,
            self is Flags ==> r@ == "flags"@,
            self is Suffix ==> r@ == "suffix"@,
    {
        match self {
            FrameField::Prefix => "prefix",
            FrameField::ContentType => "content_type",
            FrameField::InteractionType => "interaction_type",
            FrameField::EncodingType => "encoding_type",
            FrameField::Flags => "flags",
            FrameField::Suffix => "suffix",
        }
    }
}

/// Why a frame could not be read.
#[derive(Clone, Copy, Debug, PartialEq, Eq, Structural, Hash)]
pub enum ProtocolError {
    /// The bytes ended before the frame did.
    UnexpectedEof,
    /// A field held a value the format does not allow.
    InvalidData(FrameField),
}

impl ProtocolError {
    /// A one-line description of the error.
    pub fn describe(&self) -> &'static str {
        match self {
            ProtocolError::UnexpectedEof => "reader error: unexpected end of data",
            ProtocolError::InvalidData(FrameField::Prefix) => "invalid data for field: prefix",
            ProtocolError::InvalidData(FrameField::ContentType) =>
                "invalid data for field: content_type",
            ProtocolError::InvalidData(FrameField::InteractionType) =>
                "invalid data for field: interaction_type",
            ProtocolError::InvalidData(FrameField::EncodingType) =>
                "invalid data for field: encoding_type",
            ProtocolError::InvalidData(FrameField::Flags) => "invalid data for field: flags",
            ProtocolError::InvalidData(FrameField::Suffix) => "invalid data for field: suffix",
        }
    }
}

/// One protocol message.
#[derive(Clone, Debug, PartialEq, Eq)]
pub struct AvocadoPacket {
    pub version: u8,
    pub content_type: ContentType,
    pub interaction_type: InteractionType,
    pub encoding_type: EncodingType,
    pub encryption_mode: EncryptionMode,
    pub terminal_id: u32,
    pub msg_number: u32,
    pub msg_package_total: u16,
    pub msg_package_num: u16,
    pub is_subpackage: bool,
    pub data: Vec<u8>,
}

/// A frame as a mathematical value.
pub struct PacketView {
    pub version: u8,
    pub content_type: ContentType,
    pub interaction_type: InteractionType,
    pub encoding_type: EncodingType,
    pub encryption_mode: EncryptionMode,
    pub terminal_id: u32,
    pub msg_number: u32,
    pub msg_package_total: u16,
    pub msg_package_num: u16,
    pub is_subpackage: bool,
    pub data: Seq<u8>,
}

impl View for AvocadoPacket {
    type V = PacketView;

    open spec fn view(&self) -> PacketView {
        PacketView {
            version: self.version,
            content_type: self.content_type,
            interaction_type: self.interaction_type,
            encoding_type: self.encoding_type,
            encryption_mode: self.encryption_mode,
            terminal_id: self.terminal_id,
            msg_number: self.msg_number,
            msg_package_total: self.msg_package_total,
            msg_package_num: self.msg_package_num,
            is_subpackage: self.is_subpackage,
            data: self.data@,
        }
    }
}

impl PacketView {
    /// A frame that the wire format can carry unchanged: the current version
    /// and a payload that fits the ten-bit length field.
    pub open spec fn wf(self) -> bool {
        &&& self.version == PROTOCOL_VERSION
        &&& self.data.len() <= MAX_PAYLOAD_LEN
    }

    /// The flags word's fields; the length is the payload length modulo 1024.
    pub open spec fn flags(self) -> AvocadoFlags {
        AvocadoFlags {
            length: (self.data.len() % 1024) as u16,
            is_subpackage: self.is_subpackage,
            encryption_mode: self.encryption_mode,
        }
    }
}

/// Sum of the bytes of `s`, as a natural number.
pub open spec fn byte_sum(s: Seq<u8>) -> nat
    decreases s.len(),
{
    if s.len() == 0 {
        0
    } else {
        byte_sum(s.drop_last()) + s.last() as nat
    }
}

/// The checksum of `s`: the sum of its bytes modulo 256.
pub open spec fn checksum_of(s: Seq<u8>) -> u8 {
    (byte_sum(s) % 256) as u8
}

/// The twenty bytes of a frame before its payload.
pub open spec fn frame_header(p: PacketView) -> Seq<u8> {
    seq![
        WRAPPER,
        PROTOCOL_VERSION,
        0u8,
        p.content_type.code(),
        p.interaction_type.code(),
        p.encoding_type.code(),
    ] + spec_u32_to_le_bytes(p.terminal_id) + spec_u32_to_le_bytes(p.msg_number)
        + spec_u16_to_le_bytes(p.msg_package_total) + spec_u16_to_le_bytes(p.msg_package_num)
        + spec_u16_to_le_bytes(pack_flags(p.flags()))
}

/// The bytes of a frame on the wire: header, payload, the checksum of every
/// byte after the leading delimiter, and the trailing delimiter.
pub open spec fn encode_frame(p: PacketView) -> Seq<u8> {
    let front = frame_header(p) + p.data;
    front + seq![checksum_of(front.subrange(1, front.len() as int)), WRAPPER]
}

/// The flags word of a frame that starts `s`.
pub open spec fn flags_word(s: Seq<u8>) -> u16 {
    spec_u16_from_le_bytes(s.subrange(18, 20))
}

/// What reading one frame from the start of `s` gives: the frame and the
/// number of bytes it took, or the first problem met from left to right.
/// The checksum byte is read and not compared.
pub open spec fn decode_frame(s: Seq<u8>) -> Result<(PacketView, nat), ProtocolError> {
    if s.len() < 1 {
        Err(ProtocolError::UnexpectedEof)
    } else if s[0] != WRAPPER {
        Err(ProtocolError::InvalidData(FrameField::Prefix))
    } else if s.len() < 4 {
        Err(ProtocolError::UnexpectedEof)
    } else if ContentType::from_code(s[3]) is None {
        Err(ProtocolError::InvalidData(FrameField::ContentType))
    } else if s.len() < 5 {
        Err(ProtocolError::UnexpectedEof)
    } else if InteractionType::from_code(s[4]) is None {
        Err(ProtocolError::InvalidData(FrameField::InteractionType))
    } else if s.len() < 6 {
        Err(ProtocolError::UnexpectedEof)
    } else if EncodingType::from_code(s[5]) is None {
        Err(ProtocolError::InvalidData(FrameField::EncodingType))
    } else if s.len() < 20 {
        Err(ProtocolError::UnexpectedEof)
    } else if unpack_flags(flags_word(s)) is None {
        Err(ProtocolError::InvalidData(FrameField::Flags))
    } else {
        let f = unpack_flags(flags_word(s))->Some_0;
        let n = f.length as int;
        if s.len() < 22 + n {
            Err(ProtocolError::UnexpectedEof)
        } else if s[21 + n] != WRAPPER {
            Err(ProtocolError::InvalidData(FrameField::Suffix))
        } else {
            Ok(
                (
                    PacketView {
                        version: s[1],
                        content_type: ContentType::from_code(s[3])->Some_0,
                        interaction_type: InteractionType::from_code(s[4])->Some_0,
                        encoding_type: EncodingType::from_code(s[5])->Some_0,
                        encryption_mode: f.encryption_mode,
                        terminal_id: spec_u32_from_le_bytes(s.subrange(6, 10)),
                        msg_number: spec_u32_from_le_bytes(s.subrange(10, 14)),
                        msg_package_total: spec_u16_from_le_bytes(s.subrange(14, 16)),
                        msg_package_num: spec_u16_from_le_bytes(s.subrange(16, 18)),
                        is_subpackage: f.is_subpackage,
                        data: s.subrange(20, 20 + n),
                    },
                    (22 + n) as nat,
                ),
            )
        }
    }
}

pub(crate) fn push_bytes(buf: &mut Vec<u8>, bytes: &[u8])
    ensures
        final(buf)@ == old(buf)@ + bytes@,
{
    let mut i: usize = 0;
    while i < bytes.len()
        invariant
            i <= bytes@.len(),
            buf@ == old(buf)@ + bytes@.subrange(0, i as int),
        decreases bytes@.len() - i,
    {
        buf.push(bytes[i]);
        i = i + 1;
        assert(bytes@.subrange(0, i as int) == bytes@.subrange(0, i - 1) + seq![bytes@[i - 1]]);
    }
    assert(bytes@.subrange(0, bytes@.len() as int) == bytes@);
}

impl AvocadoPacket {
    /// Wrapping sum of the bytes of `data`.
    pub fn checksum(data: &[u8]) -> (r: u8)
        ensures
            r == checksum_of(data@),
    {
        let mut sum: u8 = 0;
        let mut i: usize = 0;
        while i < data.len()
            invariant
                i <= data@.len(),
                sum == checksum_of(data@.subrange(0, i as int)),
            decreases data@.len() - i,
        {
            let ghost prev = data@.subrange(0, i as int);
            sum = sum.wrapping_add(data[i]);
            i = i + 1;
            proof {
                let cur = data@.subrange(0, i as int);
                assert(cur.drop_last() == prev);
                vstd::arithmetic::div_mod::lemma_add_mod_noop(
                    byte_sum(prev) as int,
                    data@[i - 1] as int,
                    256,
                );
            }
        }
        assert(data@.subrange(0, data@.len() as int) == data@);
        sum
    }

    /// The frame's bytes on the wire. The version byte is always
    /// `PROTOCOL_VERSION`; the length field holds the payload length modulo 1024.
    pub fn encode(&self) -> (r: Vec<u8>)
        ensures
            r@ == encode_frame(self@),
            r@.len() == self.data@.len() + 22,
            r@[r@.len() - 2] == checksum_of(r@.subrange(1, r@.len() - 2)),
    {
        let mut buf: Vec<u8> = Vec::new();
        buf.push(WRAPPER);
        buf.push(PROTOCOL_VERSION);
        buf.push(0);
        buf.push(self.content_type.to_primitive());
        buf.push(self.interaction_type.to_primitive());
        buf.push(self.encoding_type.to_primitive());
        push_bytes(&mut buf, &u32_le_bytes(self.terminal_id));
        push_bytes(&mut buf, &u32_le_bytes(self.msg_number));
        push_bytes(&mut buf, &u16_le_bytes(self.msg_package_total));
        push_bytes(&mut buf, &u16_le_bytes(self.msg_package_num));
        let flags = AvocadoFlags {
            length: (self.data.len() % 1024) as u16,
            is_subpackage: self.is_subpackage,
            encryption_mode: self.encryption_mode,
        };
        push_bytes(&mut buf, &u16_le_bytes(flags.pack()));
        proof {
            lemma_auto_spec_u16_to_from_le_bytes();
            lemma_auto_spec_u32_to_from_le_bytes();
            assert(buf@ =~= frame_header(self@));
        }
        push_bytes(&mut buf, self.data.as_slice());
        let ghost front = buf@;
        let sum = Self::checksum(slice_subrange(buf.as_slice(), 1, buf.len()));
        buf.push(sum);
        buf.push(WRAPPER);
        proof {
            assert(buf@ =~= encode_frame(self@));
            assert(buf@.subrange(1, buf@.len() - 2) =~= front.subrange(1, front.len() as int));
        }
        buf
    }
}

impl AvocadoPacket {
    /// Reads one frame from the start of `buf`; on success also returns the
    /// number of bytes the frame took. Fails exactly as `decode_frame` says.
    pub fn read_one(buf: &[u8]) -> (r: Result<(AvocadoPacket, usize), ProtocolError>)
        ensures
            match r {
                Ok((p, n)) => decode_frame(buf@) == Ok::<(PacketView, nat), ProtocolError>(
                    (p@, n as nat),
                ),
                Err(e) => decode_frame(buf@) == Err::<(PacketView, nat), ProtocolError>(e),
            },
    {
        if buf.len() < 1 {
            return Err(ProtocolError::UnexpectedEof);
        }
        if buf[0] != WRAPPER {
            return Err(ProtocolError::InvalidData(FrameField::Prefix));
        }
        if buf.len() < 4 {
            return Err(ProtocolError::UnexpectedEof);
        }
        let version = buf[1];
        let content_type = match ContentType::from_primitive(buf[3]) {
            Some(v) => v,
            None => return Err(ProtocolError::InvalidData(FrameField::ContentType)),
        };
        if buf.len() < 5 {
            return Err(ProtocolError::UnexpectedEof);
        }
        let interaction_type = match InteractionType::from_primitive(buf[4]) {
            Some(v) => v,
            None => return Err(ProtocolError::InvalidData(FrameField::InteractionType)),
        };
        if buf.len() < 6 {
            return Err(ProtocolError::UnexpectedEof);
        }
        let encoding_type = match EncodingType::from_primitive(buf[5]) {
            Some(v) => v,
            None => return Err(ProtocolError::InvalidData(FrameField::EncodingType)),
        };
        if buf.len() < 20 {
            return Err(ProtocolError::UnexpectedEof);
        }
        let terminal_id = read_u32_le(slice_subrange(buf, 6, 10));
        let msg_number = read_u32_le(slice_subrange(buf, 10, 14));
        let msg_package_total = read_u16_le(slice_subrange(buf, 14, 16));
        let msg_package_num = read_u16_le(slice_subrange(buf, 16, 18));
        let flags = match AvocadoFlags::unpack(read_u16_le(slice_subrange(buf, 18, 20))) {
            Some(f) => f,
            None => return Err(ProtocolError::InvalidData(FrameField::Flags)),
        };
        let n = flags.length as usize;
        if buf.len() < 22 + n {
            return Err(ProtocolError::UnexpectedEof);
        }
        let data = slice_to_vec(slice_subrange(buf, 20, 20 + n));
        let _checksum = buf[20 + n];
        if buf[21 + n] != WRAPPER {
            return Err(ProtocolError::InvalidData(FrameField::Suffix));
        }
        let packet = AvocadoPacket {
            version,
            content_type,
            interaction_type,
            encoding_type,
            encryption_mode: flags.encryption_mode,
            terminal_id,
            msg_number,
            msg_package_total,
            msg_package_num,
            is_subpackage: flags.is_subpackage,
            data,
        };
        Ok((packet, 22 + n))
    }
}

/// Decoding a frame that `encode_frame` wrote, followed by any further bytes,
/// gives back the same frame and stops at its end.
pub proof fn lemma_round_trip(p: PacketView, rest: Seq<u8>)
    requires
        p.wf(),
    ensures
        decode_frame(encode_frame(p) + rest) == Ok::<(PacketView, nat), ProtocolError>(
            (p, encode_frame(p).len()),
        ),
        encode_frame(p).len() == p.data.len() + 22,
{
    lemma_auto_spec_u16_to_from_le_bytes();
    lemma_auto_spec_u32_to_from_le_bytes();
    let n = p.data.len() as int;
    let f = p.flags();
    lemma_flags_bits(f.length, f.is_subpackage, f.encryption_mode.code());
    let h = frame_header(p);
    let e = encode_frame(p);
    let s = e + rest;
    assert(h.len() == 20);
    assert(e.len() == 22 + n);
    assert(s.subrange(6, 10) =~= spec_u32_to_le_bytes(p.terminal_id));
    assert(s.subrange(10, 14) =~= spec_u32_to_le_bytes(p.msg_number));
    assert(s.subrange(14, 16) =~= spec_u16_to_le_bytes(p.msg_package_total));
    assert(s.subrange(16, 18) =~= spec_u16_to_le_bytes(p.msg_package_num));
    assert(s.subrange(18, 20) =~= spec_u16_to_le_bytes(pack_flags(f)));
    assert(unpack_flags(flags_word(s)) == Some(f));
    assert(s.subrange(20, 20 + n) =~= p.data);
    assert(s[21 + n] == WRAPPER);
    assert(s[0] == WRAPPER);
    assert(s[1] == PROTOCOL_VERSION);
    assert(s[3] == p.content_type.code());
    assert(s[4] == p.interaction_type.code());
    assert(s[5] == p.encoding_type.code());
}

/// Replacing the leading delimiter of a well-formed frame by any other byte
/// makes reading fail on the prefix; replacing the trailing one makes it fail
/// on the suffix.
pub proof fn lemma_corrupt_delimiters(p: PacketView, b: u8)
    requires
        p.wf(),
        b != WRAPPER,
    ensures
        decode_frame(encode_frame(p).update(0, b)) == Err::<(PacketView, nat), ProtocolError>(
            ProtocolError::InvalidData(FrameField::Prefix),
        ),
        decode_frame(encode_frame(p).update(p.data.len() as int + 21, b)) == Err::<
            (PacketView, nat),
            ProtocolError,
        >(ProtocolError::InvalidData(FrameField::Suffix)),
{
    let e = encode_frame(p);
    lemma_round_trip(p, Seq::empty());
    assert(e + Seq::<u8>::empty() =~= e);
    let n = p.data.len() as int;
    let s = e.update(n + 21, b);
    assert(s.subrange(18, 20) =~= e.subrange(18, 20));
    assert(flags_word(s) == flags_word(e));
}

/// Reads consecutive frames from a byte buffer.
pub struct AvocadoPacketReader {
    data: Vec<u8>,
    pos: usize,
    finished: bool,
}

impl AvocadoPacketReader {
    #[verifier::type_invariant]
    spec fn inv(self) -> bool {
        self.pos <= self.data@.len()
    }

    /// The bytes not read yet.
    pub closed spec fn remaining(&self) -> Seq<u8> {
        self.data@.subrange(self.pos as int, self.data@.len() as int)
    }

    /// Whether an error has ended the reading.
    pub closed spec fn is_finished(&self) -> bool {
        self.finished
    }

    pub fn new(data: Vec<u8>) -> (r: AvocadoPacketReader)
        ensures
            r.remaining() == data@,
            !r.is_finished(),
    {
        let r = AvocadoPacketReader { data, pos: 0, finished: false };
        assert(r.data@.subrange(0, r.data@.len() as int) =~= r.data@);
        r
    }

    /// The next frame. Reading ends cleanly (`None`) where the bytes end at a
    /// frame boundary; any other failure is handed out once as an error and
    /// ends the reading.
    pub fn next(&mut self) -> (r: Option<Result<AvocadoPacket, ProtocolError>>)
        ensures
            old(self).is_finished() || old(self).remaining().len() == 0 ==> {
                &&& r is None
                &&& final(self).remaining() == old(self).remaining()
                &&& final(self).is_finished() == old(self).is_finished()
            },
            !old(self).is_finished() && old(self).remaining().len() > 0 ==> match decode_frame(
                old(self).remaining(),
            ) {
                Ok((p, n)) => {
                    &&& r matches Some(Ok(q)) && q@ == p
                    &&& final(self).remaining() == old(self).remaining().subrange(
                        n as int,
                        old(self).remaining().len() as int,
                    )
                    &&& !final(self).is_finished()
                },
                Err(e) => {
                    &&& r == Some(Err::<AvocadoPacket, ProtocolError>(e))
                    &&& final(self).is_finished()
                },
            },
    {
        proof {
            use_type_invariant(&*self);
        }
        if self.finished || self.pos == self.data.len() {
            return None;
        }
        let rest = slice_subrange(self.data.as_slice(), self.pos, self.data.len());
        match AvocadoPacket::read_one(rest) {
            Ok((packet, n)) => {
                let ghost old_pos = self.pos;
                self.pos = self.pos + n;
                assert(self.data@.subrange(self.pos as int, self.data@.len() as int) =~= rest@.subrange(
                    n as int,
                    rest@.len() as int,
                ));
                Some(Ok(packet))
            },
            Err(e) => {
                self.finished = true;
                Some(Err(e))
            },
        }
    }
}

impl AvocadoPacket {
    /// Whether the payload is plain JSON text: a message, JSON-encoded and
    /// not encrypted.
    pub open spec fn spec_is_plain_json(&self) -> bool {
        &&& self.content_type == ContentType::Message
        &&& self.encryption_mode == EncryptionMode::Unencrypted
        &&& self.encoding_type == EncodingType::Json
    }

    /// The payload, where it is plain JSON text.
    pub fn json_payload(&self) -> (r: Option<&Vec<u8>>)
        ensures
            self.spec_is_plain_json() ==> r == Some(&self.data),
            !self.spec_is_plain_json() ==> r is None,
    {
        if self.content_type == ContentType::Message && self.encryption_mode
            == EncryptionMode::Unencrypted && self.encoding_type == EncodingType::Json {
            Some(&self.data)
        } else {
            None
        }
    }

    /// A single-frame JSON request under message id `id`, carrying `payload`.
    pub fn json_request(id: u32, payload: Vec<u8>) -> (r: AvocadoPacket)
        ensures
            r@ == (PacketView {
                version: PROTOCOL_VERSION,
                content_type: ContentType::Message,
                interaction_type: InteractionType::Request,
                encoding_type: EncodingType::Json,
                encryption_mode: EncryptionMode::Unencrypted,
                terminal_id: id,
                msg_number: id,
                msg_package_total: 1,
                msg_package_num: 1,
                is_subpackage: false,
                data: payload@,
            }),
    {
        AvocadoPacket {
            version: PROTOCOL_VERSION,
            content_type: ContentType::Message,
            interaction_type: InteractionType::Request,
            encoding_type: EncodingType::Json,
            encryption_mode: EncryptionMode::Unencrypted,
            terminal_id: id,
            msg_number: id,
            msg_package_total: 1,
            msg_package_num: 1,
            is_subpackage: false,
            data: payload,
        }
    }
}

/// Collects bytes as a link delivers them and cuts complete frames off the
/// front: a frame that has not fully arrived waits for more bytes.
pub struct FrameAssembler {
    buf: Vec<u8>,
}

impl FrameAssembler {
    /// The bytes received and not yet taken as frames.
    pub closed spec fn buffered(&self) -> Seq<u8> {
        self.buf@
    }

    pub fn new() -> (r: FrameAssembler)
        ensures
            r.buffered() == Seq::<u8>::empty(),
    {
        FrameAssembler { buf: Vec::new() }
    }

    /// Appends bytes that arrived.
    pub fn extend(&mut self, data: &[u8])
        ensures
            final(self).buffered() == old(self).buffered() + data@,
    {
        push_bytes(&mut self.buf, data);
    }

    /// The next complete frame, cut off the front of the buffer; `Ok(None)`,
    /// with the buffer kept, where the frame has not fully arrived; the error,
    /// with the buffer kept, where the bytes cannot start a frame.
    pub fn next_frame(&mut self) -> (r: Result<Option<AvocadoPacket>, ProtocolError>)
        ensures
            match decode_frame(old(self).buffered()) {
                Ok((p, n)) => {
                    &&& r matches Ok(Some(q)) && q@ == p
                    &&& final(self).buffered() == old(self).buffered().subrange(
                        n as int,
                        old(self).buffered().len() as int,
                    )
                },
                Err(ProtocolError::UnexpectedEof) => {
                    &&& r == Ok::<Option<AvocadoPacket>, ProtocolError>(None)
                    &&& final(self).buffered() == old(self).buffered()
                },
                Err(e) => {
                    &&& r == Err::<Option<AvocadoPacket>, ProtocolError>(e)
                    &&& final(self).buffered() == old(self).buffered()
                },
            },
    {
        match AvocadoPacket::read_one(self.buf.as_slice()) {
            Ok((packet, n)) => {
                let rest = slice_to_vec(slice_subrange(self.buf.as_slice(), n, self.buf.len()));
                self.buf = rest;
                Ok(Some(packet))
            },
            Err(ProtocolError::UnexpectedEof) => Ok(None),
            Err(e) => Err(e),
        }
    }
}

} // verus!
