//! The Ethernet frame header.

use crate::byteorder_wrapper::{
    lemma_u16_be_decode_encode, lemma_u16_be_encode_decode, read_u16_as_be, spec_u16_be,
    spec_u16_be_bytes, write_u16_as_be, ByteCursor,
};
use crate::internet::InternetProtocol;
use crate::link::MacAddress;
use crate::text::{push_line, spec_line};
use vstd::prelude::*;
use vstd::slice::{slice_subrange, slice_to_vec};

verus! {

/// The header of an Ethernet frame: destination, source, ethertype.
#[derive(Debug, Clone, Copy, PartialEq, Eq)]
pub struct FrameHeader {
    pub dst_addr: MacAddress,
    pub src_addr: MacAddress,
    pub ty: InternetProtocol,
}

impl Default for FrameHeader {
    fn default() -> (r: Self)
        ensures
            r == (FrameHeader {
                dst_addr: MacAddress::spec_zero(),
                src_addr: MacAddress::spec_zero(),
                ty: InternetProtocol::IP,
            }),
    {
        Self {
            dst_addr: MacAddress::zero(),
            src_addr: MacAddress::zero(),
            ty: InternetProtocol::IP,
        }
    }
}

impl FrameHeader {
    /// The length of the header on the wire.
    pub const LENGTH: usize = 0xe;

    /// The header on the wire: six octets of destination, six of source, two
    /// of ethertype.
    pub open spec fn spec_to_bytes(&self) -> Seq<u8> {
        self.dst_addr@ + self.src_addr@ + spec_u16_be_bytes(self.ty.spec_to_u16())
    }

    /// The header at the start of `buf`, if `buf` holds fourteen bytes and
    /// the ethertype is a known one.
    pub open spec fn spec_from_bytes(buf: Seq<u8>) -> Option<FrameHeader> {
        if buf.len() < 14 {
            None
        } else {
            match InternetProtocol::spec_from_u16(spec_u16_be(buf[12], buf[13])) {
                Some(ty) => Some(
                    FrameHeader {
                        dst_addr: MacAddress::spec_from_seq(buf),
                        src_addr: MacAddress::spec_from_seq(buf.skip(6)),
                        ty,
                    },
                ),
                None => None,
            }
        }
    }

    /// The header as text: one line each for destination, source and type.
    pub open spec fn spec_text(&self) -> Seq<char> {
        spec_line("dst_addr: "@, self.dst_addr.spec_text()) + spec_line(
            "src_addr: "@,
            self.src_addr.spec_text(),
        ) + spec_line("frame_type: "@, self.ty.spec_name())
    }

    /// The header as text, for a trace.
    pub fn to_string(&self) -> (s: String)
        ensures
            s@ == self.spec_text(),
    {
        let mut text = String::new();
        push_line(&mut text, "dst_addr: ", self.dst_addr.to_string().as_str());
        push_line(&mut text, "src_addr: ", self.src_addr.to_string().as_str());
        push_line(&mut text, "frame_type: ", self.ty.to_string().as_str());
        assert(text@ =~= self.spec_text());
        text
    }

    /// Writes the header as it stands on the wire. This never fails.
    pub fn to_bytes<E: Copy>(&self, err: E) -> (r: Result<Vec<u8>, E>)
        ensures
            r is Ok,
            r->Ok_0@ == self.spec_to_bytes(),
    {
        let mut buf = Vec::new();
        let mut dst = match self.dst_addr.to_bytes(err) {
            Ok(bytes) => bytes,
            Err(e) => {
                return Err(e);
            },
        };
        buf.append(&mut dst);
        let mut src = match self.src_addr.to_bytes(err) {
            Ok(bytes) => bytes,
            Err(e) => {
                return Err(e);
            },
        };
        buf.append(&mut src);
        match write_u16_as_be(&mut buf, self.ty.to_u16(), err) {
            Ok(()) => {},
            Err(e) => {
                return Err(e);
            },
        }
        assert(buf@ =~= self.spec_to_bytes());
        Ok(buf)
    }

    /// Splits `buf` into the frame header and what follows it.
    ///
    /// Fails with `err` when `buf` is shorter than a header or the ethertype
    /// is not a known one.
    pub fn new_from_bytes<E: Copy>(buf: &[u8], err: E) -> (r: Result<(Self, Vec<u8>), E>)
        ensures
            match Self::spec_from_bytes(buf@) {
                Some(header) => r is Ok && r->Ok_0.0 == header && r->Ok_0.1@ == buf@.skip(14),
                None => r == Err::<(Self, Vec<u8>), E>(err),
            },
    {
        if buf.len() < FrameHeader::LENGTH {
            return Err(err);
        }
        let raw_header = slice_subrange(buf, 0, FrameHeader::LENGTH);
        let rest = slice_subrange(buf, FrameHeader::LENGTH, buf.len());
        let mut reader = ByteCursor::new(raw_header);

        let dst_addr = match MacAddress::from_cursor(&mut reader, err) {
            Ok(addr) => addr,
            Err(e) => {
                return Err(e);
            },
        };
        let src_addr = match MacAddress::from_cursor(&mut reader, err) {
            Ok(addr) => addr,
            Err(e) => {
                return Err(e);
            },
        };
        let frame_type = match read_u16_as_be(&mut reader, err) {
            Ok(v) => v,
            Err(e) => {
                return Err(e);
            },
        };
        proof {
            let head = buf@.subrange(0, 14);
            MacAddress::lemma_same_octets(head, buf@);
            MacAddress::lemma_same_octets(head.skip(6), buf@.skip(6));
            assert(buf@.subrange(14, buf@.len() as int) =~= buf@.skip(14));
        }
        let ty = match InternetProtocol::from_u16(frame_type) {
            Some(ty) => ty,
            None => {
                return Err(err);
            },
        };
        Ok((FrameHeader { dst_addr, src_addr, ty }, slice_to_vec(rest)))
    }

    /// A header survives being written and read back.
    pub proof fn lemma_parse_serialize(header: FrameHeader)
        ensures
            header.spec_to_bytes().len() == Self::LENGTH,
            Self::spec_from_bytes(header.spec_to_bytes()) == Some(header),
    {
        let bytes = header.spec_to_bytes();
        let ty = header.ty.spec_to_u16();
        lemma_u16_be_decode_encode(ty);
        assert(bytes[12] == spec_u16_be_bytes(ty)[0]);
        assert(bytes[13] == spec_u16_be_bytes(ty)[1]);
        InternetProtocol::lemma_u16_roundtrip(header.ty);
        assert(bytes.take(6) =~= header.dst_addr@);
        assert(bytes.skip(6).take(6) =~= header.src_addr@);
        MacAddress::lemma_from_seq(header.dst_addr, bytes);
        MacAddress::lemma_from_seq(header.src_addr, bytes.skip(6));
    }

    /// Writing a header that was read gives back the bytes it was read from.
    pub proof fn lemma_serialize_parse(buf: Seq<u8>)
        requires
            Self::spec_from_bytes(buf) is Some,
        ensures
            Self::spec_from_bytes(buf)->Some_0.spec_to_bytes() == buf.take(Self::LENGTH as int),
    {
        let header = Self::spec_from_bytes(buf)->Some_0;
        MacAddress::lemma_from_seq(header.dst_addr, buf);
        MacAddress::lemma_from_seq(header.src_addr, buf.skip(6));
        lemma_u16_be_encode_decode(buf[12], buf[13]);
        assert(header.ty.spec_to_u16() == spec_u16_be(buf[12], buf[13]));
        assert(header.spec_to_bytes() =~= buf.take(14));
    }
}

} // verus!
