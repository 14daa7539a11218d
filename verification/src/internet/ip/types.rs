//! IPv4 addresses and the IPv4 packet header.

use crate::text::{
    lemma_digit_of_char, lemma_field_of_dec_octet, lemma_octets_len, parse_octets, push_dec_octet,
    spec_dec_octet, spec_octets,
};
use crate::byteorder_wrapper::{
    lemma_u16_be_decode_encode, lemma_u16_be_encode_decode, lemma_u32_be_decode_encode,
    lemma_u32_be_encode_decode, read_u16_as_be, read_u32_as_be, read_u8, spec_u16_be,
    spec_u16_be_bytes, spec_u32_be, spec_u32_be_bytes, write_u16_as_be, write_u32_as_be, write_u8,
    ByteCursor,
};
use crate::text::{push_line, push_line_bin, push_line_dec, spec_bin, spec_dec, spec_line};
use crate::transport::TransportProtocol;
use vstd::prelude::*;
use vstd::std_specs::convert::FromSpecImpl;

verus! {

/// An IPv4 address as one 32-bit number, first octet highest.
#[derive(PartialEq, Eq, Structural, PartialOrd, Ord, Debug, Copy, Clone, Hash)]
pub struct IPv4Addr(pub u32);

impl IPv4Addr {
    /// The unspecified address `0.0.0.0`.
    pub open spec fn spec_any() -> IPv4Addr {
        IPv4Addr(0)
    }

    /// The limited broadcast address `255.255.255.255`.
    pub open spec fn spec_broadcast() -> IPv4Addr {
        IPv4Addr(0xffff_ffff)
    }

    /// This address with every host bit of `network_mask` set.
    pub open spec fn spec_to_broadcast(&self, network_mask: IPv4Addr) -> IPv4Addr {
        IPv4Addr(self.0 | !network_mask.0)
    }

    /// The address in dotted decimal notation.
    pub open spec fn spec_text(&self) -> Seq<char> {
        let octets = spec_u32_be_bytes(self.0);
        spec_dec_octet(octets[0]) + seq!['.'] + spec_dec_octet(octets[1]) + seq!['.']
            + spec_dec_octet(octets[2]) + seq!['.'] + spec_dec_octet(octets[3])
    }

    /// The address that `text` writes: four octets as decimal numbers up to
    /// 255 of one to three digits each, separated by dots, and nothing else.
    pub open spec fn spec_parse(text: Seq<char>) -> Option<IPv4Addr> {
        match spec_octets(text, 0, 4, '.', false) {
            Some(octets) => Some(
                IPv4Addr(spec_u32_be(octets[0], octets[1], octets[2], octets[3])),
            ),
            None => None,
        }
    }

    /// The text of an address is read as that address.
    #[verifier::rlimit(40)]
    pub proof fn lemma_text_round_trip(a: IPv4Addr)
        ensures
            Self::spec_parse(a.spec_text()) == Some(a),
    {
        let text = a.spec_text();
        let octets = spec_u32_be_bytes(a.0);
        let (w0, w1, w2, w3) = (
            spec_dec_octet(octets[0]),
            spec_dec_octet(octets[1]),
            spec_dec_octet(octets[2]),
            spec_dec_octet(octets[3]),
        );
        let p1 = w0.len() as int + 1;
        let p2 = p1 + w1.len() + 1;
        let p3 = p2 + w2.len() + 1;
        assert(text.len() == p3 + w3.len());
        assert(text.subrange(0, w0.len() as int) =~= w0);
        assert(text.subrange(p1, p1 + w1.len()) =~= w1);
        assert(text.subrange(p2, p2 + w2.len()) =~= w2);
        assert(text.subrange(p3, p3 + w3.len()) =~= w3);
        assert(text[p1 - 1] == '.' && text[p2 - 1] == '.' && text[p3 - 1] == '.');
        lemma_digit_of_char(0, false);
        lemma_field_of_dec_octet(text, 0, octets[0]);
        lemma_field_of_dec_octet(text, p1, octets[1]);
        lemma_field_of_dec_octet(text, p2, octets[2]);
        lemma_field_of_dec_octet(text, p3, octets[3]);
        assert(spec_octets(text, p3, 1, '.', false) == Some(seq![octets[3]]));
        assert(spec_octets(text, p2, 2, '.', false) == Some(
            seq![octets[2]] + seq![octets[3]],
        ));
        assert(spec_octets(text, p1, 3, '.', false) == Some(
            seq![octets[1]] + (seq![octets[2]] + seq![octets[3]]),
        ));
        let read = spec_octets(text, 0, 4, '.', false)->Some_0;
        assert(read =~= octets);
        lemma_u32_be_decode_encode(a.0);
    }

    /// The address in dotted decimal notation, as in `192.168.11.3`.
    pub fn to_string(&self) -> (s: String)
        ensures
            s@ == self.spec_text(),
    {
        let mut text = String::new();
        proof {
            reveal_strlit(".");
        }
        push_dec_octet(&mut text, (self.0 / 0x100_0000) as u8);
        text.append(".");
        push_dec_octet(&mut text, (self.0 / 0x1_0000 % 0x100) as u8);
        text.append(".");
        push_dec_octet(&mut text, (self.0 / 0x100 % 0x100) as u8);
        text.append(".");
        push_dec_octet(&mut text, (self.0 % 0x100) as u8);
        assert(text@ =~= self.spec_text());
        text
    }

    /// Reads an address from text such as `192.168.11.3`. Text that is
    /// anything else gives no address.
    pub fn parse(s: &str) -> (r: Option<IPv4Addr>)
        ensures
            r == Self::spec_parse(s@),
    {
        match parse_octets(s, 4, '.', false) {
            Some(octets) => {
                proof {
                    lemma_octets_len(s@, 0, 4, '.', false);
                }
                Some(
                    IPv4Addr(
                        octets[0] as u32 * 0x100_0000 + octets[1] as u32 * 0x1_0000
                            + octets[2] as u32 * 0x100 + octets[3] as u32,
                    ),
                )
            },
            None => None,
        }
    }

    /// The unspecified address `0.0.0.0`.
    #[verifier::when_used_as_spec(spec_any)]
    pub fn any() -> (r: IPv4Addr)
        ensures
            r == Self::spec_any(),
    {
        IPv4Addr(0)
    }

    /// The limited broadcast address `255.255.255.255`.
    #[verifier::when_used_as_spec(spec_broadcast)]
    pub fn broadcast() -> (r: IPv4Addr)
        ensures
            r == Self::spec_broadcast(),
    {
        IPv4Addr(0xffff_ffff)
    }

    /// The four octets, first octet first. This never fails.
    pub fn to_bytes<E: Copy>(&self, err: E) -> (r: Result<Vec<u8>, E>)
        ensures
            r is Ok,
            r->Ok_0@ == spec_u32_be_bytes(self.0),
    {
        let mut buf = Vec::new();
        match write_u32_as_be(&mut buf, self.0, err) {
            Ok(()) => {},
            Err(e) => {
                return Err(e);
            },
        }
        assert(buf@ =~= spec_u32_be_bytes(self.0));
        Ok(buf)
    }

    /// The directed broadcast address of this address's network: the address
    /// with every bit outside `network_mask` set.
    #[verifier::when_used_as_spec(spec_to_broadcast)]
    pub fn to_broadcast(&self, network_mask: Self) -> (r: Self)
        ensures
            r == self.spec_to_broadcast(network_mask),
    {
        let host_mask = !network_mask.0;
        Self(self.0 | host_mask)
    }
}

/// The header of an IPv4 packet, without options.
#[derive(Debug, Clone, Copy, PartialEq, Eq, Structural)]
pub struct IPHeader {
    /// High four bits: version. Low four bits: header length in 32-bit words.
    pub version_ihl: u8,
    /// Precedence and handling hints.
    pub type_of_service: u8,
    /// Length of the whole packet in bytes.
    pub total_length: u16,
    /// Identifies the fragments of one packet.
    pub identification: u16,
    /// High three bits: flags. Low thirteen bits: fragment offset.
    pub flg_offset: u16,
    /// The number of hops the packet may still take.
    pub time_to_live: u8,
    /// The protocol of the payload.
    pub protocol: TransportProtocol,
    /// The checksum of the header.
    pub checksum: u16,
    /// The sender.
    pub src_addr: IPv4Addr,
    /// The receiver.
    pub dst_addr: IPv4Addr,
}

impl IPHeader {
    /// The length of a header without options, in bytes.
    pub const LEAST_LENGTH: u8 = 20;

    /// The version number of IPv4.
    pub const VERSION4: u8 = 4;

    /// The version: the high four bits of the first byte.
    pub open spec fn spec_version_from_vhl(&self) -> u8 {
        self.version_ihl / 16
    }

    /// The header length in bytes: the low four bits of the first byte count
    /// 32-bit words.
    pub open spec fn spec_ihl_bytes_from_vhl(&self) -> u8 {
        ((self.version_ihl % 16) * 4) as u8
    }

    /// The flags: the high three bits of the flags-and-offset field.
    pub open spec fn spec_flag_from_flg_offset(&self) -> u16 {
        self.flg_offset / 0x2000
    }

    /// The fragment offset: the low thirteen bits of the flags-and-offset field.
    pub open spec fn spec_offset_from_flg_offset(&self) -> u16 {
        self.flg_offset % 0x2000
    }

    /// More fragments follow: the lowest of the three flag bits is set.
    pub open spec fn spec_is_wip_fragment(&self) -> bool {
        self.flg_offset / 0x2000 % 2 == 1
    }

    /// The packet is a fragment behind the first one.
    pub open spec fn spec_is_last_fragment(&self) -> bool {
        self.spec_offset_from_flg_offset() != 0
    }

    /// The packet is one fragment of a larger packet.
    pub open spec fn spec_is_fragmented(&self) -> bool {
        self.spec_is_wip_fragment() || self.spec_is_last_fragment()
    }

    /// The twenty bytes of the header on the wire. A header whose protocol
    /// has no number cannot be written.
    pub open spec fn spec_to_bytes(&self) -> Option<Seq<u8>> {
        match self.protocol.spec_to_u8() {
            Some(protocol) => Some(
                seq![self.version_ihl, self.type_of_service] + spec_u16_be_bytes(self.total_length)
                    + spec_u16_be_bytes(self.identification) + spec_u16_be_bytes(self.flg_offset)
                    + seq![self.time_to_live, protocol] + spec_u16_be_bytes(self.checksum)
                    + spec_u32_be_bytes(self.src_addr.0) + spec_u32_be_bytes(self.dst_addr.0),
            ),
            None => None,
        }
    }

    /// The fields of the first twenty bytes of `buf`, whatever they hold.
    pub open spec fn spec_fields(buf: Seq<u8>) -> IPHeader {
        IPHeader {
            version_ihl: buf[0],
            type_of_service: buf[1],
            total_length: spec_u16_be(buf[2], buf[3]),
            identification: spec_u16_be(buf[4], buf[5]),
            flg_offset: spec_u16_be(buf[6], buf[7]),
            time_to_live: buf[8],
            protocol: TransportProtocol::spec_from_u8(buf[9]),
            checksum: spec_u16_be(buf[10], buf[11]),
            src_addr: IPv4Addr(spec_u32_be(buf[12], buf[13], buf[14], buf[15])),
            dst_addr: IPv4Addr(spec_u32_be(buf[16], buf[17], buf[18], buf[19])),
        }
    }

    /// The header at the start of `buf`: there if `buf` holds twenty bytes
    /// and the options that the header length announces are all in `buf`,
    /// whatever the fields hold.
    pub open spec fn spec_from_bytes(buf: Seq<u8>) -> Option<IPHeader> {
        if buf.len() < 20 {
            None
        } else {
            let header = Self::spec_fields(buf);
            if buf.len() < header.spec_ihl_bytes_from_vhl() {
                None
            } else {
                Some(header)
            }
        }
    }

    /// The header as text, one line for each field.
    pub open spec fn spec_text(&self) -> Seq<char> {
        spec_line("version: "@, spec_dec(self.spec_version_from_vhl() as nat)) + spec_line(
            "header_length (bytes): "@,
            spec_dec(self.spec_ihl_bytes_from_vhl() as nat),
        ) + spec_line("service_type: "@, spec_dec(self.type_of_service as nat)) + spec_line(
            "total_length (bytes): "@,
            spec_dec(self.total_length as nat),
        ) + spec_line("identification: "@, spec_dec(self.identification as nat)) + spec_line(
            "flag: "@,
            spec_bin(self.spec_flag_from_flg_offset() as nat),
        ) + spec_line("fragment offset: "@, spec_dec(self.spec_offset_from_flg_offset() as nat))
            + spec_line("time to live: "@, spec_dec(self.time_to_live as nat)) + spec_line(
            "transport protocol: "@,
            self.protocol.spec_name(),
        ) + spec_line("checksum: "@, spec_dec(self.checksum as nat)) + spec_line(
            "src_addr: "@,
            self.src_addr.spec_text(),
        ) + spec_line("dst_addr: "@, self.dst_addr.spec_text())
    }

    /// The header as text, for a trace.
    pub fn to_string(&self) -> (s: String)
        ensures
            s@ == self.spec_text(),
    {
        let mut text = String::new();
        push_line_dec(&mut text, "version: ", self.version_from_vhl() as u64);
        push_line_dec(&mut text, "header_length (bytes): ", self.ihl_bytes_from_vhl() as u64);
        push_line_dec(&mut text, "service_type: ", self.type_of_service as u64);
        push_line_dec(&mut text, "total_length (bytes): ", self.total_length as u64);
        push_line_dec(&mut text, "identification: ", self.identification as u64);
        push_line_bin(&mut text, "flag: ", self.flag_from_flg_offset() as u64);
        push_line_dec(&mut text, "fragment offset: ", self.offset_from_flg_offset() as u64);
        push_line_dec(&mut text, "time to live: ", self.time_to_live as u64);
        push_line(&mut text, "transport protocol: ", self.protocol.to_string().as_str());
        push_line_dec(&mut text, "checksum: ", self.checksum as u64);
        push_line(&mut text, "src_addr: ", self.src_addr.to_string().as_str());
        push_line(&mut text, "dst_addr: ", self.dst_addr.to_string().as_str());
        assert(text@ =~= self.spec_text());
        text
    }

    /// Reads the header at the start of `buf` and skips its options.
    ///
    /// Fails with `err` exactly when `buf` is too short for the header and
    /// its options.
    #[verifier::loop_isolation(false)]
    pub fn new_from_bytes<E: Copy>(buf: &[u8], err: E) -> (r: Result<Self, E>)
        ensures
            r == (match Self::spec_from_bytes(buf@) {
                Some(header) => Ok::<Self, E>(header),
                None => Err::<Self, E>(err),
            }),
    {
        let mut reader = ByteCursor::new(buf);

        let version_ihl = match read_u8(&mut reader, err) {
            Ok(v) => v,
            Err(e) => {
                return Err(e);
            },
        };
        let type_of_service = match read_u8(&mut reader, err) {
            Ok(v) => v,
            Err(e) => {
                return Err(e);
            },
        };
        let total_length = match read_u16_as_be(&mut reader, err) {
            Ok(v) => v,
            Err(e) => {
                return Err(e);
            },
        };
        let identification = match read_u16_as_be(&mut reader, err) {
            Ok(v) => v,
            Err(e) => {
                return Err(e);
            },
        };
        let flg_offset = match read_u16_as_be(&mut reader, err) {
            Ok(v) => v,
            Err(e) => {
                return Err(e);
            },
        };
        let time_to_live = match read_u8(&mut reader, err) {
            Ok(v) => v,
            Err(e) => {
                return Err(e);
            },
        };
        let protocol_number = match read_u8(&mut reader, err) {
            Ok(v) => v,
            Err(e) => {
                return Err(e);
            },
        };
        let protocol = TransportProtocol::from_u8(protocol_number);
        let checksum = match read_u16_as_be(&mut reader, err) {
            Ok(v) => v,
            Err(e) => {
                return Err(e);
            },
        };
        let src_addr = match read_u32_as_be(&mut reader, err) {
            Ok(v) => IPv4Addr(v),
            Err(e) => {
                return Err(e);
            },
        };
        let dst_addr = match read_u32_as_be(&mut reader, err) {
            Ok(v) => IPv4Addr(v),
            Err(e) => {
                return Err(e);
            },
        };
        let packet_hdr = IPHeader {
            version_ihl,
            type_of_service,
            total_length,
            identification,
            flg_offset,
            time_to_live,
            protocol,
            checksum,
            src_addr,
            dst_addr,
        };

        // Options are read over and not kept.
        let header_length = packet_hdr.ihl_bytes_from_vhl();
        if header_length > Self::LEAST_LENGTH {
            let options = header_length - Self::LEAST_LENGTH;
            let mut skipped: u8 = 0;
            while skipped < options
                invariant
                    skipped <= options,
                    options == header_length - 20,
                    reader.source() == buf@,
                    reader.position() == 20 + skipped,
                    reader.position() <= buf@.len(),
                decreases options - skipped,
            {
                match read_u8(&mut reader, err) {
                    Ok(_) => {},
                    Err(e) => {
                        return Err(e);
                    },
                }
                skipped += 1;
            }
        }
        Ok(packet_hdr)
    }

    /// Writes the twenty bytes of the header.
    ///
    /// Fails with `err` exactly when the protocol has no number.
    pub fn to_bytes<E: Copy>(&self, err: E) -> (r: Result<Vec<u8>, E>)
        ensures
            match self.spec_to_bytes() {
                Some(bytes) => r is Ok && r->Ok_0@ == bytes,
                None => r == Err::<Vec<u8>, E>(err),
            },
    {
        let protocol = match self.protocol.to_u8() {
            Some(protocol) => protocol,
            None => {
                return Err(err);
            },
        };
        let mut buf = Vec::new();
        match write_u8(&mut buf, self.version_ihl, err) {
            Ok(()) => {},
            Err(e) => {
                return Err(e);
            },
        }
        match write_u8(&mut buf, self.type_of_service, err) {
            Ok(()) => {},
            Err(e) => {
                return Err(e);
            },
        }
        match write_u16_as_be(&mut buf, self.total_length, err) {
            Ok(()) => {},
            Err(e) => {
                return Err(e);
            },
        }
        match write_u16_as_be(&mut buf, self.identification, err) {
            Ok(()) => {},
            Err(e) => {
                return Err(e);
            },
        }
        match write_u16_as_be(&mut buf, self.flg_offset, err) {
            Ok(()) => {},
            Err(e) => {
                return Err(e);
            },
        }
        match write_u8(&mut buf, self.time_to_live, err) {
            Ok(()) => {},
            Err(e) => {
                return Err(e);
            },
        }
        match write_u8(&mut buf, protocol, err) {
            Ok(()) => {},
            Err(e) => {
                return Err(e);
            },
        }
        match write_u16_as_be(&mut buf, self.checksum, err) {
            Ok(()) => {},
            Err(e) => {
                return Err(e);
            },
        }
        let mut src = match self.src_addr.to_bytes(err) {
            Ok(bytes) => bytes,
            Err(e) => {
                return Err(e);
            },
        };
        buf.append(&mut src);
        let mut dst = match self.dst_addr.to_bytes(err) {
            Ok(bytes) => bytes,
            Err(e) => {
                return Err(e);
            },
        };
        buf.append(&mut dst);
        assert(buf@ =~= self.spec_to_bytes()->Some_0);
        Ok(buf)
    }

    /// The version: the high four bits of the first byte.
    #[verifier::when_used_as_spec(spec_version_from_vhl)]
    pub fn version_from_vhl(&self) -> (v: u8)
        ensures
            v == self.spec_version_from_vhl(),
    {
        self.version_ihl / 16
    }

    /// The header length in bytes.
    #[verifier::when_used_as_spec(spec_ihl_bytes_from_vhl)]
    pub fn ihl_bytes_from_vhl(&self) -> (n: u8)
        ensures
            n == self.spec_ihl_bytes_from_vhl(),
    {
        (self.version_ihl % 16) * 4
    }

    /// The three flag bits.
    #[verifier::when_used_as_spec(spec_flag_from_flg_offset)]
    pub fn flag_from_flg_offset(&self) -> (v: u16)
        ensures
            v == self.spec_flag_from_flg_offset(),
    {
        self.flg_offset / 0x2000
    }

    /// The fragment offset.
    #[verifier::when_used_as_spec(spec_offset_from_flg_offset)]
    pub fn offset_from_flg_offset(&self) -> (v: u16)
        ensures
            v == self.spec_offset_from_flg_offset(),
    {
        self.flg_offset % 0x2000
    }

    /// Whether the packet is one fragment of a larger packet.
    #[verifier::when_used_as_spec(spec_is_fragmented)]
    pub fn is_fragmented(&self) -> (b: bool)
        ensures
            b == self.spec_is_fragmented(),
    {
        self.is_wip_fragment() || self.is_last_fragment()
    }

    /// Whether more fragments follow this one.
    #[verifier::when_used_as_spec(spec_is_wip_fragment)]
    pub fn is_wip_fragment(&self) -> (b: bool)
        ensures
            b == self.spec_is_wip_fragment(),
    {
        self.flg_offset / 0x2000 % 2 == 1
    }

    /// Whether the packet is a fragment behind the first one.
    #[verifier::when_used_as_spec(spec_is_last_fragment)]
    pub fn is_last_fragment(&self) -> (b: bool)
        ensures
            b == self.spec_is_last_fragment(),
    {
        self.offset_from_flg_offset() != 0
    }

    /// Every buffer that holds twenty bytes and the whole header that it
    /// announces is read as a header, whatever protocol number it carries; a
    /// number that the stack does not handle reads as `UnAssigned`.
    pub proof fn lemma_every_header_is_read(buf: Seq<u8>)
        requires
            buf.len() >= 20,
            buf.len() >= buf[0] % 16 * 4,
        ensures
            Self::spec_from_bytes(buf) is Some,
            Self::spec_from_bytes(buf)->Some_0.protocol == TransportProtocol::spec_from_u8(
                buf[9],
            ),
            buf[9] != 1 && buf[9] != 6 && buf[9] != 17 ==> Self::spec_from_bytes(
                buf,
            )->Some_0.protocol == TransportProtocol::UnAssigned,
    {
    }

    /// A header without options whose protocol has a number survives being
    /// written and read back.
    pub proof fn lemma_parse_serialize(header: IPHeader)
        requires
            header.protocol.spec_to_u8() is Some,
            header.spec_ihl_bytes_from_vhl() <= Self::LEAST_LENGTH,
        ensures
            header.spec_to_bytes() is Some,
            header.spec_to_bytes()->Some_0.len() == Self::LEAST_LENGTH,
            Self::spec_from_bytes(header.spec_to_bytes()->Some_0) == Some(header),
    {
        let bytes = header.spec_to_bytes()->Some_0;
        lemma_u16_be_decode_encode(header.total_length);
        lemma_u16_be_decode_encode(header.identification);
        lemma_u16_be_decode_encode(header.flg_offset);
        lemma_u16_be_decode_encode(header.checksum);
        lemma_u32_be_decode_encode(header.src_addr.0);
        lemma_u32_be_decode_encode(header.dst_addr.0);
        TransportProtocol::lemma_u8_roundtrip(header.protocol);
        assert(bytes.len() == 20);
        assert(bytes[2] == spec_u16_be_bytes(header.total_length)[0]);
        assert(bytes[3] == spec_u16_be_bytes(header.total_length)[1]);
        assert(bytes[4] == spec_u16_be_bytes(header.identification)[0]);
        assert(bytes[5] == spec_u16_be_bytes(header.identification)[1]);
        assert(bytes[6] == spec_u16_be_bytes(header.flg_offset)[0]);
        assert(bytes[7] == spec_u16_be_bytes(header.flg_offset)[1]);
        assert(bytes[10] == spec_u16_be_bytes(header.checksum)[0]);
        assert(bytes[11] == spec_u16_be_bytes(header.checksum)[1]);
        assert(bytes[12] == spec_u32_be_bytes(header.src_addr.0)[0]);
        assert(bytes[13] == spec_u32_be_bytes(header.src_addr.0)[1]);
        assert(bytes[14] == spec_u32_be_bytes(header.src_addr.0)[2]);
        assert(bytes[15] == spec_u32_be_bytes(header.src_addr.0)[3]);
        assert(bytes[16] == spec_u32_be_bytes(header.dst_addr.0)[0]);
        assert(bytes[17] == spec_u32_be_bytes(header.dst_addr.0)[1]);
        assert(bytes[18] == spec_u32_be_bytes(header.dst_addr.0)[2]);
        assert(bytes[19] == spec_u32_be_bytes(header.dst_addr.0)[3]);
    }

    /// Writing a header that was read gives twenty bytes: those it was read
    /// from, but for the protocol byte of an unassigned protocol, for which
    /// nothing can be written.
    pub proof fn lemma_serialize_parse(buf: Seq<u8>)
        requires
            Self::spec_from_bytes(buf) is Some,
            Self::spec_from_bytes(buf)->Some_0.protocol != TransportProtocol::UnAssigned,
        ensures
            Self::spec_from_bytes(buf)->Some_0.spec_to_bytes() == Some(
                buf.take(Self::LEAST_LENGTH as int),
            ),
    {
        let header = Self::spec_from_bytes(buf)->Some_0;
        lemma_u16_be_encode_decode(buf[2], buf[3]);
        lemma_u16_be_encode_decode(buf[4], buf[5]);
        lemma_u16_be_encode_decode(buf[6], buf[7]);
        lemma_u16_be_encode_decode(buf[10], buf[11]);
        lemma_u32_be_encode_decode(buf[12], buf[13], buf[14], buf[15]);
        lemma_u32_be_encode_decode(buf[16], buf[17], buf[18], buf[19]);
        assert(header.spec_to_bytes()->Some_0 =~= buf.take(20));
    }
}

impl Default for IPHeader {
    fn default() -> (r: Self)
        ensures
            r == (IPHeader {
                version_ihl: 0,
                type_of_service: 0,
                total_length: 0,
                identification: 0,
                flg_offset: 0,
                time_to_live: 0,
                protocol: TransportProtocol::ICMP,
                checksum: 0,
                src_addr: IPv4Addr::spec_any(),
                dst_addr: IPv4Addr::spec_any(),
            }),
    {
        Self {
            version_ihl: 0,
            type_of_service: 0,
            total_length: 0,
            identification: 0,
            flg_offset: 0,
            time_to_live: 0,
            protocol: TransportProtocol::ICMP,
            checksum: 0,
            src_addr: IPv4Addr::any(),
            dst_addr: IPv4Addr::any(),
        }
    }
}

impl From<[u8; 4]> for IPv4Addr {
    /// The address with the given octets, first octet first.
    fn from(v: [u8; 4]) -> (r: IPv4Addr) {
        IPv4Addr(
            v[0] as u32 * 0x100_0000 + v[1] as u32 * 0x1_0000 + v[2] as u32 * 0x100 + v[3] as u32,
        )
    }
}

impl FromSpecImpl<[u8; 4]> for IPv4Addr {
    open spec fn obeys_from_spec() -> bool {
        true
    }

    open spec fn from_spec(v: [u8; 4]) -> IPv4Addr {
        IPv4Addr(spec_u32_be(v@[0], v@[1], v@[2], v@[3]))
    }
}

impl Default for IPv4Addr {
    fn default() -> (r: IPv4Addr)
        ensures
            r == IPv4Addr::spec_any(),
    {
        Self(0x00)
    }
}

} // verus!
