//! The ARP packet for IPv4 over Ethernet.

use crate::byteorder_wrapper::{
    lemma_u16_be_decode_encode, lemma_u16_be_encode_decode, lemma_u32_be_decode_encode,
    lemma_u32_be_encode_decode, read_u16_as_be, read_u32_as_be, read_u8, spec_u16_be,
    spec_u16_be_bytes, spec_u32_be, spec_u32_be_bytes, write_u16_as_be, write_u8, ByteCursor,
};
use crate::internet::ip::IPv4Addr;
use crate::internet::InternetProtocol;
use crate::link::{LinkProtocol, MacAddress};
use crate::text::{push_line, push_line_dec, spec_dec, spec_line};
use vstd::prelude::*;

verus! {

/// An ARP packet.
#[derive(Debug, Clone, Copy, PartialEq, Eq, PartialOrd, Ord)]
pub struct ARPHeader {
    /// The hardware address space.
    pub link_type: LinkProtocol,
    /// The protocol address space.
    pub internet_type: InternetProtocol,
    /// The length of a hardware address in bytes.
    pub link_addr_length: u8,
    /// The length of a protocol address in bytes.
    pub internet_addr_length: u8,
    /// Request or reply.
    pub operation: Operation,
    /// The sender's hardware address.
    pub src_link_addr: MacAddress,
    /// The sender's protocol address.
    pub src_internet_addr: IPv4Addr,
    /// The target's hardware address.
    pub dst_link_addr: MacAddress,
    /// The target's protocol address.
    pub dst_internet_addr: IPv4Addr,
}

/// What an ARP packet asks or tells.
#[derive(Debug, Clone, Copy, PartialEq, Eq, Structural, PartialOrd, Ord)]
pub enum Operation {
    Reply,
    Request,
}

impl Operation {
    /// The operation of an operation code: 1 asks, 2 answers.
    pub open spec fn spec_from_u16(v: u16) -> Option<Operation> {
        if v == 1 {
            Some(Operation::Request)
        } else if v == 2 {
            Some(Operation::Reply)
        } else {
            None
        }
    }

    /// The operation code.
    pub open spec fn spec_to_u16(self) -> u16 {
        match self {
            Operation::Request => 1,
            Operation::Reply => 2,
        }
    }

    /// The operation of an operation code, if the code is 1 or 2.
    #[verifier::when_used_as_spec(spec_from_u16)]
    pub fn from_u16(v: u16) -> (r: Option<Operation>)
        ensures
            r == Self::spec_from_u16(v),
    {
        match v {
            1 => Some(Operation::Request),
            2 => Some(Operation::Reply),
            _ => None,
        }
    }

    /// The operation code.
    #[verifier::when_used_as_spec(spec_to_u16)]
    pub fn to_u16(self) -> (v: u16)
        ensures
            v == self.spec_to_u16(),
    {
        match self {
            Operation::Request => 1,
            Operation::Reply => 2,
        }
    }

    /// The operation's name.
    pub open spec fn spec_name(&self) -> Seq<char> {
        match *self {
            Operation::Reply => "ARP Reply"@,
            Operation::Request => "ARP Request"@,
        }
    }

    /// The operation's name.
    pub fn to_string(&self) -> (s: String)
        ensures
            s@ == self.spec_name(),
    {
        match self {
            Operation::Reply => String::from_str("ARP Reply"),
            Operation::Request => String::from_str("ARP Request"),
        }
    }
}

impl Default for ARPHeader {
    fn default() -> (r: Self)
        ensures
            r == (ARPHeader {
                link_type: LinkProtocol::Ethernet,
                internet_type: InternetProtocol::IP,
                link_addr_length: 0,
                internet_addr_length: 0,
                operation: Operation::Request,
                src_link_addr: MacAddress::spec_zero(),
                src_internet_addr: IPv4Addr::spec_any(),
                dst_link_addr: MacAddress::spec_zero(),
                dst_internet_addr: IPv4Addr::spec_any(),
            }),
    {
        Self {
            link_type: LinkProtocol::Ethernet,
            internet_type: InternetProtocol::IP,
            link_addr_length: 0,
            internet_addr_length: 0,
            operation: Operation::Request,
            src_link_addr: MacAddress::zero(),
            src_internet_addr: IPv4Addr::any(),
            dst_link_addr: MacAddress::zero(),
            dst_internet_addr: IPv4Addr::any(),
        }
    }
}

impl ARPHeader {
    /// The length of the packet on the wire.
    pub const LENGTH: usize = 28;

    /// The number of a hardware address space.
    pub open spec fn spec_hw_addr_space(link_type: LinkProtocol) -> u16 {
        match link_type {
            LinkProtocol::Ethernet => 1,
        }
    }

    /// The hardware address space of a number: only Ethernet, 1, is known.
    pub open spec fn spec_new_hw_addr_space(v: u16) -> Option<LinkProtocol> {
        if v == 1 {
            Some(LinkProtocol::Ethernet)
        } else {
            None
        }
    }

    /// The number of a protocol address space: only IPv4 has one here.
    pub open spec fn spec_protocol_addr_space(internet_type: InternetProtocol) -> Option<u16> {
        match internet_type {
            InternetProtocol::IP => Some(0x0800u16),
            _ => None,
        }
    }

    /// The protocol address space of a number: only IPv4, 0x0800, is known.
    pub open spec fn spec_new_protocol_addr_space(v: u16) -> Option<InternetProtocol> {
        if v == 0x0800 {
            Some(InternetProtocol::IP)
        } else {
            None
        }
    }

    /// The twenty-eight bytes of the packet on the wire. A packet for a
    /// protocol address space other than IPv4 cannot be written.
    pub open spec fn spec_to_bytes(&self) -> Option<Seq<u8>> {
        match Self::spec_protocol_addr_space(self.internet_type) {
            Some(ptype) => Some(
                spec_u16_be_bytes(Self::spec_hw_addr_space(self.link_type)) + spec_u16_be_bytes(
                    ptype,
                ) + seq![self.link_addr_length, self.internet_addr_length] + spec_u16_be_bytes(
                    self.operation.spec_to_u16(),
                ) + self.src_link_addr@ + spec_u32_be_bytes(self.src_internet_addr.0)
                    + self.dst_link_addr@ + spec_u32_be_bytes(self.dst_internet_addr.0),
            ),
            None => None,
        }
    }

    /// The packet at the start of `buf`: there if `buf` holds twenty-eight
    /// bytes, the hardware space is Ethernet, the protocol space is IPv4 and
    /// the operation is a request or a reply.
    pub open spec fn spec_from_bytes(buf: Seq<u8>) -> Option<ARPHeader> {
        if buf.len() < 28 {
            None
        } else {
            match (
                Self::spec_new_hw_addr_space(spec_u16_be(buf[0], buf[1])),
                Self::spec_new_protocol_addr_space(spec_u16_be(buf[2], buf[3])),
                Operation::spec_from_u16(spec_u16_be(buf[6], buf[7])),
            ) {
                (Some(link_type), Some(internet_type), Some(operation)) => Some(
                    ARPHeader {
                        link_type,
                        internet_type,
                        link_addr_length: buf[4],
                        internet_addr_length: buf[5],
                        operation,
                        src_link_addr: MacAddress::spec_from_seq(buf.skip(8)),
                        src_internet_addr: IPv4Addr(
                            spec_u32_be(buf[14], buf[15], buf[16], buf[17]),
                        ),
                        dst_link_addr: MacAddress::spec_from_seq(buf.skip(18)),
                        dst_internet_addr: IPv4Addr(
                            spec_u32_be(buf[24], buf[25], buf[26], buf[27]),
                        ),
                    },
                ),
                _ => None,
            }
        }
    }

    /// The packet as text, one line for each field.
    pub open spec fn spec_text(&self) -> Seq<char> {
        spec_line("Hardware Address Space: "@, self.link_type.spec_name()) + spec_line(
            "Protocol Address Space: "@,
            self.internet_type.spec_name(),
        ) + spec_line("Hardware Address Length: "@, spec_dec(self.link_addr_length as nat))
            + spec_line("Protocol Address Length: "@, spec_dec(self.internet_addr_length as nat))
            + spec_line("Operation: "@, self.operation.spec_name()) + spec_line(
            "Source Hardware Address: "@,
            self.src_link_addr.spec_text(),
        ) + spec_line("Source Protocol Address: "@, self.src_internet_addr.spec_text())
            + spec_line("Destination Hardware Address: "@, self.dst_link_addr.spec_text())
            + spec_line("Destination Protocol Address: "@, self.dst_internet_addr.spec_text())
    }

    /// The packet as text, for a trace.
    pub fn to_string(&self) -> (s: String)
        ensures
            s@ == self.spec_text(),
    {
        let mut text = String::new();
        push_line(&mut text, "Hardware Address Space: ", self.link_type.to_string().as_str());
        push_line(&mut text, "Protocol Address Space: ", self.internet_type.to_string().as_str());
        push_line_dec(&mut text, "Hardware Address Length: ", self.link_addr_length as u64);
        push_line_dec(&mut text, "Protocol Address Length: ", self.internet_addr_length as u64);
        push_line(&mut text, "Operation: ", self.operation.to_string().as_str());
        push_line(&mut text, "Source Hardware Address: ", self.src_link_addr.to_string().as_str());
        push_line(
            &mut text,
            "Source Protocol Address: ",
            self.src_internet_addr.to_string().as_str(),
        );
        push_line(
            &mut text,
            "Destination Hardware Address: ",
            self.dst_link_addr.to_string().as_str(),
        );
        push_line(
            &mut text,
            "Destination Protocol Address: ",
            self.dst_internet_addr.to_string().as_str(),
        );
        assert(text@ =~= self.spec_text());
        text
    }

    /// Reads the packet at the start of `buf`.
    ///
    /// Fails with `err` when `buf` is shorter than a packet, when the address
    /// spaces are not Ethernet and IPv4, or when the operation is unknown.
    pub fn new_from_bytes<E: Copy>(buf: &[u8], err: E) -> (r: Result<Self, E>)
        ensures
            r == (match Self::spec_from_bytes(buf@) {
                Some(header) => Ok::<Self, E>(header),
                None => Err::<Self, E>(err),
            }),
    {
        if buf.len() < Self::LENGTH {
            return Err(err);
        }
        let mut reader = ByteCursor::new(buf);

        let link_type = match Self::new_hw_addr_space(read_u16_as_be(&mut reader, err)?) {
            Some(link_type) => link_type,
            None => {
                return Err(err);
            },
        };
        let internet_type = match Self::new_protocol_addr_space(
            read_u16_as_be(&mut reader, err)?,
        ) {
            Some(internet_type) => internet_type,
            None => {
                return Err(err);
            },
        };
        let link_addr_length = read_u8(&mut reader, err)?;
        let internet_addr_length = read_u8(&mut reader, err)?;
        let operation = match Operation::from_u16(read_u16_as_be(&mut reader, err)?) {
            Some(operation) => operation,
            None => {
                return Err(err);
            },
        };
        let src_link_addr = MacAddress::from_cursor(&mut reader, err)?;
        let src_internet_addr = IPv4Addr(read_u32_as_be(&mut reader, err)?);
        let dst_link_addr = MacAddress::from_cursor(&mut reader, err)?;
        let dst_internet_addr = IPv4Addr(read_u32_as_be(&mut reader, err)?);

        Ok(
            ARPHeader {
                link_type,
                internet_type,
                link_addr_length,
                internet_addr_length,
                operation,
                src_link_addr,
                src_internet_addr,
                dst_link_addr,
                dst_internet_addr,
            },
        )
    }

    /// Writes the twenty-eight bytes of the packet.
    ///
    /// Fails with `err` exactly when the protocol address space is not IPv4.
    pub fn to_bytes<E: Copy>(&self, err: E) -> (r: Result<Vec<u8>, E>)
        ensures
            match self.spec_to_bytes() {
                Some(bytes) => r is Ok && r->Ok_0@ == bytes,
                None => r == Err::<Vec<u8>, E>(err),
            },
    {
        let ptype = match self.protocol_addr_space_to_bytes() {
            Some(ptype) => ptype,
            None => {
                return Err(err);
            },
        };
        let mut payload = Vec::new();

        write_u16_as_be(&mut payload, self.hw_addr_space_to_bytes(), err)?;
        write_u16_as_be(&mut payload, ptype, err)?;
        write_u8(&mut payload, self.link_addr_length, err)?;
        write_u8(&mut payload, self.internet_addr_length, err)?;
        write_u16_as_be(&mut payload, self.operation.to_u16(), err)?;
        let mut src_link = self.src_link_addr.to_bytes(err)?;
        payload.append(&mut src_link);
        let mut src_internet = self.src_internet_addr.to_bytes(err)?;
        payload.append(&mut src_internet);
        let mut dst_link = self.dst_link_addr.to_bytes(err)?;
        payload.append(&mut dst_link);
        let mut dst_internet = self.dst_internet_addr.to_bytes(err)?;
        payload.append(&mut dst_internet);
        assert(payload@ =~= self.spec_to_bytes()->Some_0);
        Ok(payload)
    }

    /// The number of this packet's hardware address space.
    pub fn hw_addr_space_to_bytes(&self) -> (v: u16)
        ensures
            v == Self::spec_hw_addr_space(self.link_type),
    {
        match self.link_type {
            LinkProtocol::Ethernet => 1,
        }
    }

    /// The hardware address space of a number, if it is Ethernet's.
    #[verifier::when_used_as_spec(spec_new_hw_addr_space)]
    pub fn new_hw_addr_space(v: u16) -> (r: Option<LinkProtocol>)
        ensures
            r == Self::spec_new_hw_addr_space(v),
    {
        match v {
            1 => Some(LinkProtocol::Ethernet),
            _ => None,
        }
    }

    /// The protocol address space of a number, if it is IPv4's.
    #[verifier::when_used_as_spec(spec_new_protocol_addr_space)]
    pub fn new_protocol_addr_space(v: u16) -> (r: Option<InternetProtocol>)
        ensures
            r == Self::spec_new_protocol_addr_space(v),
    {
        match v {
            0x0800 => Some(InternetProtocol::IP),
            _ => None,
        }
    }

    /// The number of this packet's protocol address space, if it is IPv4.
    pub fn protocol_addr_space_to_bytes(&self) -> (r: Option<u16>)
        ensures
            r == Self::spec_protocol_addr_space(self.internet_type),
    {
        match self.internet_type {
            InternetProtocol::IP => Some(0x0800),
            _ => None,
        }
    }

    /// A packet for IPv4 survives being written and read back.
    pub proof fn lemma_parse_serialize(header: ARPHeader)
        requires
            header.internet_type == InternetProtocol::IP,
        ensures
            header.spec_to_bytes() is Some,
            header.spec_to_bytes()->Some_0.len() == Self::LENGTH,
            Self::spec_from_bytes(header.spec_to_bytes()->Some_0) == Some(header),
    {
        let bytes = header.spec_to_bytes()->Some_0;
        lemma_u16_be_decode_encode(1);
        lemma_u16_be_decode_encode(0x0800);
        lemma_u16_be_decode_encode(header.operation.spec_to_u16());
        lemma_u32_be_decode_encode(header.src_internet_addr.0);
        lemma_u32_be_decode_encode(header.dst_internet_addr.0);
        assert(bytes.len() == 28);
        assert(bytes[0] == spec_u16_be_bytes(1)[0]);
        assert(bytes[1] == spec_u16_be_bytes(1)[1]);
        assert(bytes[2] == spec_u16_be_bytes(0x0800)[0]);
        assert(bytes[3] == spec_u16_be_bytes(0x0800)[1]);
        assert(bytes[6] == spec_u16_be_bytes(header.operation.spec_to_u16())[0]);
        assert(bytes[7] == spec_u16_be_bytes(header.operation.spec_to_u16())[1]);
        assert(bytes[14] == spec_u32_be_bytes(header.src_internet_addr.0)[0]);
        assert(bytes[15] == spec_u32_be_bytes(header.src_internet_addr.0)[1]);
        assert(bytes[16] == spec_u32_be_bytes(header.src_internet_addr.0)[2]);
        assert(bytes[17] == spec_u32_be_bytes(header.src_internet_addr.0)[3]);
        assert(bytes[24] == spec_u32_be_bytes(header.dst_internet_addr.0)[0]);
        assert(bytes[25] == spec_u32_be_bytes(header.dst_internet_addr.0)[1]);
        assert(bytes[26] == spec_u32_be_bytes(header.dst_internet_addr.0)[2]);
        assert(bytes[27] == spec_u32_be_bytes(header.dst_internet_addr.0)[3]);
        assert(bytes.skip(8).take(6) =~= header.src_link_addr@);
        assert(bytes.skip(18).take(6) =~= header.dst_link_addr@);
        MacAddress::lemma_from_seq(header.src_link_addr, bytes.skip(8));
        MacAddress::lemma_from_seq(header.dst_link_addr, bytes.skip(18));
    }

    /// Writing a packet that was read gives back the bytes it was read from.
    pub proof fn lemma_serialize_parse(buf: Seq<u8>)
        requires
            Self::spec_from_bytes(buf) is Some,
        ensures
            Self::spec_from_bytes(buf)->Some_0.spec_to_bytes() == Some(
                buf.take(Self::LENGTH as int),
            ),
    {
        let header = Self::spec_from_bytes(buf)->Some_0;
        lemma_u16_be_encode_decode(buf[0], buf[1]);
        lemma_u16_be_encode_decode(buf[2], buf[3]);
        lemma_u16_be_encode_decode(buf[6], buf[7]);
        lemma_u32_be_encode_decode(buf[14], buf[15], buf[16], buf[17]);
        lemma_u32_be_encode_decode(buf[24], buf[25], buf[26], buf[27]);
        MacAddress::lemma_from_seq(header.src_link_addr, buf.skip(8));
        MacAddress::lemma_from_seq(header.dst_link_addr, buf.skip(18));
        assert(header.operation.spec_to_u16() == spec_u16_be(buf[6], buf[7]));
        assert(header.spec_to_bytes()->Some_0 =~= buf.take(28));
    }
}

} // verus!
