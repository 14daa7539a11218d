//! The TCP segment header and the protocol control block.

use crate::byteorder_wrapper::{
    lemma_u16_be_decode_encode, lemma_u16_be_encode_decode, lemma_u32_be_decode_encode,
    lemma_u32_be_encode_decode, read_u16_as_be, read_u32_as_be, read_u8, spec_u16_be,
    spec_u16_be_bytes, spec_u32_be, spec_u32_be_bytes, write_u16_as_be, write_u32_as_be, write_u8,
    ByteCursor,
};
use crate::internet::ip::IPv4Addr;
use crate::text::{
    push_line_bin, push_line_dec, push_line_hex, spec_bin, spec_dec, spec_hex, spec_line,
};
use crate::transport::tcp::control_flag::{is_up, spec_is_up};
use vstd::prelude::*;

verus! {

/// The pseudo header that takes part in the TCP checksum and is never sent.
#[derive(Debug, Clone, Copy, PartialEq, Eq, Structural)]
pub struct PseudoHeader {
    pub src_addr: IPv4Addr,
    pub dst_addr: IPv4Addr,
    /// The length of the TCP header and data in bytes.
    pub length: u16,
}

/// The header of a TCP segment, without options.
#[derive(Debug, Clone, Copy, PartialEq, Eq, Structural, PartialOrd, Ord, Hash)]
pub struct SegmentHeader {
    /// The sender's port.
    pub src_port: u16,
    /// The receiver's port.
    pub dst_port: u16,
    /// The sequence number of the first data byte.
    pub sequence: u32,
    /// The next sequence number the sender expects.
    pub acknowledgement: u32,
    /// High four bits: header length in 32-bit words. Low four bits: reserved.
    pub offset: u8,
    /// Low six bits: control bits. High two bits: reserved.
    pub flg: u8,
    /// How much the sender is willing to receive.
    pub window_size: u16,
    pub checksum: u16,
    /// Where urgent data ends.
    pub urgent_pointer: u16,
}

/// The state of one connection.
#[derive(Clone, Copy, Debug, PartialEq, Eq, PartialOrd, Ord, Hash)]
pub struct ProtocolControlBlock {
    pub state: ConnState,
    pub conn: Connection,
    /// The initial receive sequence number.
    pub irs: u32,
    /// The initial send sequence number.
    pub iss: u32,
    pub receive: ReceiveInfo,
    pub send: SendInfo,
    /// The receive buffer.
    pub buffer: [u8; 65535],
}

/// The receive sequence variables.
#[derive(Clone, Copy, Debug, PartialEq, Eq, Structural, PartialOrd, Ord, Hash)]
pub struct ReceiveInfo {
    pub next: u32,
    pub window_size: u16,
    pub urgent_pointer: u16,
}

/// The send sequence variables.
#[derive(Clone, Copy, Debug, PartialEq, Eq, Structural, PartialOrd, Ord, Hash)]
pub struct SendInfo {
    pub next: u32,
    pub window_size: u16,
    pub urgent_pointer: u16,
    pub unacknowleage: u32,
    pub wl1: u32,
    pub wl2: u32,
}

/// The states of a connection that the passive open passes through.
#[derive(Clone, Copy, Debug, PartialEq, Eq, Structural, PartialOrd, Ord, Hash)]
pub enum ConnState {
    Listen,
    Close,
    SynReceived,
}

/// One end of a connection.
#[derive(Clone, Copy, Debug, PartialEq, Eq, Structural, PartialOrd, Ord, Hash)]
pub struct EndPoint {
    pub addr: IPv4Addr,
    pub port: u16,
}

/// The two ends of a connection. A foreign end of `0.0.0.0` port 0 stands
/// for a passive open that nobody has answered yet.
#[derive(Clone, Copy, Debug, PartialEq, Eq, Structural, PartialOrd, Ord, Hash)]
pub struct Connection {
    pub local: EndPoint,
    pub foreign: EndPoint,
}

impl PseudoHeader {
    /// The length of the pseudo header in bytes.
    pub const LENGTH: usize = 12;

    /// The protocol number of TCP.
    pub const PROTOCOL: u8 = 6;

    /// The twelve bytes of the pseudo header: source, destination, a zero
    /// byte, the protocol number of TCP, the TCP length.
    pub open spec fn spec_to_bytes(&self) -> Seq<u8> {
        spec_u32_be_bytes(self.src_addr.0) + spec_u32_be_bytes(self.dst_addr.0) + seq![
            0u8,
            Self::PROTOCOL,
        ] + spec_u16_be_bytes(self.length)
    }

    /// Writes the twelve bytes of the pseudo header. This never fails.
    pub fn to_bytes<E: Copy>(&self, err: E) -> (r: Result<Vec<u8>, E>)
        ensures
            r is Ok,
            r->Ok_0@ == self.spec_to_bytes(),
    {
        let mut buf = Vec::<u8>::new();
        write_u32_as_be(&mut buf, self.src_addr.0, err)?;
        write_u32_as_be(&mut buf, self.dst_addr.0, err)?;
        write_u8(&mut buf, 0, err)?;
        write_u8(&mut buf, Self::PROTOCOL, err)?;
        write_u16_as_be(&mut buf, self.length, err)?;
        assert(buf@ =~= self.spec_to_bytes());
        Ok(buf)
    }
}

impl EndPoint {
    /// The end that stands for "anybody": `0.0.0.0` port 0.
    pub open spec fn spec_unspecified() -> EndPoint {
        EndPoint { addr: IPv4Addr::spec_any(), port: 0 }
    }
}

impl SegmentHeader {
    /// The length of a header without options, in bytes.
    pub const LEAST_LENGTH: usize = 20;

    /// The header length in 32-bit words: the high four bits of the offset byte.
    pub open spec fn spec_data_offset(&self) -> u8 {
        self.offset / 16
    }

    /// The six control bits.
    pub open spec fn spec_control_flag(&self) -> u8 {
        self.flg % 64
    }

    /// Whether a control bit of `flg` is set.
    pub open spec fn spec_flag_is_up(&self, flg: u8) -> bool {
        spec_is_up(self.spec_control_flag(), flg)
    }

    /// The twenty bytes of the header on the wire.
    pub open spec fn spec_to_bytes(&self) -> Seq<u8> {
        spec_u16_be_bytes(self.src_port) + spec_u16_be_bytes(self.dst_port) + spec_u32_be_bytes(
            self.sequence,
        ) + spec_u32_be_bytes(self.acknowledgement) + seq![self.offset, self.flg]
            + spec_u16_be_bytes(self.window_size) + spec_u16_be_bytes(self.checksum)
            + spec_u16_be_bytes(self.urgent_pointer)
    }

    /// The header at the start of `buf`, if `buf` holds twenty bytes.
    pub open spec fn spec_from_bytes(buf: Seq<u8>) -> Option<SegmentHeader> {
        if buf.len() < 20 {
            None
        } else {
            Some(
                SegmentHeader {
                    src_port: spec_u16_be(buf[0], buf[1]),
                    dst_port: spec_u16_be(buf[2], buf[3]),
                    sequence: spec_u32_be(buf[4], buf[5], buf[6], buf[7]),
                    acknowledgement: spec_u32_be(buf[8], buf[9], buf[10], buf[11]),
                    offset: buf[12],
                    flg: buf[13],
                    window_size: spec_u16_be(buf[14], buf[15]),
                    checksum: spec_u16_be(buf[16], buf[17]),
                    urgent_pointer: spec_u16_be(buf[18], buf[19]),
                },
            )
        }
    }

    /// The header as text, one line for each field.
    pub open spec fn spec_text(&self) -> Seq<char> {
        spec_line("Src Port: "@, spec_dec(self.src_port as nat)) + spec_line(
            "Dst Port: "@,
            spec_dec(self.dst_port as nat),
        ) + spec_line("Sequence: "@, spec_dec(self.sequence as nat)) + spec_line(
            "Acknowleage: "@,
            spec_dec(self.acknowledgement as nat),
        ) + spec_line("Offset: 0x"@, spec_hex(self.spec_data_offset() as nat)) + spec_line(
            "Control Flag: 0b"@,
            spec_bin(self.spec_control_flag() as nat),
        ) + spec_line("Window Size: "@, spec_dec(self.window_size as nat)) + spec_line(
            "Checksum: "@,
            spec_dec(self.checksum as nat),
        ) + spec_line("Urgent Pointer: "@, spec_dec(self.urgent_pointer as nat))
    }

    /// The header as text, for a trace.
    pub fn to_string(&self) -> (s: String)
        ensures
            s@ == self.spec_text(),
    {
        let mut text = String::new();
        push_line_dec(&mut text, "Src Port: ", self.src_port as u64);
        push_line_dec(&mut text, "Dst Port: ", self.dst_port as u64);
        push_line_dec(&mut text, "Sequence: ", self.sequence as u64);
        push_line_dec(&mut text, "Acknowleage: ", self.acknowledgement as u64);
        push_line_hex(&mut text, "Offset: 0x", self.data_offset() as u64);
        push_line_bin(&mut text, "Control Flag: 0b", self.control_flag() as u64);
        push_line_dec(&mut text, "Window Size: ", self.window_size as u64);
        push_line_dec(&mut text, "Checksum: ", self.checksum as u64);
        push_line_dec(&mut text, "Urgent Pointer: ", self.urgent_pointer as u64);
        assert(text@ =~= self.spec_text());
        text
    }

    /// The header length in 32-bit words.
    #[verifier::when_used_as_spec(spec_data_offset)]
    pub fn data_offset(&self) -> (v: u8)
        ensures
            v == self.spec_data_offset(),
    {
        self.offset / 16
    }

    /// The six control bits.
    #[verifier::when_used_as_spec(spec_control_flag)]
    pub fn control_flag(&self) -> (v: u8)
        ensures
            v == self.spec_control_flag(),
    {
        self.flg % 64
    }

    /// Whether a control bit of `flg` is set.
    #[verifier::when_used_as_spec(spec_flag_is_up)]
    pub fn flag_is_up(&self, flg: u8) -> (b: bool)
        ensures
            b == self.spec_flag_is_up(flg),
    {
        is_up(self.control_flag(), flg)
    }

    /// Reads the header at the start of `buf`.
    ///
    /// Fails with `err` exactly when `buf` holds fewer than twenty bytes.
    pub fn new_from_bytes<E: Copy>(buf: &[u8], err: E) -> (r: Result<Self, E>)
        ensures
            r == (match Self::spec_from_bytes(buf@) {
                Some(header) => Ok::<Self, E>(header),
                None => Err::<Self, E>(err),
            }),
    {
        let mut reader = ByteCursor::new(buf);

        let src_port = read_u16_as_be(&mut reader, err)?;
        let dst_port = read_u16_as_be(&mut reader, err)?;
        let sequence = read_u32_as_be(&mut reader, err)?;
        let acknowledgement = read_u32_as_be(&mut reader, err)?;
        let offset = read_u8(&mut reader, err)?;
        let flg = read_u8(&mut reader, err)?;
        let window_size = read_u16_as_be(&mut reader, err)?;
        let checksum = read_u16_as_be(&mut reader, err)?;
        let urgent_pointer = read_u16_as_be(&mut reader, err)?;

        Ok(
            SegmentHeader {
                src_port,
                dst_port,
                sequence,
                acknowledgement,
                offset,
                flg,
                window_size,
                checksum,
                urgent_pointer,
            },
        )
    }

    /// Writes the twenty bytes of the header. This never fails.
    pub fn to_bytes<E: Copy>(&self, err: E) -> (r: Result<Vec<u8>, E>)
        ensures
            r is Ok,
            r->Ok_0@ == self.spec_to_bytes(),
    {
        let mut buf = Vec::<u8>::new();
        write_u16_as_be(&mut buf, self.src_port, err)?;
        write_u16_as_be(&mut buf, self.dst_port, err)?;
        write_u32_as_be(&mut buf, self.sequence, err)?;
        write_u32_as_be(&mut buf, self.acknowledgement, err)?;
        write_u8(&mut buf, self.offset, err)?;
        write_u8(&mut buf, self.flg, err)?;
        write_u16_as_be(&mut buf, self.window_size, err)?;
        write_u16_as_be(&mut buf, self.checksum, err)?;
        write_u16_as_be(&mut buf, self.urgent_pointer, err)?;
        assert(buf@ =~= self.spec_to_bytes());
        Ok(buf)
    }

    /// A header survives being written and read back.
    pub proof fn lemma_parse_serialize(header: SegmentHeader)
        ensures
            header.spec_to_bytes().len() == Self::LEAST_LENGTH,
            Self::spec_from_bytes(header.spec_to_bytes()) == Some(header),
    {
        let bytes = header.spec_to_bytes();
        lemma_u16_be_decode_encode(header.src_port);
        lemma_u16_be_decode_encode(header.dst_port);
        lemma_u32_be_decode_encode(header.sequence);
        lemma_u32_be_decode_encode(header.acknowledgement);
        lemma_u16_be_decode_encode(header.window_size);
        lemma_u16_be_decode_encode(header.checksum);
        lemma_u16_be_decode_encode(header.urgent_pointer);
        assert(bytes.len() == 20);
        assert(bytes[0] == spec_u16_be_bytes(header.src_port)[0]);
        assert(bytes[1] == spec_u16_be_bytes(header.src_port)[1]);
        assert(bytes[2] == spec_u16_be_bytes(header.dst_port)[0]);
        assert(bytes[3] == spec_u16_be_bytes(header.dst_port)[1]);
        assert(bytes[4] == spec_u32_be_bytes(header.sequence)[0]);
        assert(bytes[5] == spec_u32_be_bytes(header.sequence)[1]);
        assert(bytes[6] == spec_u32_be_bytes(header.sequence)[2]);
        assert(bytes[7] == spec_u32_be_bytes(header.sequence)[3]);
        assert(bytes[8] == spec_u32_be_bytes(header.acknowledgement)[0]);
        assert(bytes[9] == spec_u32_be_bytes(header.acknowledgement)[1]);
        assert(bytes[10] == spec_u32_be_bytes(header.acknowledgement)[2]);
        assert(bytes[11] == spec_u32_be_bytes(header.acknowledgement)[3]);
        assert(bytes[14] == spec_u16_be_bytes(header.window_size)[0]);
        assert(bytes[15] == spec_u16_be_bytes(header.window_size)[1]);
        assert(bytes[16] == spec_u16_be_bytes(header.checksum)[0]);
        assert(bytes[17] == spec_u16_be_bytes(header.checksum)[1]);
        assert(bytes[18] == spec_u16_be_bytes(header.urgent_pointer)[0]);
        assert(bytes[19] == spec_u16_be_bytes(header.urgent_pointer)[1]);
    }

    /// Writing a header that was read gives back the bytes it was read from.
    pub proof fn lemma_serialize_parse(buf: Seq<u8>)
        requires
            Self::spec_from_bytes(buf) is Some,
        ensures
            Self::spec_from_bytes(buf)->Some_0.spec_to_bytes() == buf.take(
                Self::LEAST_LENGTH as int,
            ),
    {
        let header = Self::spec_from_bytes(buf)->Some_0;
        lemma_u16_be_encode_decode(buf[0], buf[1]);
        lemma_u16_be_encode_decode(buf[2], buf[3]);
        lemma_u32_be_encode_decode(buf[4], buf[5], buf[6], buf[7]);
        lemma_u32_be_encode_decode(buf[8], buf[9], buf[10], buf[11]);
        lemma_u16_be_encode_decode(buf[14], buf[15]);
        lemma_u16_be_encode_decode(buf[16], buf[17]);
        lemma_u16_be_encode_decode(buf[18], buf[19]);
        assert(header.spec_to_bytes() =~= buf.take(20));
    }
}

impl Default for SegmentHeader {
    fn default() -> (r: Self)
        ensures
            r == (SegmentHeader {
                src_port: 0,
                dst_port: 0,
                sequence: 0,
                acknowledgement: 0,
                offset: 0,
                flg: 0,
                window_size: 0,
                checksum: 0,
                urgent_pointer: 0,
            }),
    {
        Self {
            src_port: 0,
            dst_port: 0,
            sequence: 0,
            acknowledgement: 0,
            offset: 0,
            flg: 0,
            window_size: 0,
            checksum: 0,
            urgent_pointer: 0,
        }
    }
}

} // verus!
