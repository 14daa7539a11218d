//! The ICMP message.

use crate::byteorder_wrapper::{
    lemma_u16_be_decode_encode, lemma_u16_be_encode_decode, read_u16_as_be, read_u8, spec_u16_be,
    spec_u16_be_bytes, write_u16_as_be, write_u8, ByteCursor,
};
use crate::text::{
    push_dec_list, push_line, push_line_dec, spec_dec, spec_dec_list, spec_line,
};
use vstd::prelude::*;

verus! {

/// An ICMP message: the four-byte header and, for an echo, its body.
#[derive(Debug, Clone, Copy, PartialEq, Eq, PartialOrd, Ord)]
pub struct Message {
    pub ty: MessageType,
    pub code: u8,
    pub checksum: u16,
    pub data: MessageData,
}

/// What follows the header of a message.
#[derive(Debug, Clone, Copy, PartialEq, Eq, PartialOrd, Ord)]
pub enum MessageData {
    /// The body of an echo request or reply. Data shorter than thirty-two
    /// bytes is followed by zeros.
    Echo { identifier: u16, sequence_number: u16, raw_data: [u8; 32] },
    /// Nothing that the stack keeps.
    Empty,
}

/// The kind of an ICMP message.
#[derive(Debug, Clone, Copy, PartialEq, Eq, Structural, PartialOrd, Ord)]
pub enum MessageType {
    EchoReply,
    DestinationUnreachable,
    Redirect,
    EchoRequest,
    TimeExceeded,
}

impl MessageType {
    /// The kind of a type number, if the stack knows the number.
    pub open spec fn spec_from_u8(v: u8) -> Option<MessageType> {
        if v == 0 {
            Some(MessageType::EchoReply)
        } else if v == 3 {
            Some(MessageType::DestinationUnreachable)
        } else if v == 5 {
            Some(MessageType::Redirect)
        } else if v == 8 {
            Some(MessageType::EchoRequest)
        } else if v == 11 {
            Some(MessageType::TimeExceeded)
        } else {
            None
        }
    }

    /// The type number of a kind.
    pub open spec fn spec_to_u8(self) -> u8 {
        match self {
            MessageType::EchoReply => 0,
            MessageType::DestinationUnreachable => 3,
            MessageType::Redirect => 5,
            MessageType::EchoRequest => 8,
            MessageType::TimeExceeded => 11,
        }
    }

    /// Whether a message of this kind carries an echo body.
    pub open spec fn spec_is_echo(self) -> bool {
        self == MessageType::EchoRequest || self == MessageType::EchoReply
    }

    /// The kind of a type number, if the stack knows the number.
    #[verifier::when_used_as_spec(spec_from_u8)]
    pub fn from_u8(v: u8) -> (r: Option<MessageType>)
        ensures
            r == Self::spec_from_u8(v),
    {
        match v {
            0 => Some(MessageType::EchoReply),
            3 => Some(MessageType::DestinationUnreachable),
            5 => Some(MessageType::Redirect),
            8 => Some(MessageType::EchoRequest),
            11 => Some(MessageType::TimeExceeded),
            _ => None,
        }
    }

    /// The type number of a kind.
    #[verifier::when_used_as_spec(spec_to_u8)]
    pub fn to_u8(self) -> (v: u8)
        ensures
            v == self.spec_to_u8(),
    {
        match self {
            MessageType::EchoReply => 0,
            MessageType::DestinationUnreachable => 3,
            MessageType::Redirect => 5,
            MessageType::EchoRequest => 8,
            MessageType::TimeExceeded => 11,
        }
    }

    /// Whether a message of this kind carries an echo body.
    #[verifier::when_used_as_spec(spec_is_echo)]
    pub fn is_echo(self) -> (b: bool)
        ensures
            b == self.spec_is_echo(),
    {
        match self {
            MessageType::EchoRequest | MessageType::EchoReply => true,
            _ => false,
        }
    }

    /// The kind's name.
    pub open spec fn spec_name(&self) -> Seq<char> {
        match *self {
            MessageType::EchoReply => "Echo Reply"@,
            MessageType::DestinationUnreachable => "Destination Unreachable"@,
            MessageType::Redirect => "Redirect"@,
            MessageType::EchoRequest => "Echo Request"@,
            MessageType::TimeExceeded => "Time Exceeded"@,
        }
    }

    /// The kind's name.
    pub fn to_string(&self) -> (s: String)
        ensures
            s@ == self.spec_name(),
    {
        match self {
            MessageType::EchoReply => String::from_str("Echo Reply"),
            MessageType::DestinationUnreachable => String::from_str("Destination Unreachable"),
            MessageType::Redirect => String::from_str("Redirect"),
            MessageType::EchoRequest => String::from_str("Echo Request"),
            MessageType::TimeExceeded => String::from_str("Time Exceeded"),
        }
    }
}

impl MessageData {
    /// The body on the wire: for an echo, identifier, sequence number and
    /// thirty-two bytes of data; else nothing.
    pub open spec fn spec_to_bytes(&self) -> Seq<u8> {
        match *self {
            MessageData::Echo { identifier, sequence_number, raw_data } => spec_u16_be_bytes(
                identifier,
            ) + spec_u16_be_bytes(sequence_number) + raw_data@,
            MessageData::Empty => Seq::<u8>::empty(),
        }
    }
}

impl MessageData {
    /// The body as text: for an echo, one line each for identifier, sequence
    /// number and data; else nothing.
    pub open spec fn spec_text(&self) -> Seq<char> {
        match *self {
            MessageData::Echo { identifier, sequence_number, raw_data } => spec_line(
                "Identifier: "@,
                spec_dec(identifier as nat),
            ) + spec_line("Sequence: "@, spec_dec(sequence_number as nat)) + spec_line(
                "Data: "@,
                spec_dec_list(raw_data@),
            ),
            MessageData::Empty => Seq::<char>::empty(),
        }
    }
}

impl Message {
    /// The message as text, one line for each field.
    pub open spec fn spec_text(&self) -> Seq<char> {
        spec_line("Type: "@, self.ty.spec_name()) + spec_line(
            "Code: "@,
            spec_dec(self.code as nat),
        ) + spec_line("Checksum: "@, spec_dec(self.checksum as nat)) + self.data.spec_text()
    }

    /// The message as text, for a trace.
    pub fn to_string(&self) -> (s: String)
        ensures
            s@ == self.spec_text(),
    {
        let mut text = String::new();
        push_line(&mut text, "Type: ", self.ty.to_string().as_str());
        push_line_dec(&mut text, "Code: ", self.code as u64);
        push_line_dec(&mut text, "Checksum: ", self.checksum as u64);
        match self.data {
            MessageData::Echo { identifier, sequence_number, raw_data } => {
                push_line_dec(&mut text, "Identifier: ", identifier as u64);
                push_line_dec(&mut text, "Sequence: ", sequence_number as u64);
                let mut list = String::new();
                push_dec_list(&mut list, raw_data.as_slice());
                assert(list@ =~= spec_dec_list(raw_data@));
                push_line(&mut text, "Data: ", list.as_str());
            },
            MessageData::Empty => {},
        }
        assert(text@ =~= self.spec_text());
        text
    }

    /// The length of the header on the wire.
    pub const LENGTH: usize = 4;

    /// The most data bytes that an echo body keeps.
    pub const DATA_LENGTH: usize = 32;

    /// Byte `i` of `data`, or zero behind its end.
    pub open spec fn spec_pad(data: Seq<u8>, i: int) -> u8 {
        if 0 <= i < data.len() {
            data[i]
        } else {
            0
        }
    }

    /// The first thirty-two bytes of `data`, with zeros where `data` ends
    /// before that.
    pub open spec fn spec_raw_data(data: Seq<u8>) -> [u8; 32] {
        [
            Self::spec_pad(data, 0),
            Self::spec_pad(data, 1),
            Self::spec_pad(data, 2),
            Self::spec_pad(data, 3),
            Self::spec_pad(data, 4),
            Self::spec_pad(data, 5),
            Self::spec_pad(data, 6),
            Self::spec_pad(data, 7),
            Self::spec_pad(data, 8),
            Self::spec_pad(data, 9),
            Self::spec_pad(data, 10),
            Self::spec_pad(data, 11),
            Self::spec_pad(data, 12),
            Self::spec_pad(data, 13),
            Self::spec_pad(data, 14),
            Self::spec_pad(data, 15),
            Self::spec_pad(data, 16),
            Self::spec_pad(data, 17),
            Self::spec_pad(data, 18),
            Self::spec_pad(data, 19),
            Self::spec_pad(data, 20),
            Self::spec_pad(data, 21),
            Self::spec_pad(data, 22),
            Self::spec_pad(data, 23),
            Self::spec_pad(data, 24),
            Self::spec_pad(data, 25),
            Self::spec_pad(data, 26),
            Self::spec_pad(data, 27),
            Self::spec_pad(data, 28),
            Self::spec_pad(data, 29),
            Self::spec_pad(data, 30),
            Self::spec_pad(data, 31),
        ]
    }

    /// A message is well formed when exactly the echo kinds carry an echo body.
    pub open spec fn wf(&self) -> bool {
        self.ty.spec_is_echo() <==> self.data is Echo
    }

    /// The message on the wire: type, code, checksum and, for an echo body,
    /// identifier, sequence number and thirty-two bytes of data.
    pub open spec fn spec_to_bytes(&self) -> Seq<u8> {
        seq![self.ty.spec_to_u8(), self.code] + spec_u16_be_bytes(self.checksum)
            + self.data.spec_to_bytes()
    }

    /// The message that `buf` holds: there if `buf` holds the four bytes of
    /// the header with a known type and, for an echo, the four bytes of
    /// identifier and sequence number. Of an echo's data the first thirty-two
    /// bytes are kept.
    pub open spec fn spec_from_bytes(buf: Seq<u8>) -> Option<Message> {
        if buf.len() < 4 {
            None
        } else {
            match MessageType::spec_from_u8(buf[0]) {
                Some(ty) => {
                    if !ty.spec_is_echo() {
                        Some(
                            Message {
                                ty,
                                code: buf[1],
                                checksum: spec_u16_be(buf[2], buf[3]),
                                data: MessageData::Empty,
                            },
                        )
                    } else if buf.len() < 8 {
                        None
                    } else {
                        Some(
                            Message {
                                ty,
                                code: buf[1],
                                checksum: spec_u16_be(buf[2], buf[3]),
                                data: MessageData::Echo {
                                    identifier: spec_u16_be(buf[4], buf[5]),
                                    sequence_number: spec_u16_be(buf[6], buf[7]),
                                    raw_data: Self::spec_raw_data(buf.skip(8)),
                                },
                            },
                        )
                    }
                },
                None => None,
            }
        }
    }

    /// An array of thirty-two bytes that holds `data` padded with zeros is
    /// the padded data of `data`.
    pub proof fn lemma_raw_data(raw_data: [u8; 32], data: Seq<u8>)
        requires
            forall|i: int| 0 <= i < 32 ==> raw_data@[i] == Self::spec_pad(data, i),
        ensures
            raw_data == Self::spec_raw_data(data),
    {
        let padded = Self::spec_raw_data(data);
        assert(raw_data@ =~= padded@);
        vstd::array::axiom_array_ext_equal(raw_data, padded);
    }

    /// The padded data of thirty-two bytes is those bytes.
    pub proof fn lemma_raw_data_of_array(raw_data: [u8; 32], rest: Seq<u8>)
        ensures
            Self::spec_raw_data(raw_data@ + rest) == raw_data,
    {
        let data = raw_data@ + rest;
        assert forall|i: int| 0 <= i < 32 implies raw_data@[i] == Self::spec_pad(data, i) by {}
        Self::lemma_raw_data(raw_data, data);
    }

    /// Reads the message that `buf` holds.
    ///
    /// Fails with `err` when `buf` is too short or the type is unknown.
    #[verifier::loop_isolation(false)]
    pub fn new_from_bytes<E: Copy>(buf: &[u8], err: E) -> (r: Result<Self, E>)
        ensures
            r == (match Self::spec_from_bytes(buf@) {
                Some(message) => Ok::<Self, E>(message),
                None => Err::<Self, E>(err),
            }),
    {
        let mut reader = ByteCursor::new(buf);

        let message_type = read_u8(&mut reader, err)?;
        let code = read_u8(&mut reader, err)?;
        let checksum = read_u16_as_be(&mut reader, err)?;
        let ty = match MessageType::from_u8(message_type) {
            Some(ty) => ty,
            None => {
                return Err(err);
            },
        };

        let data = if ty.is_echo() {
            let identifier = read_u16_as_be(&mut reader, err)?;
            let sequence_number = read_u16_as_be(&mut reader, err)?;
            let mut raw_data: [u8; 32] = [0; 32];
            let mut idx: usize = 0;
            let ghost data = buf@.skip(8);
            while idx < Self::DATA_LENGTH && reader.remaining_len() > 0
                invariant
                    idx <= 32,
                    reader.source() == buf@,
                    reader.position() == 8 + idx,
                    reader.position() <= buf@.len(),
                    forall|i: int| 0 <= i < idx ==> raw_data@[i] == Self::spec_pad(data, i),
                    forall|i: int| idx <= i < 32 ==> raw_data@[i] == 0,
                decreases 32 - idx,
            {
                raw_data[idx] = read_u8(&mut reader, err)?;
                idx += 1;
            }
            proof {
                Self::lemma_raw_data(raw_data, data);
            }
            MessageData::Echo { identifier, sequence_number, raw_data }
        } else {
            MessageData::Empty
        };

        Ok(Message { ty, code, checksum, data })
    }

    /// Writes the message as it stands on the wire. This never fails.
    pub fn to_bytes<E: Copy>(&self, err: E) -> (r: Result<Vec<u8>, E>)
        ensures
            r is Ok,
            r->Ok_0@ == self.spec_to_bytes(),
    {
        let mut buf = Vec::<u8>::new();
        write_u8(&mut buf, self.ty.to_u8(), err)?;
        write_u8(&mut buf, self.code, err)?;
        write_u16_as_be(&mut buf, self.checksum, err)?;
        match self.data {
            MessageData::Echo { identifier, sequence_number, raw_data } => {
                write_u16_as_be(&mut buf, identifier, err)?;
                write_u16_as_be(&mut buf, sequence_number, err)?;
                let ghost head = buf@;
                let mut i: usize = 0;
                while i < Self::DATA_LENGTH
                    invariant
                        i <= 32,
                        buf@ == head + raw_data@.take(i as int),
                    decreases 32 - i,
                {
                    write_u8(&mut buf, raw_data[i], err)?;
                    assert(raw_data@.take(i as int).push(raw_data@[i as int]) =~= raw_data@.take(
                        i + 1,
                    ));
                    assert(buf@ =~= head + raw_data@.take(i + 1));
                    i += 1;
                }
                assert(raw_data@.take(32) =~= raw_data@);
            },
            MessageData::Empty => {},
        }
        assert(buf@ =~= self.spec_to_bytes());
        Ok(buf)
    }

    /// A message is four bytes long on the wire, or forty with an echo body.
    pub proof fn lemma_length(message: Message)
        ensures
            message.spec_to_bytes().len() == (if message.data is Echo {
                40int
            } else {
                4int
            }),
    {
    }

    /// A well-formed message survives being written and read back.
    pub proof fn lemma_parse_serialize(message: Message)
        requires
            message.wf(),
        ensures
            message.spec_to_bytes().len() == (if message.data is Echo {
                40int
            } else {
                4int
            }),
            Self::spec_from_bytes(message.spec_to_bytes()) == Some(message),
    {
        let bytes = message.spec_to_bytes();
        lemma_u16_be_decode_encode(message.checksum);
        assert(bytes[2] == spec_u16_be_bytes(message.checksum)[0]);
        assert(bytes[3] == spec_u16_be_bytes(message.checksum)[1]);
        match message.data {
            MessageData::Echo { identifier, sequence_number, raw_data } => {
                lemma_u16_be_decode_encode(identifier);
                lemma_u16_be_decode_encode(sequence_number);
                assert(bytes[4] == spec_u16_be_bytes(identifier)[0]);
                assert(bytes[5] == spec_u16_be_bytes(identifier)[1]);
                assert(bytes[6] == spec_u16_be_bytes(sequence_number)[0]);
                assert(bytes[7] == spec_u16_be_bytes(sequence_number)[1]);
                assert(bytes.skip(8) =~= raw_data@ + Seq::<u8>::empty());
                Self::lemma_raw_data_of_array(raw_data, Seq::<u8>::empty());
            },
            MessageData::Empty => {},
        }
    }

    /// A message that was read is well formed, and writing it gives forty
    /// bytes for an echo and four for any other kind.
    pub proof fn lemma_serialize_parse_len(buf: Seq<u8>)
        requires
            Self::spec_from_bytes(buf) is Some,
        ensures
            Self::spec_from_bytes(buf)->Some_0.wf(),
            Self::spec_from_bytes(buf)->Some_0.spec_to_bytes().len() == (if Self::spec_from_bytes(
                buf,
            )->Some_0.ty.spec_is_echo() {
                40int
            } else {
                4int
            }),
    {
    }
}

impl Default for Message {
    fn default() -> (r: Self)
        ensures
            r == (Message {
                ty: MessageType::EchoReply,
                code: 0,
                checksum: 0,
                data: MessageData::Empty,
            }),
    {
        Self { ty: MessageType::EchoReply, code: 0, checksum: 0, data: MessageData::Empty }
    }
}

} // verus!
