//! Ethernet hardware addresses.

use crate::text::{
    lemma_field_of_hex_octet, lemma_octets_len, parse_octets, push_hex_octet, spec_hex_octet,
    spec_octets,
};
use crate::byteorder_wrapper::{
    read_u8, spec_u48_be, spec_u48_be_bytes, write_u48_as_be, ByteCursor,
};
use vstd::prelude::*;
use vstd::std_specs::cmp::PartialEqSpecImpl;
use vstd::std_specs::convert::FromSpecImpl;

verus! {

/// The six octets of a hardware address, in wire order.
pub type RawMacAddress = [u8; 6];

/// A 48-bit Ethernet hardware address.
#[derive(Debug, Eq, PartialOrd, Ord, Copy, Clone)]
pub struct MacAddress(pub RawMacAddress);

impl View for MacAddress {
    type V = Seq<u8>;

    /// The six octets in wire order.
    open spec fn view(&self) -> Seq<u8> {
        self.0@
    }
}

impl PartialEq for MacAddress {
    fn eq(&self, other: &Self) -> (r: bool) {
        proof {
            vstd::array::axiom_array_ext_equal(self.0, other.0);
        }
        self.0[0] == other.0[0] && self.0[1] == other.0[1] && self.0[2] == other.0[2] && self.0[3]
            == other.0[3] && self.0[4] == other.0[4] && self.0[5] == other.0[5]
    }
}

impl PartialEqSpecImpl for MacAddress {
    open spec fn obeys_eq_spec() -> bool {
        true
    }

    open spec fn eq_spec(&self, other: &Self) -> bool {
        *self == *other
    }
}

impl MacAddress {
    /// The all-ones address, which every station receives.
    pub open spec fn spec_broadcast() -> MacAddress {
        MacAddress([0xffu8, 0xff, 0xff, 0xff, 0xff, 0xff])
    }

    /// The all-zero address.
    pub open spec fn spec_zero() -> MacAddress {
        MacAddress([0u8, 0, 0, 0, 0, 0])
    }

    /// The address as a number: the six octets read as one big-endian value.
    pub open spec fn spec_u64(self) -> u64 {
        spec_u48_be(self@[0], self@[1], self@[2], self@[3], self@[4], self@[5])
    }

    /// The address as text: six octets in two hexadecimal digits each,
    /// separated by colons.
    pub open spec fn spec_text(&self) -> Seq<char> {
        spec_hex_octet(self@[0]) + seq![':'] + spec_hex_octet(self@[1]) + seq![':']
            + spec_hex_octet(self@[2]) + seq![':'] + spec_hex_octet(self@[3]) + seq![':']
            + spec_hex_octet(self@[4]) + seq![':'] + spec_hex_octet(self@[5])
    }

    /// The address that `text` writes: six octets of one or two hexadecimal
    /// digits each, separated by colons, and nothing else.
    pub open spec fn spec_parse(text: Seq<char>) -> Option<MacAddress> {
        match spec_octets(text, 0, 6, ':', true) {
            Some(octets) => Some(Self::spec_from_seq(octets)),
            None => None,
        }
    }

    /// The text of an address is read as that address.
    #[verifier::rlimit(40)]
    pub proof fn lemma_text_round_trip(a: MacAddress)
        ensures
            Self::spec_parse(a.spec_text()) == Some(a),
    {
        let text = a.spec_text();
        assert(text.len() == 17);
        assert(text.subrange(0, 2) =~= spec_hex_octet(a@[0]));
        assert(text.subrange(3, 5) =~= spec_hex_octet(a@[1]));
        assert(text.subrange(6, 8) =~= spec_hex_octet(a@[2]));
        assert(text.subrange(9, 11) =~= spec_hex_octet(a@[3]));
        assert(text.subrange(12, 14) =~= spec_hex_octet(a@[4]));
        assert(text.subrange(15, 17) =~= spec_hex_octet(a@[5]));
        lemma_field_of_hex_octet(text, 0, a@[0]);
        lemma_field_of_hex_octet(text, 3, a@[1]);
        lemma_field_of_hex_octet(text, 6, a@[2]);
        lemma_field_of_hex_octet(text, 9, a@[3]);
        lemma_field_of_hex_octet(text, 12, a@[4]);
        lemma_field_of_hex_octet(text, 15, a@[5]);
        assert(text[2] == ':' && text[5] == ':' && text[8] == ':' && text[11] == ':' && text[14]
            == ':');
        assert(spec_octets(text, 15, 1, ':', true) == Some(seq![a@[5]]));
        assert(spec_octets(text, 12, 2, ':', true) == Some(seq![a@[4]] + seq![a@[5]]));
        assert(spec_octets(text, 9, 3, ':', true) == Some(
            seq![a@[3]] + (seq![a@[4]] + seq![a@[5]]),
        ));
        assert(spec_octets(text, 6, 4, ':', true) == Some(
            seq![a@[2]] + (seq![a@[3]] + (seq![a@[4]] + seq![a@[5]])),
        ));
        assert(spec_octets(text, 3, 5, ':', true) == Some(
            seq![a@[1]] + (seq![a@[2]] + (seq![a@[3]] + (seq![a@[4]] + seq![a@[5]]))),
        ));
        let octets = spec_octets(text, 0, 6, ':', true)->Some_0;
        assert(octets =~= a@);
        Self::lemma_from_seq(a, octets);
        assert(octets.take(6) =~= octets);
    }

    /// The address as text, as in `0c:22:38:4e:5a:0c`.
    pub fn to_string(&self) -> (s: String)
        ensures
            s@ == self.spec_text(),
    {
        let mut text = String::new();
        proof {
            reveal_strlit(":");
        }
        push_hex_octet(&mut text, self.0[0]);
        text.append(":");
        push_hex_octet(&mut text, self.0[1]);
        text.append(":");
        push_hex_octet(&mut text, self.0[2]);
        text.append(":");
        push_hex_octet(&mut text, self.0[3]);
        text.append(":");
        push_hex_octet(&mut text, self.0[4]);
        text.append(":");
        push_hex_octet(&mut text, self.0[5]);
        assert(text@ =~= self.spec_text());
        text
    }

    /// Reads an address from text such as `0c:22:38:4e:5a:0c`. Text that is
    /// anything else gives no address.
    pub fn parse(s: &str) -> (r: Option<MacAddress>)
        ensures
            r == Self::spec_parse(s@),
    {
        match parse_octets(s, 6, ':', true) {
            Some(octets) => {
                proof {
                    lemma_octets_len(s@, 0, 6, ':', true);
                    vstd::array::axiom_array_ext_equal(
                        [octets@[0], octets@[1], octets@[2], octets@[3], octets@[4], octets@[5]],
                        Self::spec_from_seq(octets@).0,
                    );
                }
                Some(
                    MacAddress(
                        [octets[0], octets[1], octets[2], octets[3], octets[4], octets[5]],
                    ),
                )
            },
            None => None,
        }
    }

    /// The address whose octets are the first six of `s`.
    pub open spec fn spec_from_seq(s: Seq<u8>) -> MacAddress {
        MacAddress([s[0], s[1], s[2], s[3], s[4], s[5]])
    }

    /// An address whose octets are the first six of `s` is the address of `s`.
    pub proof fn lemma_from_seq(a: MacAddress, s: Seq<u8>)
        requires
            s.len() >= 6,
        ensures
            (a@ == s.take(6)) <==> (a == Self::spec_from_seq(s)),
            Self::spec_from_seq(s)@ == s.take(6),
    {
        let b = Self::spec_from_seq(s);
        assert(b@ =~= s.take(6));
        Self::lemma_view_injective(a, b);
    }

    /// Sequences that agree on their first six bytes give the same address.
    pub proof fn lemma_same_octets(s: Seq<u8>, t: Seq<u8>)
        requires
            s.len() >= 6,
            t.len() >= 6,
            forall|i: int| 0 <= i < 6 ==> s[i] == t[i],
        ensures
            Self::spec_from_seq(s) == Self::spec_from_seq(t),
    {
    }

    /// Two addresses are equal exactly when their octets are.
    pub proof fn lemma_view_injective(a: MacAddress, b: MacAddress)
        ensures
            (a@ == b@) <==> (a == b),
    {
        vstd::array::axiom_array_ext_equal(a.0, b.0);
        if a@ == b@ {
            assert(a.0@ =~= b.0@);
        }
    }

    /// The all-ones address, which every station receives.
    #[verifier::when_used_as_spec(spec_broadcast)]
    pub fn broadcast() -> (r: MacAddress)
        ensures
            r == Self::spec_broadcast(),
    {
        MacAddress([0xff, 0xff, 0xff, 0xff, 0xff, 0xff])
    }

    /// The all-zero address.
    #[verifier::when_used_as_spec(spec_zero)]
    pub fn zero() -> (r: MacAddress)
        ensures
            r == Self::spec_zero(),
    {
        MacAddress([0, 0, 0, 0, 0, 0])
    }

    /// Reads the next six bytes as an address.
    ///
    /// With fewer than six bytes left, `err` is returned and the cursor has
    /// consumed what was there.
    pub fn from_cursor<E: Copy>(reader: &mut ByteCursor, err: E) -> (r: Result<Self, E>)
        ensures
            final(reader).source() == old(reader).source(),
            0 <= final(reader).position() <= final(reader).source().len(),
            old(reader).position() + 6 <= old(reader).source().len() ==> r == Ok::<Self, E>(
                Self::spec_from_seq(old(reader).remaining()),
            ) && final(reader).position() == old(reader).position() + 6,
            old(reader).position() + 6 > old(reader).source().len() ==> r == Err::<Self, E>(err)
                && final(reader).position() == final(reader).source().len(),
    {
        let mut addr: [u8; 6] = [0x00; 6];
        let mut i: usize = 0;
        proof {
            reader.lemma_position_in_source();
        }
        while i < 6
            invariant
                i <= 6,
                reader.source() == old(reader).source(),
                reader.position() == old(reader).position() + i,
                0 <= reader.position() <= reader.source().len(),
                0 <= old(reader).position(),
                forall|j: int|
                    0 <= j < i ==> addr@[j] == old(reader).source()[old(reader).position() + j],
            decreases 6 - i,
        {
            match read_u8(reader, err) {
                Ok(byte) => {
                    addr[i] = byte;
                },
                Err(e) => {
                    return Err(e);
                },
            }
            i += 1;
        }
        proof {
            assert(addr@ =~= old(reader).remaining().take(6));
            Self::lemma_from_seq(Self(addr), old(reader).remaining());
        }
        Ok(Self(addr))
    }

    /// The six octets in wire order. This never fails.
    pub fn to_bytes<E: Copy>(&self, err: E) -> (r: Result<Vec<u8>, E>)
        ensures
            r is Ok,
            r->Ok_0@ == self@,
    {
        let mut buf = Vec::new();
        let n: u64 = u64::from(*self);
        proof {
            Self::lemma_u48_bytes(*self);
        }
        match write_u48_as_be(&mut buf, n, err) {
            Ok(()) => {},
            Err(e) => {
                return Err(e);
            },
        }
        assert(buf@ =~= self@);
        Ok(buf)
    }

    /// The number of an address fits in 48 bits and encodes to its octets.
    pub proof fn lemma_u48_bytes(a: MacAddress)
        ensures
            a.spec_u64() < 0x1_0000_0000_0000,
            spec_u48_be_bytes(a.spec_u64()) =~= a@,
    {
        let n = a.spec_u64() as int;
        let (b0, b1, b2, b3, b4, b5) = (
            a@[0] as int,
            a@[1] as int,
            a@[2] as int,
            a@[3] as int,
            a@[4] as int,
            a@[5] as int,
        );
        let x1 = b0 * 0x100 + b1;
        let x2 = x1 * 0x100 + b2;
        let x3 = x2 * 0x100 + b3;
        let x4 = x3 * 0x100 + b4;
        let x5 = x4 * 0x100 + b5;
        assert(n == x5);
        assert(x5 / 0x100 == x4 && x5 % 0x100 == b5);
        assert(x4 / 0x100 == x3 && x4 % 0x100 == b4);
        assert(x3 / 0x100 == x2 && x3 % 0x100 == b3);
        assert(x2 / 0x100 == x1 && x2 % 0x100 == b2);
        assert(x1 / 0x100 == b0 && x1 % 0x100 == b1);
        assert(n / 0x1_0000 == x3);
        assert(n / 0x100_0000 == x2);
        assert(n / 0x1_0000_0000 == x1);
        assert(n / 0x100_0000_0000 == b0);
    }
}

impl From<MacAddress> for u64 {
    /// The six octets read as one big-endian value.
    fn from(addr: MacAddress) -> (r: u64) {
        addr.0[0] as u64 * 0x100_0000_0000 + addr.0[1] as u64 * 0x1_0000_0000 + addr.0[2] as u64
            * 0x100_0000 + addr.0[3] as u64 * 0x1_0000 + addr.0[4] as u64 * 0x100
            + addr.0[5] as u64
    }
}

impl FromSpecImpl<MacAddress> for u64 {
    open spec fn obeys_from_spec() -> bool {
        true
    }

    open spec fn from_spec(addr: MacAddress) -> u64 {
        addr.spec_u64()
    }
}

impl From<[u8; 6]> for MacAddress {
    fn from(addr: [u8; 6]) -> (r: MacAddress) {
        Self(addr)
    }
}

impl FromSpecImpl<[u8; 6]> for MacAddress {
    open spec fn obeys_from_spec() -> bool {
        true
    }

    open spec fn from_spec(addr: [u8; 6]) -> MacAddress {
        MacAddress(addr)
    }
}

impl Default for MacAddress {
    fn default() -> (r: MacAddress)
        ensures
            r == MacAddress::spec_zero(),
    {
        Self([0x00, 0x00, 0x00, 0x00, 0x00, 0x00])
    }
}

} // verus!
