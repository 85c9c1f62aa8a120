//! Hardware addresses, and the key under which a pair of them is filed.

use crate::reader::Reader;
use vstd::prelude::*;
use vstd::string::StringExecFns;

verus! {

/// The upper-case hexadecimal digit of a number below 16.
pub open spec fn spec_hex_digit(n: u8) -> char {
    match n {
        0 => '0',
        1 => '1',
        2 => '2',
        3 => '3',
        4 => '4',
        5 => '5',
        6 => '6',
        7 => '7',
        8 => '8',
        9 => '9',
        10 => 'A',
        11 => 'B',
        12 => 'C',
        13 => 'D',
        14 => 'E',
        _ => 'F',
    }
}

/// The two upper-case hexadecimal digits of a byte.
pub open spec fn spec_hex_byte(b: u8) -> Seq<char> {
    seq![spec_hex_digit(b / 16), spec_hex_digit(b % 16)]
}

/// The text of six octets: each as two hexadecimal digits, with colons
/// between them.
pub open spec fn spec_mac_text(o: Seq<u8>) -> Seq<char> {
    spec_hex_byte(o[0]) + seq![':'] + spec_hex_byte(o[1]) + seq![':'] + spec_hex_byte(o[2])
        + seq![':'] + spec_hex_byte(o[3]) + seq![':'] + spec_hex_byte(o[4]) + seq![':']
        + spec_hex_byte(o[5])
}

/// The number that six octets spell, most significant first.
pub open spec fn spec_mac_number(o: Seq<u8>) -> nat {
    (((((o[0] as nat * 256 + o[1] as nat) * 256 + o[2] as nat) * 256 + o[3] as nat) * 256
        + o[4] as nat) * 256 + o[5] as nat)
}

fn hex_digit(n: u8) -> (digit: &'static str)
    requires
        n < 16,
    ensures
        digit@ == seq![spec_hex_digit(n)],
{
    match n {
        0 => {
            proof {
                reveal_strlit("0");
            }
            "0"
        },
        1 => {
            proof {
                reveal_strlit("1");
            }
            "1"
        },
        2 => {
            proof {
                reveal_strlit("2");
            }
            "2"
        },
        3 => {
            proof {
                reveal_strlit("3");
            }
            "3"
        },
        4 => {
            proof {
                reveal_strlit("4");
            }
            "4"
        },
        5 => {
            proof {
                reveal_strlit("5");
            }
            "5"
        },
        6 => {
            proof {
                reveal_strlit("6");
            }
            "6"
        },
        7 => {
            proof {
                reveal_strlit("7");
            }
            "7"
        },
        8 => {
            proof {
                reveal_strlit("8");
            }
            "8"
        },
        9 => {
            proof {
                reveal_strlit("9");
            }
            "9"
        },
        10 => {
            proof {
                reveal_strlit("A");
            }
            "A"
        },
        11 => {
            proof {
                reveal_strlit("B");
            }
            "B"
        },
        12 => {
            proof {
                reveal_strlit("C");
            }
            "C"
        },
        13 => {
            proof {
                reveal_strlit("D");
            }
            "D"
        },
        14 => {
            proof {
                reveal_strlit("E");
            }
            "E"
        },
        _ => {
            proof {
                reveal_strlit("F");
            }
            "F"
        },
    }
}

fn push_hex_byte(text: &mut String, b: u8)
    ensures
        final(text)@ == old(text)@ + spec_hex_byte(b),
{
    text.append(hex_digit(b / 16));
    text.append(hex_digit(b % 16));
    assert(text@ == old(text)@ + spec_hex_byte(b));
}

/// A 48-bit hardware address.
#[derive(Clone, Copy, Debug, PartialEq, Eq, PartialOrd, Hash)]
pub struct MacAddress([u8; 6]);

impl MacAddress {
    /// The six octets, in the order in which they are transmitted.
    pub closed spec fn octets(&self) -> Seq<u8> {
        self.0@
    }

    /// The address as one number, its first octet the most significant.
    /// Addresses are ordered as these numbers are.
    pub open spec fn spec_to_u64(&self) -> u64 {
        spec_mac_number(self.octets()) as u64
    }

    /// The canonical text of the address, `XX:XX:XX:XX:XX:XX`.
    pub open spec fn text(&self) -> Seq<char> {
        spec_mac_text(self.octets())
    }

    /// An address always has six octets.
    pub proof fn lemma_octets_len(self)
        ensures
            self.octets().len() == 6,
    {
    }

    /// Addresses with the same octets are the same address.
    pub proof fn lemma_octets_injective(self, other: MacAddress)
        requires
            self.octets() == other.octets(),
        ensures
            self == other,
    {
        assert(self.0 =~= other.0);
    }

    /// Addresses with the same number are the same address.
    pub proof fn lemma_number_injective(self, other: MacAddress)
        requires
            self.spec_to_u64() == other.spec_to_u64(),
        ensures
            self == other,
    {
        let a = self.octets();
        let b = other.octets();
        assert(a[0] == b[0] && a[1] == b[1] && a[2] == b[2] && a[3] == b[3] && a[4] == b[4]
            && a[5] == b[5]);
        assert(a =~= b);
        self.lemma_octets_injective(other);
    }

    /// The address whose octets are the first six of `o`.
    pub closed spec fn spec_new(o: Seq<u8>) -> MacAddress {
        MacAddress([o[0], o[1], o[2], o[3], o[4], o[5]])
    }

    /// `spec_new` makes the address that has the octets it was given.
    pub proof fn lemma_spec_new(o: Seq<u8>)
        requires
            o.len() >= 6,
        ensures
            Self::spec_new(o).octets() == o.take(6),
    {
        assert(Self::spec_new(o).octets() =~= o.take(6));
    }

    /// The address with the given octets.
    pub fn new(octets: [u8; 6]) -> (mac: MacAddress)
        ensures
            mac.octets() == octets@,
            mac == Self::spec_new(octets@),
    {
        let mac = MacAddress(octets);
        proof {
            Self::lemma_spec_new(octets@);
            assert(octets@.take(6) =~= octets@);
            mac.lemma_octets_injective(Self::spec_new(octets@));
        }
        mac
    }

    /// The six octets of the address.
    pub fn as_bytes(&self) -> (octets: [u8; 6])
        ensures
            octets@ == self.octets(),
    {
        self.0
    }

    /// Reads an address off the next six bytes.
    pub fn from(bytes: &mut Reader) -> (mac: MacAddress)
        requires
            old(bytes).remaining().len() >= 6,
        ensures
            mac == Self::spec_new(old(bytes).remaining()),
            mac.octets() == old(bytes).remaining().take(6),
            final(bytes).bytes() == old(bytes).bytes(),
            final(bytes).spec_position() == old(bytes).spec_position() + 6,
    {
        let start = bytes.position();
        let mut octets: [u8; 6] = [0, 0, 0, 0, 0, 0];
        let mut i: usize = 0;
        while i < 6
            invariant
                i <= 6,
                bytes.bytes() == old(bytes).bytes(),
                bytes.spec_position() == start + i,
                start == old(bytes).spec_position(),
                start + 6 <= bytes.bytes().len(),
                forall|j: int| 0 <= j < i ==> octets@[j] == old(bytes).remaining()[j],
            decreases 6 - i,
        {
            octets[i] = match bytes.read_u8() {
                Ok(octet) => octet,
                Err(_) => unreached(),
            };
            i = i + 1;
        }
        assert(octets@ =~= old(bytes).remaining().take(6));
        let mac = MacAddress(octets);
        proof {
            Self::lemma_spec_new(old(bytes).remaining());
            mac.lemma_octets_injective(Self::spec_new(old(bytes).remaining()));
        }
        mac
    }

    /// The address as one number, its first octet the most significant.
    #[verifier::when_used_as_spec(spec_to_u64)]
    pub fn to_u64(&self) -> (n: u64)
        ensures
            n == self.spec_to_u64(),
            n == spec_mac_number(self.octets()),
    {
        let o = &self.0;
        let a: u64 = ((o[0] as u64) * 256 + o[1] as u64) * 256 + o[2] as u64;
        let b: u64 = (a * 256 + o[3] as u64) * 256 + o[4] as u64;
        b * 256 + o[5] as u64
    }

    /// The canonical text of the address, `XX:XX:XX:XX:XX:XX`.
    pub fn to_string(&self) -> (text: String)
        ensures
            text@ == self.text(),
    {
        proof {
            reveal_strlit(":");
        }
        let mut text = String::new();
        push_hex_byte(&mut text, self.0[0]);
        text.append(":");
        push_hex_byte(&mut text, self.0[1]);
        text.append(":");
        push_hex_byte(&mut text, self.0[2]);
        text.append(":");
        push_hex_byte(&mut text, self.0[3]);
        text.append(":");
        push_hex_byte(&mut text, self.0[4]);
        text.append(":");
        push_hex_byte(&mut text, self.0[5]);
        assert(text@ == spec_mac_text(self.octets()));
        text
    }
}

/// The key under which the connection between two addresses is filed: the
/// texts of both, the greater address first.
pub open spec fn spec_hash_macs(mac1: MacAddress, mac2: MacAddress) -> Seq<char> {
    if mac1.spec_to_u64() >= mac2.spec_to_u64() {
        mac1.text() + mac2.text()
    } else {
        mac2.text() + mac1.text()
    }
}

/// Whether an address names a group of stations rather than one: the lowest
/// bit of its first octet is set.
pub open spec fn spec_is_broadcast(mac: MacAddress) -> bool {
    mac.octets()[0] % 2 == 1
}

/// The key under which the connection between two addresses is filed. It is
/// the same whichever of the two comes first.
pub fn hash_macs(mac1: MacAddress, mac2: MacAddress) -> (key: String)
    ensures
        key@ == spec_hash_macs(mac1, mac2),
        key@ == spec_hash_macs(mac2, mac1),
{
    proof {
        lemma_hash_macs_symmetric(mac1, mac2);
    }
    if mac1.to_u64() >= mac2.to_u64() {
        let mut key = mac1.to_string();
        let second = mac2.to_string();
        key.append(second.as_str());
        key
    } else {
        let mut key = mac2.to_string();
        let second = mac1.to_string();
        key.append(second.as_str());
        key
    }
}

/// Whether an address names a group of stations (broadcast or multicast)
/// rather than one.
pub fn is_broadcast(mac: MacAddress) -> (group: bool)
    ensures
        group == spec_is_broadcast(mac),
        group == (mac.octets()[0] & 1 != 0),
{
    let first = mac.0[0];
    assert((first & 1 != 0) == (first % 2 == 1)) by (bit_vector);
    (first & 0b01) != 0
}

/// The key of a pair does not depend on the order of its two addresses.
pub proof fn lemma_hash_macs_symmetric(mac1: MacAddress, mac2: MacAddress)
    ensures
        spec_hash_macs(mac1, mac2) == spec_hash_macs(mac2, mac1),
{
    if mac1.spec_to_u64() == mac2.spec_to_u64() {
        mac1.lemma_number_injective(mac2);
    }
}

/// Different numbers below 16 have different hexadecimal digits.
pub proof fn lemma_hex_digit_injective(a: u8, b: u8)
    requires
        a < 16,
        b < 16,
        spec_hex_digit(a) == spec_hex_digit(b),
    ensures
        a == b,
{
}

/// The text of an address has 17 characters, and its digits are those of
/// the octets: the two of the `i`-th octet stand at `3 * i` and behind it.
pub proof fn lemma_mac_text(o: Seq<u8>, i: int)
    requires
        0 <= i < 6,
    ensures
        spec_mac_text(o).len() == 17,
        spec_mac_text(o)[3 * i] == spec_hex_digit(o[i] / 16),
        spec_mac_text(o)[3 * i + 1] == spec_hex_digit(o[i] % 16),
{
}

/// The digits of a byte tell the byte.
pub proof fn lemma_hex_byte_injective(x: u8, y: u8)
    requires
        spec_hex_digit(x / 16) == spec_hex_digit(y / 16),
        spec_hex_digit(x % 16) == spec_hex_digit(y % 16),
    ensures
        x == y,
{
    lemma_hex_digit_injective(x / 16, y / 16);
    lemma_hex_digit_injective(x % 16, y % 16);
}

/// Octets with the same text agree at every one of the six places.
pub proof fn lemma_octet_of_text(a: Seq<u8>, b: Seq<u8>, i: int)
    requires
        0 <= i < 6,
        spec_mac_text(a) == spec_mac_text(b),
    ensures
        a[i] == b[i],
{
    lemma_mac_text(a, i);
    lemma_mac_text(b, i);
    lemma_hex_byte_injective(a[i], b[i]);
}

impl MacAddress {
    /// Different addresses have different texts.
    pub proof fn lemma_text_injective(self, other: MacAddress)
        requires
            self.text() == other.text(),
        ensures
            self == other,
    {
        let a = self.octets();
        let b = other.octets();
        lemma_octet_of_text(a, b, 0);
        lemma_octet_of_text(a, b, 1);
        lemma_octet_of_text(a, b, 2);
        lemma_octet_of_text(a, b, 3);
        lemma_octet_of_text(a, b, 4);
        lemma_octet_of_text(a, b, 5);
        assert(a =~= b);
        self.lemma_octets_injective(other);
    }
}

/// Two pairs of addresses are filed under the same key only if they are the
/// same pair, in the same order or the other way round.
pub proof fn lemma_hash_macs_injective(a: MacAddress, b: MacAddress, c: MacAddress, d: MacAddress)
    requires
        spec_hash_macs(a, b) == spec_hash_macs(c, d),
    ensures
        (a == c && b == d) || (a == d && b == c),
{
    let (hi1, lo1) = if a.spec_to_u64() >= b.spec_to_u64() {
        (a, b)
    } else {
        (b, a)
    };
    let (hi2, lo2) = if c.spec_to_u64() >= d.spec_to_u64() {
        (c, d)
    } else {
        (d, c)
    };
    let key = spec_hash_macs(a, b);
    lemma_mac_text(hi1.octets(), 0);
    lemma_mac_text(lo1.octets(), 0);
    lemma_mac_text(hi2.octets(), 0);
    lemma_mac_text(lo2.octets(), 0);
    assert(key == hi1.text() + lo1.text());
    assert(key == hi2.text() + lo2.text());
    assert(key.subrange(0, 17) =~= hi1.text());
    assert(key.subrange(0, 17) =~= hi2.text());
    assert(key.subrange(17, 34) =~= lo1.text());
    assert(key.subrange(17, 34) =~= lo2.text());
    hi1.lemma_text_injective(hi2);
    lo1.lemma_text_injective(lo2);
}

} // verus!
