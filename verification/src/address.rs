use vstd::prelude::*;

verus! {

broadcast use vstd::array::group_array_axioms;

/// A 6-byte BLE MAC identifier. Immutable once built; supplied by the
/// caller at session construction.
#[derive(Clone, Copy, Debug)]
pub struct Address {
    pub octets: [u8; 6],
}

impl View for Address {
    type V = Seq<u8>;

    open spec fn view(&self) -> Seq<u8> {
        self.octets@
    }
}

impl Address {
    pub fn new(octets: [u8; 6]) -> (a: Address)
        ensures
            a@ == octets@,
    {
        Address { octets }
    }

    /// Byte-for-byte equality of two addresses.
    pub fn same_as(&self, other: &Address) -> (r: bool)
        ensures
            r == (self@ == other@),
    {
        let eq = self.octets[0] == other.octets[0] && self.octets[1] == other.octets[1]
            && self.octets[2] == other.octets[2] && self.octets[3] == other.octets[3]
            && self.octets[4] == other.octets[4] && self.octets[5] == other.octets[5];
        proof {
            if eq {
                assert(self@ =~= other@);
            }
        }
        eq
    }
}

/// ASCII hexadecimal digit, either case.
pub open spec fn is_hex_digit(b: u8) -> bool {
    (0x30 <= b && b <= 0x39) || (0x41 <= b && b <= 0x46) || (0x61 <= b && b <= 0x66)
}

/// Numeric value of an ASCII hexadecimal digit.
pub open spec fn hex_digit_val(b: u8) -> u8 {
    if 0x30 <= b && b <= 0x39 {
        (b - 0x30) as u8
    } else if 0x41 <= b && b <= 0x46 {
        (b - 0x41 + 10) as u8
    } else {
        (b - 0x61 + 10) as u8
    }
}

/// The textual MAC shape `HH:HH:HH:HH:HH:HH`: 17 bytes, hexadecimal digit
/// pairs at positions 3j and 3j+1, colons between the pairs.
pub open spec fn valid_mac_text(s: Seq<u8>) -> bool {
    &&& s.len() == 17
    &&& forall|i: int|
        0 <= i < 17 ==> (if i % 3 == 2 {
            #[trigger] s[i] == 0x3au8
        } else {
            is_hex_digit(s[i])
        })
}

/// The j-th address octet denoted by a textual MAC.
pub open spec fn mac_octet(s: Seq<u8>, j: int) -> u8 {
    (hex_digit_val(s[3 * j]) * 16 + hex_digit_val(s[3 * j + 1])) as u8
}

fn hex_val(b: u8) -> (r: Option<u8>)
    ensures
        r is Some <==> is_hex_digit(b),
        r matches Some(v) ==> v == hex_digit_val(b),
{
    if 0x30 <= b && b <= 0x39 {
        Some(b - 0x30)
    } else if 0x41 <= b && b <= 0x46 {
        Some(b - 0x41 + 10)
    } else if 0x61 <= b && b <= 0x66 {
        Some(b - 0x61 + 10)
    } else {
        None
    }
}

impl Address {
    /// Parse a textual MAC such as the ASCII bytes of `BE:32:03:82:3C:B1`.
    /// Returns an address exactly when the text has the canonical
    /// colon-separated shape, and then the parsed octets are the denoted ones.
    pub fn parse(text: &Vec<u8>) -> (r: Option<Address>)
        ensures
            r is Some <==> valid_mac_text(text@),
            r matches Some(a) ==> forall|j: int| 0 <= j < 6 ==> a@[j] == mac_octet(text@, j),
    {
        if text.len() != 17 {
            return None;
        }
        let mut octets: [u8; 6] = [0; 6];
        let mut j: usize = 0;
        while j < 6
            invariant
                text@.len() == 17,
                j <= 6,
                forall|i: int|
                    0 <= i < 3 * j && i < 17 ==> (if i % 3 == 2 {
                        #[trigger] text@[i] == 0x3au8
                    } else {
                        is_hex_digit(text@[i])
                    }),
                forall|k: int| 0 <= k < j ==> octets@[k] == mac_octet(text@, k),
            decreases 6 - j,
        {
            let hi = hex_val(text[3 * j]);
            let lo = hex_val(text[3 * j + 1]);
            match (hi, lo) {
                (Some(h), Some(l)) => {
                    octets[j] = h * 16 + l;
                },
                _ => {
                    proof {
                        assert(!valid_mac_text(text@)) by {
                            if valid_mac_text(text@) {
                                assert(is_hex_digit(text@[3 * (j as int)]));
                                assert(is_hex_digit(text@[3 * (j as int) + 1]));
                            }
                        }
                    }
                    return None;
                },
            }
            if j < 5 && text[3 * j + 2] != 0x3a {
                proof {
                    assert(!valid_mac_text(text@)) by {
                        if valid_mac_text(text@) {
                            assert(text@[3 * (j as int) + 2] == 0x3au8);
                        }
                    }
                }
                return None;
            }
            j += 1;
        }
        Some(Address { octets })
    }
}

} // verus!
