//! Six-byte hardware addresses, stored in network byte order.

use vstd::prelude::*;

verus! {

/// Number of bytes in a hardware address.
pub const MAC_ADDR_LEN: usize = 6;

/// A six-byte hardware address in network byte order.
#[derive(Clone, Copy, Debug)]
pub struct MacAddr {
    pub octets: [u8; 6],
}

impl View for MacAddr {
    type V = Seq<u8>;

    open spec fn view(&self) -> Seq<u8> {
        self.octets@
    }
}

impl MacAddr {
    pub fn new(octets: [u8; 6]) -> (r: MacAddr)
        ensures
            r@ == octets@,
    {
        MacAddr { octets }
    }

    /// Read one octet of the address.
    pub fn octet(&self, i: usize) -> (r: u8)
        requires
            i < 6,
        ensures
            r == self@[i as int],
    {
        self.octets[i]
    }

    /// Octet-wise equality of two addresses.
    pub fn equals(&self, other: &MacAddr) -> (r: bool)
        ensures
            r == (self@ == other@),
    {
        let r = self.octets[0] == other.octets[0] && self.octets[1] == other.octets[1]
            && self.octets[2] == other.octets[2] && self.octets[3] == other.octets[3]
            && self.octets[4] == other.octets[4] && self.octets[5] == other.octets[5];
        proof {
            if r {
                assert(self@ =~= other@);
            }
        }
        r
    }
}

} // verus!
